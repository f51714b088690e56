//! Decimal text for the unsigned integers that the wire format carries as
//! strings: canonical rendering and exact parsing, with a round-trip proof.

use vstd::prelude::*;
use vstd::string::StrSliceExecFns;
use vstd::string::StringExecFns;

verus! {

/// Whether `c` is one of the ten decimal digit characters.
pub open spec fn is_digit_char(c: char) -> bool {
    48 <= c as u32 <= 57
}

/// Numeric value of a decimal digit character.
pub open spec fn digit_val(c: char) -> nat {
    ((c as u32) - 48) as nat
}

/// The digit character for a value below ten.
pub open spec fn digit_char(d: nat) -> char {
    if d == 0 {
        '0'
    } else if d == 1 {
        '1'
    } else if d == 2 {
        '2'
    } else if d == 3 {
        '3'
    } else if d == 4 {
        '4'
    } else if d == 5 {
        '5'
    } else if d == 6 {
        '6'
    } else if d == 7 {
        '7'
    } else if d == 8 {
        '8'
    } else {
        '9'
    }
}

/// Whether every character of `s` is a decimal digit.
pub open spec fn all_digits(s: Seq<char>) -> bool {
    forall|i: int| 0 <= i < s.len() ==> is_digit_char(s[i])
}

/// Value of a digit string read as a base-ten numeral.
pub open spec fn dec_val(s: Seq<char>) -> nat
    decreases s.len(),
{
    if s.len() == 0 {
        0
    } else {
        dec_val(s.drop_last()) * 10 + digit_val(s.last())
    }
}

/// What parsing a string as a `u64` yields: the numeral's value when the
/// string is a non-empty run of digits whose value fits, nothing otherwise.
pub open spec fn spec_parse_u64(s: Seq<char>) -> Option<u64> {
    if s.len() > 0 && all_digits(s) && dec_val(s) <= u64::MAX {
        Some(dec_val(s) as u64)
    } else {
        None
    }
}

/// What parsing a string as a `u16` yields.
pub open spec fn spec_parse_u16(s: Seq<char>) -> Option<u16> {
    if s.len() > 0 && all_digits(s) && dec_val(s) <= u16::MAX {
        Some(dec_val(s) as u16)
    } else {
        None
    }
}

/// The canonical decimal rendering of `n`: no sign, no leading zero
/// except for the single digit of zero itself.
pub open spec fn spec_dec_str(n: nat) -> Seq<char>
    decreases n,
{
    if n < 10 {
        seq![digit_char(n)]
    } else {
        spec_dec_str(n / 10).push(digit_char(n % 10))
    }
}

/// A canonical decimal rendering is a non-empty digit run with value `n`.
pub proof fn lemma_dec_str_props(n: nat)
    ensures
        spec_dec_str(n).len() >= 1,
        all_digits(spec_dec_str(n)),
        dec_val(spec_dec_str(n)) == n,
    decreases n,
{
    if n < 10 {
        let s = spec_dec_str(n);
        assert(s.drop_last() =~= Seq::<char>::empty());
        assert(dec_val(Seq::<char>::empty()) == 0);
        assert(dec_val(s) == dec_val(s.drop_last()) * 10 + digit_val(s.last()));
        assert(digit_val(digit_char(n)) == n);
    } else {
        lemma_dec_str_props(n / 10);
        let p = spec_dec_str(n / 10);
        let s = spec_dec_str(n);
        assert(s == p.push(digit_char(n % 10)));
        assert(s.drop_last() =~= p);
        assert(s.last() == digit_char(n % 10));
        assert(digit_val(digit_char(n % 10)) == n % 10);
        assert(dec_val(s) == dec_val(p) * 10 + n % 10);
        assert((n / 10) * 10 + n % 10 == n) by (nonlinear_arith);
        assert(forall|i: int| 0 <= i < s.len() ==> is_digit_char(#[trigger] s[i]));
    }
}

/// Parsing the canonical rendering of a `u64` gives the number back.
pub proof fn lemma_parse_of_dec_u64(n: u64)
    ensures
        spec_parse_u64(spec_dec_str(n as nat)) == Some(n),
{
    lemma_dec_str_props(n as nat);
}

/// Parsing the canonical rendering of a `u16` gives the number back.
pub proof fn lemma_parse_of_dec_u16(n: u16)
    ensures
        spec_parse_u16(spec_dec_str(n as nat)) == Some(n),
{
    lemma_dec_str_props(n as nat);
}

/// Appending further digits never lowers the value of a numeral prefix.
proof fn lemma_dec_val_take_mono(s: Seq<char>, j: int, k: int)
    requires
        0 <= j <= k <= s.len(),
    ensures
        dec_val(s.take(j)) <= dec_val(s.take(k)),
    decreases k - j,
{
    if j < k {
        lemma_dec_val_take_mono(s, j, k - 1);
        let t = s.take(k);
        assert(t.drop_last() =~= s.take(k - 1));
        assert(dec_val(t) == dec_val(s.take(k - 1)) * 10 + digit_val(t.last()));
        assert(dec_val(s.take(k - 1)) * 10 >= dec_val(s.take(k - 1))) by (nonlinear_arith);
    }
}

/// The single-character string for a digit value below ten.
fn digit_str(d: u64) -> (s: &'static str)
    requires
        d < 10,
    ensures
        s@ == seq![digit_char(d as nat)],
{
    proof {
        reveal_strlit("0");
        reveal_strlit("1");
        reveal_strlit("2");
        reveal_strlit("3");
        reveal_strlit("4");
        reveal_strlit("5");
        reveal_strlit("6");
        reveal_strlit("7");
        reveal_strlit("8");
        reveal_strlit("9");
    }
    let s: &'static str = if d == 0 {
        "0"
    } else if d == 1 {
        "1"
    } else if d == 2 {
        "2"
    } else if d == 3 {
        "3"
    } else if d == 4 {
        "4"
    } else if d == 5 {
        "5"
    } else if d == 6 {
        "6"
    } else if d == 7 {
        "7"
    } else if d == 8 {
        "8"
    } else {
        "9"
    };
    proof {
        assert(s@ =~= seq![digit_char(d as nat)]);
    }
    s
}

/// Renders `n` as its canonical decimal string.
pub fn u64_to_dec(n: u64) -> (s: String)
    ensures
        s@ == spec_dec_str(n as nat),
    decreases n,
{
    if n < 10 {
        let d = digit_str(n);
        let s = d.to_owned();
        proof {
            assert(s@ =~= spec_dec_str(n as nat));
        }
        s
    } else {
        let mut s = u64_to_dec(n / 10);
        let d = digit_str(n % 10);
        s.append(d);
        proof {
            assert(s@ =~= spec_dec_str(n as nat));
        }
        s
    }
}

/// Renders a `u16` as its canonical decimal string.
pub fn u16_to_dec(n: u16) -> (s: String)
    ensures
        s@ == spec_dec_str(n as nat),
{
    u64_to_dec(n as u64)
}

/// Parses `s` as a decimal `u64`; exactly the strings that are non-empty
/// digit runs with a value that fits are accepted.
pub fn parse_u64_dec(s: &str) -> (r: Option<u64>)
    ensures
        r == spec_parse_u64(s@),
{
    let len = s.unicode_len();
    if len == 0 {
        return None;
    }
    let mut i: usize = 0;
    let mut acc: u64 = 0;
    while i < len
        invariant
            len == s@.len(),
            0 < len,
            i <= len,
            all_digits(s@.take(i as int)),
            acc == dec_val(s@.take(i as int)),
        decreases len - i,
    {
        let c = s.get_char(i);
        let v = c as u32;
        if v < 48 || v > 57 {
            proof {
                assert(!is_digit_char(s@[i as int]));
                assert(!all_digits(s@));
            }
            return None;
        }
        let d: u64 = (v - 48) as u64;
        proof {
            let t = s@.take(i + 1);
            assert(t.drop_last() =~= s@.take(i as int));
            assert(t.last() == s@[i as int]);
            assert(dec_val(t) == acc * 10 + d);
        }
        let m = match acc.checked_mul(10) {
            Some(m) => m,
            None => {
                proof {
                    lemma_dec_val_take_mono(s@, i + 1, len as int);
                    assert(s@.take(len as int) =~= s@);
                }
                return None;
            },
        };
        acc = match m.checked_add(d) {
            Some(a) => a,
            None => {
                proof {
                    lemma_dec_val_take_mono(s@, i + 1, len as int);
                    assert(s@.take(len as int) =~= s@);
                }
                return None;
            },
        };
        i += 1;
    }
    proof {
        assert(s@.take(len as int) =~= s@);
    }
    Some(acc)
}

/// Parses `s` as a decimal `u16`.
pub fn parse_u16_dec(s: &str) -> (r: Option<u16>)
    ensures
        r == spec_parse_u16(s@),
{
    match parse_u64_dec(s) {
        Some(v) => {
            if v <= 65535 {
                Some(v as u16)
            } else {
                None
            }
        },
        None => {
            proof {
                if s@.len() > 0 && all_digits(s@) && dec_val(s@) <= u16::MAX {
                    assert(dec_val(s@) <= u64::MAX);
                }
            }
            None
        },
    }
}

} // verus!
