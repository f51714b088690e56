//! Laws of the codec that hold beyond any one call, stated over the
//! decode specification and proved once. The round-trip law itself is
//! the contract of [`crate::encode::encode_item`] and
//! [`crate::encode::encode_content`].

use vstd::prelude::*;
use crate::json::JsonValue;
use crate::model::{Creator, ItemType, is_known_role};
use crate::registry::{FieldId, spec_item_type_from_tag, spec_type_tag, spec_required,
    spec_field_name};
use crate::codec::{DecodeErrorV, RecordV, rec_init, CreatorAcc, spec_finish_creator, spec_step,
    spec_fold, spec_scan_type, spec_decode_rec, spec_missing_content};
use crate::encode::{lemma_tag_round_trip, lemma_registry_names};
use crate::digits::spec_parse_u16;

verus! {

/// A creator entry whose role string is outside the known enumeration
/// is not refused: it becomes a raw creator that keeps the role verbatim.
pub proof fn lemma_unknown_role_decodes_raw(acc: CreatorAcc)
    requires
        (acc.role matches Some(r) && !is_known_role(r@)),
    ensures
        (spec_finish_creator(acc) matches Ok(c) && c matches Creator::Raw { role, name } && Some(
            role,
        ) == acc.role),
{
}

/// Scanning resolves the first `itemType` member; when its tag is
/// registered nowhere, the whole decode fails with `UnknownItemType`,
/// whatever else the object holds.
proof fn lemma_scan_unknown(entries: Seq<(String, JsonValue)>, k: int)
    requires
        0 <= k < entries.len(),
        entries[k].0@ == "itemType"@,
        forall|j: int| 0 <= j < k ==> (#[trigger] entries[j]).0@ != "itemType"@,
        (entries[k].1 matches JsonValue::Str(s) && spec_item_type_from_tag(s@) is None),
    ensures
        spec_scan_type(entries) == Err::<ItemType, DecodeErrorV>(DecodeErrorV::UnknownItemType),
    decreases k,
{
    if k == 0 {
    } else {
        assert(entries[0].0@ != "itemType"@);
        assert(entries.drop_first()[k - 1] == entries[k]);
        assert(forall|j: int|
            0 <= j < k - 1 ==> (#[trigger] entries.drop_first()[j]).0@ != "itemType"@);
        lemma_scan_unknown(entries.drop_first(), k - 1);
    }
}

/// Decoding an object whose type discriminator names no registered item
/// type fails with `UnknownItemType` and yields no item.
pub proof fn lemma_unknown_item_type(v: JsonValue, k: int)
    requires
        (v matches JsonValue::Obj(entries) && {
            &&& 0 <= k < entries@.len()
            &&& entries@[k].0@ == "itemType"@
            &&& forall|j: int| 0 <= j < k ==> (#[trigger] entries@[j]).0@ != "itemType"@
            &&& (entries@[k].1 matches JsonValue::Str(s) && spec_item_type_from_tag(s@) is None)
        }),
    ensures
        spec_decode_rec(v) == Err::<(ItemType, RecordV), DecodeErrorV>(
            DecodeErrorV::UnknownItemType,
        ),
{
    match v {
        JsonValue::Obj(entries) => {
            lemma_scan_unknown(entries@, k);
        },
        _ => {},
    }
}

/// A fold that never sees a member named `title` leaves the title slot
/// empty.
proof fn lemma_fold_keeps_title_none(
    t: ItemType,
    entries: Seq<(String, JsonValue)>,
    acc: RecordV,
)
    requires
        acc.title is None,
        forall|j: int| 0 <= j < entries.len() ==> (#[trigger] entries[j]).0@ != "title"@,
        spec_fold(t, entries, acc) is Ok,
    ensures
        (spec_fold(t, entries, acc) matches Ok(r) && r.title is None),
    decreases entries.len(),
{
    if entries.len() == 0 {
    } else {
        match spec_step(t, acc, entries[0].0, entries[0].1) {
            Ok(a) => {
                assert(a.title is None);
                assert(forall|j: int|
                    0 <= j < entries.drop_first().len() ==> (#[trigger] entries.drop_first()[j]).0@
                        != "title"@);
                lemma_fold_keeps_title_none(t, entries.drop_first(), a);
            },
            Err(_) => {},
        }
    }
}

/// Decoding a Book object with no `title` member fails with
/// `MissingRequiredField("title")`, provided no member is malformed.
pub proof fn lemma_book_missing_title(v: JsonValue)
    requires
        (v matches JsonValue::Obj(entries) && {
            &&& spec_scan_type(entries@) == Ok::<ItemType, DecodeErrorV>(ItemType::Book)
            &&& forall|j: int|
                0 <= j < entries@.len() ==> (#[trigger] entries@[j]).0@ != "title"@
            &&& spec_fold(ItemType::Book, entries@, rec_init()) is Ok
        }),
    ensures
        (spec_decode_rec(v) matches Ok(p) && spec_missing_content(p.0, p.1) == Some("title"@)),
{
    match v {
        JsonValue::Obj(entries) => {
            lemma_fold_keeps_title_none(ItemType::Book, entries@, rec_init());
            assert(spec_required(ItemType::Book, FieldId::Title));
        },
        _ => {},
    }
}

/// A minimal object for a variant with no required fields — the
/// discriminator member alone — decodes, and produces that variant.
pub proof fn lemma_minimal_generic_decodes(v: JsonValue, t: ItemType)
    requires
        !(t == ItemType::Artwork || t == ItemType::Book || t == ItemType::BookSection),
        (v matches JsonValue::Obj(entries) && {
            &&& entries@.len() == 1
            &&& entries@[0].0@ == "itemType"@
            &&& (entries@[0].1 matches JsonValue::Str(s) && s@ == spec_type_tag(t))
        }),
    ensures
        (spec_decode_rec(v) matches Ok(p) && p.0 == t && spec_missing_content(t, p.1) is None),
{
    lemma_tag_round_trip(t);
    match v {
        JsonValue::Obj(entries) => {
            assert(spec_scan_type(entries@) == Ok::<ItemType, DecodeErrorV>(t));
            assert(entries@.drop_first() =~= Seq::<(String, JsonValue)>::empty());
            assert(spec_step(t, rec_init(), entries@[0].0, entries@[0].1)
                == Ok::<RecordV, DecodeErrorV>(rec_init()));
            assert(spec_fold(t, Seq::<(String, JsonValue)>::empty(), rec_init())
                == Ok::<RecordV, DecodeErrorV>(rec_init()));
        },
        _ => {},
    }
}


/// Unfolds one fold step over a leading member, for the minimal-object
/// proofs.
proof fn lemma_fold_unfold(
    t: ItemType,
    entries: Seq<(String, JsonValue)>,
    acc: RecordV,
)
    requires
        entries.len() > 0,
    ensures
        spec_fold(t, entries, acc) == (match spec_step(t, acc, entries[0].0, entries[0].1) {
            Ok(a) => spec_fold(t, entries.drop_first(), a),
            Err(e) => Err(e),
        }),
{
}

/// A minimal Artwork object — the discriminator and the required
/// `title` — decodes, and produces an Artwork.
pub proof fn lemma_minimal_artwork_decodes(v: JsonValue)
    requires
        (v matches JsonValue::Obj(entries) && {
            &&& entries@.len() == 2
            &&& entries@[0].0@ == "itemType"@
            &&& (entries@[0].1 matches JsonValue::Str(s) && s@ == spec_type_tag(
                ItemType::Artwork,
            ))
            &&& entries@[1].0@ == spec_field_name(FieldId::Title)
            &&& entries@[1].1 matches JsonValue::Str(s)
        }),
    ensures
        (spec_decode_rec(v) matches Ok(p) && p.0 == ItemType::Artwork && spec_missing_content(
            ItemType::Artwork,
            p.1,
        ) is None),
{
    let t = ItemType::Artwork;
    lemma_tag_round_trip(t);
    lemma_registry_names(FieldId::Title);
    match v {
        JsonValue::Obj(entries) => {
            assert(spec_scan_type(entries@) == Ok::<ItemType, DecodeErrorV>(t));
            let rest1 = entries@.drop_first();
            assert(rest1[0] == entries@[1]);
            assert(rest1.drop_first() =~= Seq::<(String, JsonValue)>::empty());
            lemma_fold_unfold(t, entries@, rec_init());
            lemma_fold_unfold(t, rest1, rec_init());
            assert(spec_fold(t, entries@, rec_init()) is Ok);
        },
        _ => {},
    }
}

/// A minimal Book object — the discriminator, the required `title` and
/// the required `numberOfVolumes` — decodes, and produces a Book.
pub proof fn lemma_minimal_book_decodes(v: JsonValue)
    requires
        (v matches JsonValue::Obj(entries) && {
            &&& entries@.len() == 3
            &&& entries@[0].0@ == "itemType"@
            &&& (entries@[0].1 matches JsonValue::Str(s) && s@ == spec_type_tag(ItemType::Book))
            &&& entries@[1].0@ == spec_field_name(FieldId::Title)
            &&& entries@[1].1 matches JsonValue::Str(s)
            &&& entries@[2].0@ == spec_field_name(FieldId::NumberOfVolumes)
            &&& (entries@[2].1 matches JsonValue::Str(n) && spec_parse_u16(n@) is Some)
        }),
    ensures
        (spec_decode_rec(v) matches Ok(p) && p.0 == ItemType::Book && spec_missing_content(
            ItemType::Book,
            p.1,
        ) is None),
{
    let t = ItemType::Book;
    lemma_tag_round_trip(t);
    lemma_registry_names(FieldId::Title);
    lemma_registry_names(FieldId::NumberOfVolumes);
    match v {
        JsonValue::Obj(entries) => {
            assert(spec_scan_type(entries@) == Ok::<ItemType, DecodeErrorV>(t));
            let rest1 = entries@.drop_first();
            let rest2 = rest1.drop_first();
            assert(rest1[0] == entries@[1]);
            assert(rest2[0] == entries@[2]);
            assert(rest2.drop_first() =~= Seq::<(String, JsonValue)>::empty());
            lemma_fold_unfold(t, entries@, rec_init());
            match spec_step(t, rec_init(), entries@[0].0, entries@[0].1) {
                Ok(a1) => {
                    lemma_fold_unfold(t, rest1, a1);
                    match spec_step(t, a1, rest1[0].0, rest1[0].1) {
                        Ok(a2) => {
                            lemma_fold_unfold(t, rest2, a2);
                        },
                        Err(_) => {},
                    }
                },
                Err(_) => {},
            }
            assert(spec_fold(t, entries@, rec_init()) is Ok);
        },
        _ => {},
    }
}

/// A minimal BookSection object — the discriminator and the required
/// `title`, `bookTitle` and `numberOfVolumes` — decodes, and produces a
/// BookSection.
pub proof fn lemma_minimal_book_section_decodes(v: JsonValue)
    requires
        (v matches JsonValue::Obj(entries) && {
            &&& entries@.len() == 4
            &&& entries@[0].0@ == "itemType"@
            &&& (entries@[0].1 matches JsonValue::Str(s) && s@ == spec_type_tag(
                ItemType::BookSection,
            ))
            &&& entries@[1].0@ == spec_field_name(FieldId::Title)
            &&& entries@[1].1 matches JsonValue::Str(s)
            &&& entries@[2].0@ == spec_field_name(FieldId::BookTitle)
            &&& entries@[2].1 matches JsonValue::Str(s)
            &&& entries@[3].0@ == spec_field_name(FieldId::NumberOfVolumes)
            &&& (entries@[3].1 matches JsonValue::Str(n) && spec_parse_u16(n@) is Some)
        }),
    ensures
        (spec_decode_rec(v) matches Ok(p) && p.0 == ItemType::BookSection && spec_missing_content(
            ItemType::BookSection,
            p.1,
        ) is None),
{
    let t = ItemType::BookSection;
    lemma_tag_round_trip(t);
    lemma_registry_names(FieldId::Title);
    lemma_registry_names(FieldId::BookTitle);
    lemma_registry_names(FieldId::NumberOfVolumes);
    match v {
        JsonValue::Obj(entries) => {
            assert(spec_scan_type(entries@) == Ok::<ItemType, DecodeErrorV>(t));
            let rest1 = entries@.drop_first();
            let rest2 = rest1.drop_first();
            let rest3 = rest2.drop_first();
            assert(rest1[0] == entries@[1]);
            assert(rest2[0] == entries@[2]);
            assert(rest3[0] == entries@[3]);
            assert(rest3.drop_first() =~= Seq::<(String, JsonValue)>::empty());
            lemma_fold_unfold(t, entries@, rec_init());
            match spec_step(t, rec_init(), entries@[0].0, entries@[0].1) {
                Ok(a1) => {
                    lemma_fold_unfold(t, rest1, a1);
                    match spec_step(t, a1, rest1[0].0, rest1[0].1) {
                        Ok(a2) => {
                            lemma_fold_unfold(t, rest2, a2);
                            match spec_step(t, a2, rest2[0].0, rest2[0].1) {
                                Ok(a3) => {
                                    lemma_fold_unfold(t, rest3, a3);
                                },
                                Err(_) => {},
                            }
                        },
                        Err(_) => {},
                    }
                },
                Err(_) => {},
            }
            assert(spec_fold(t, entries@, rec_init()) is Ok);
        },
        _ => {},
    }
}

} // verus!
