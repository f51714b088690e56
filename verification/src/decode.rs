//! The executable decoder: JSON object in, typed [`Item`] or
//! [`DecodeError`] out, exactly as the codec specification says.

use vstd::prelude::*;
use vstd::string::StringExecFns;
use crate::json::JsonValue;
use crate::model::{Creator, Name, Url, Isbn, Date, CollectionId, Relation, ItemType, Content,
    Item, DecodeError, CommonFields, ArtworkFields, BookFields, BookSectionFields, GenericFields,
    BookishFields};
use crate::registry::{FieldId, field_id_of, item_type_from_tag, field_name};
use crate::strutil::str_eq;
use crate::digits::{parse_u64_dec, parse_u16_dec};
use crate::codec::{DecodeErrorV, err_view, RecordV, rec_init, CreatorAcc, creator_acc_init,
    spec_creator_step, spec_fold_creator, spec_finish_creator, spec_decode_creator,
    spec_fold_creators, spec_fold_strings, spec_fold_relations, spec_step, spec_coerce, spec_fold,
    spec_scan_type, spec_decode_rec, spec_missing_content, spec_missing_item, rels_view,
    content_matches, generic_matches};

verus! {

/// The decoder's workspace while folding an object's members.
struct Record {
    key: Option<String>,
    version: Option<u64>,
    library_id: Option<u64>,
    title: Option<String>,
    book_title: Option<String>,
    creators: Vec<Creator>,
    artwork_medium: Option<String>,
    artwork_size: Option<String>,
    series: Option<String>,
    series_number: Option<String>,
    volume: Option<String>,
    number_of_volumes: Option<u16>,
    edition: Option<String>,
    place: Option<String>,
    publisher: Option<String>,
    num_pages: Option<u16>,
    isbn: Option<Isbn>,
    common: CommonFields,
}

/// The specification reading of the workspace.
spec fn record_view(r: Record) -> RecordV {
    RecordV {
        key: r.key,
        version: r.version,
        library_id: r.library_id,
        title: r.title,
        book_title: r.book_title,
        creators: r.creators@,
        artwork_medium: r.artwork_medium,
        artwork_size: r.artwork_size,
        series: r.series,
        series_number: r.series_number,
        volume: r.volume,
        number_of_volumes: r.number_of_volumes,
        edition: r.edition,
        place: r.place,
        publisher: r.publisher,
        num_pages: r.num_pages,
        isbn: r.isbn,
        abstract_note: r.common.abstract_note,
        date: r.common.date,
        language: r.common.language,
        short_title: r.common.short_title,
        archive: r.common.archive,
        archive_location: r.common.archive_location,
        library_catalog: r.common.library_catalog,
        call_number: r.common.call_number,
        url: r.common.url,
        access_date: r.common.access_date,
        rights: r.common.rights,
        extra: r.common.extra,
        tags: r.common.tags@,
        collections: r.common.collections@,
        relations: rels_view(r.common.relations@),
        unknown: r.common.unknown@,
    }
}

/// The specification reading of a workspace-or-error result.
spec fn res_rec_view(r: Result<Record, DecodeError>) -> Result<RecordV, DecodeErrorV> {
    match r {
        Ok(rec) => Ok(record_view(rec)),
        Err(e) => Err(err_view(e)),
    }
}

/// A fresh workspace.
fn record_init() -> (r: Record)
    ensures
        record_view(r) == rec_init(),
{
    let r = Record {
        key: None,
        version: None,
        library_id: None,
        title: None,
        book_title: None,
        creators: Vec::new(),
        artwork_medium: None,
        artwork_size: None,
        series: None,
        series_number: None,
        volume: None,
        number_of_volumes: None,
        edition: None,
        place: None,
        publisher: None,
        num_pages: None,
        isbn: None,
        common: CommonFields::empty(),
    };
    proof {
        assert(record_view(r).creators =~= rec_init().creators);
        assert(record_view(r).tags =~= rec_init().tags);
        assert(record_view(r).collections =~= rec_init().collections);
        assert(record_view(r).relations =~= rec_init().relations);
        assert(record_view(r).unknown =~= rec_init().unknown);
    }
    r
}

/// The error for a text field of the wrong shape.
fn text_err_of(f: FieldId) -> (e: DecodeError)
    ensures
        err_view(e) == crate::codec::text_err(f),
{
    DecodeError::InvalidFieldValue(field_name(f).to_owned(), "expected string".to_owned())
}

/// The error for a numeric field of the wrong shape.
fn num_err_of(f: FieldId) -> (e: DecodeError)
    ensures
        err_view(e) == crate::codec::num_err(f),
{
    DecodeError::InvalidFieldValue(field_name(f).to_owned(), "expected a decimal number".to_owned())
}

/// Reads one member of a creator object into the accumulator.
fn apply_creator_entry(acc: CreatorAcc, name: String, v: JsonValue) -> (res: Result<
    CreatorAcc,
    DecodeError,
>)
    ensures
        match res {
            Ok(a) => spec_creator_step(acc, name, v) == Ok::<CreatorAcc, DecodeErrorV>(a),
            Err(e) => spec_creator_step(acc, name, v) == Err::<CreatorAcc, DecodeErrorV>(
                err_view(e),
            ),
        },
{
    let mut acc = acc;
    if str_eq(name.as_str(), "creatorType") {
        match v {
            JsonValue::Str(s) => {
                acc.role = Some(s);
                Ok(acc)
            },
            _ => Err(
                DecodeError::InvalidFieldValue(
                    "creators".to_owned(),
                    "expected string".to_owned(),
                ),
            ),
        }
    } else if str_eq(name.as_str(), "firstName") {
        match v {
            JsonValue::Str(s) => {
                acc.first = Some(s);
                Ok(acc)
            },
            _ => Err(
                DecodeError::InvalidFieldValue(
                    "creators".to_owned(),
                    "expected string".to_owned(),
                ),
            ),
        }
    } else if str_eq(name.as_str(), "lastName") {
        match v {
            JsonValue::Str(s) => {
                acc.last = Some(s);
                Ok(acc)
            },
            _ => Err(
                DecodeError::InvalidFieldValue(
                    "creators".to_owned(),
                    "expected string".to_owned(),
                ),
            ),
        }
    } else if str_eq(name.as_str(), "name") {
        match v {
            JsonValue::Str(s) => {
                acc.merged = Some(s);
                Ok(acc)
            },
            _ => Err(
                DecodeError::InvalidFieldValue(
                    "creators".to_owned(),
                    "expected string".to_owned(),
                ),
            ),
        }
    } else {
        Ok(acc)
    }
}

/// Decodes one creator array entry.
fn decode_creator(v: JsonValue) -> (res: Result<Creator, DecodeError>)
    ensures
        match res {
            Ok(c) => spec_decode_creator(v) == Ok::<Creator, DecodeErrorV>(c),
            Err(e) => spec_decode_creator(v) == Err::<Creator, DecodeErrorV>(err_view(e)),
        },
{
    match v {
        JsonValue::Obj(mut entries) => {
            let ghost full = entries@;
            proof {
                assert(v == JsonValue::Obj(entries));
            }
            let mut acc = CreatorAcc { role: None, first: None, last: None, merged: None };
            assert(acc == creator_acc_init());
            while entries.len() > 0
                invariant
                    (v matches JsonValue::Obj(es) && es@ == full),
                    spec_fold_creator(full, creator_acc_init()) == spec_fold_creator(
                        entries@,
                        acc,
                    ),
                decreases entries@.len(),
            {
                let ghost pre = entries@;
                let (n, val) = entries.remove(0);
                proof {
                    assert(pre.remove(0) =~= pre.drop_first());
                    assert((n, val) == pre[0]);
                }
                match apply_creator_entry(acc, n, val) {
                    Ok(a) => {
                        acc = a;
                    },
                    Err(e) => {
                        return Err(e);
                    },
                }
            }
            proof {
                assert(spec_fold_creator(entries@, acc) == Ok::<CreatorAcc, DecodeErrorV>(acc));
            }
            finish_creator(acc)
        },
        _ => Err(
            DecodeError::InvalidFieldValue("creators".to_owned(), "expected object".to_owned()),
        ),
    }
}

/// Builds the creator from its accumulated members.
fn finish_creator(acc: CreatorAcc) -> (res: Result<Creator, DecodeError>)
    ensures
        match res {
            Ok(c) => spec_finish_creator(acc) == Ok::<Creator, DecodeErrorV>(c),
            Err(e) => spec_finish_creator(acc) == Err::<Creator, DecodeErrorV>(err_view(e)),
        },
{
    match acc.role {
        None => Err(
            DecodeError::InvalidFieldValue(
                "creators".to_owned(),
                "creator entry missing creatorType".to_owned(),
            ),
        ),
        Some(r) => {
            let name = match acc.merged {
                Some(m) => Name::Merged(m),
                None => Name::Split { first: acc.first, last: acc.last },
            };
            if str_eq(r.as_str(), "author") {
                Ok(Creator::Author(name))
            } else if str_eq(r.as_str(), "contributor") {
                Ok(Creator::Contributor(name))
            } else if str_eq(r.as_str(), "editor") {
                Ok(Creator::Editor(name))
            } else if str_eq(r.as_str(), "seriesEditor") {
                Ok(Creator::SeriesEditor(name))
            } else if str_eq(r.as_str(), "translator") {
                Ok(Creator::Translator(name))
            } else {
                Ok(Creator::Raw { role: r, name })
            }
        },
    }
}

/// Decodes a creators array.
fn decode_creators(items: Vec<JsonValue>) -> (res: Result<Vec<Creator>, DecodeError>)
    ensures
        match res {
            Ok(cs) => spec_fold_creators(items@, Seq::empty()) == Ok::<Seq<Creator>, DecodeErrorV>(
                cs@,
            ),
            Err(e) => spec_fold_creators(items@, Seq::empty()) == Err::<Seq<Creator>, DecodeErrorV>(
                err_view(e),
            ),
        },
{
    let ghost full = items@;
    let mut rest = items;
    let mut out: Vec<Creator> = Vec::new();
    proof {
        assert(out@ =~= Seq::<Creator>::empty());
    }
    while rest.len() > 0
        invariant
            full == items@,
            spec_fold_creators(full, Seq::empty()) == spec_fold_creators(rest@, out@),
        decreases rest@.len(),
    {
        let ghost pre = rest@;
        let it = rest.remove(0);
        proof {
            assert(pre.remove(0) =~= pre.drop_first());
        }
        match decode_creator(it) {
            Ok(c) => {
                out.push(c);
            },
            Err(e) => {
                return Err(e);
            },
        }
    }
    Ok(out)
}

/// Decodes an array that must hold only strings.
fn decode_strings(items: Vec<JsonValue>) -> (res: Option<Vec<String>>)
    ensures
        match res {
            Some(ss) => spec_fold_strings(items@, Seq::empty()) == Some(ss@),
            None => spec_fold_strings(items@, Seq::empty()) is None,
        },
{
    let ghost full = items@;
    let mut rest = items;
    let mut out: Vec<String> = Vec::new();
    proof {
        assert(out@ =~= Seq::<String>::empty());
    }
    while rest.len() > 0
        invariant
            full == items@,
            spec_fold_strings(full, Seq::empty()) == spec_fold_strings(rest@, out@),
        decreases rest@.len(),
    {
        let ghost pre = rest@;
        let it = rest.remove(0);
        proof {
            assert(pre.remove(0) =~= pre.drop_first());
        }
        match it {
            JsonValue::Str(s) => {
                out.push(s);
            },
            _ => {
                return None;
            },
        }
    }
    Some(out)
}

/// Decodes a relations object.
fn decode_relations(entries: Vec<(String, JsonValue)>) -> (res: Option<Vec<Relation>>)
    ensures
        match res {
            Some(rs) => spec_fold_relations(entries@, Seq::empty()) == Some(rels_view(rs@)),
            None => spec_fold_relations(entries@, Seq::empty()) is None,
        },
{
    let ghost full = entries@;
    let mut rest = entries;
    let mut out: Vec<Relation> = Vec::new();
    proof {
        assert(rels_view(out@) =~= Seq::<(String, Seq<String>)>::empty());
    }
    while rest.len() > 0
        invariant
            full == entries@,
            spec_fold_relations(full, Seq::empty()) == spec_fold_relations(
                rest@,
                rels_view(out@),
            ),
        decreases rest@.len(),
    {
        let ghost pre = rest@;
        let (p, val) = rest.remove(0);
        proof {
            assert(pre.remove(0) =~= pre.drop_first());
            assert((p, val) == pre[0]);
        }
        let ghost pg = p;
        let ghost prevout = out@;
        match val {
            JsonValue::Str(s) => {
                let ghost svec = seq![s];
                let mut values: Vec<String> = Vec::new();
                values.push(s);
                proof {
                    assert(values@ =~= svec);
                }
                let r = Relation { predicate: p, values };
                out.push(r);
                proof {
                    assert(out@.drop_last() =~= prevout);
                    assert(out@.last().predicate == pg);
                    assert(out@.last().values@ == svec);
                    assert(rels_view(out@) =~= rels_view(prevout).push((pg, svec)));
                    assert(spec_fold_relations(pre, rels_view(prevout))
                        == spec_fold_relations(rest@, rels_view(out@)));
                }
            },
            JsonValue::Arr(items) => {
                let ghost itemsg = items@;
                match decode_strings(items) {
                    Some(vs) => {
                        let ghost vsg = vs@;
                        let r = Relation { predicate: p, values: vs };
                        out.push(r);
                        proof {
                            assert(out@.drop_last() =~= prevout);
                            assert(out@.last().predicate == pg);
                            assert(out@.last().values@ == vsg);
                            assert(rels_view(out@) =~= rels_view(prevout).push((pg, vsg)));
                            assert(spec_fold_relations(pre, rels_view(prevout))
                                == spec_fold_relations(rest@, rels_view(out@)));
                        }
                    },
                    None => {
                        return None;
                    },
                }
            },
            _ => {
                return None;
            },
        }
    }
    Some(out)
}

/// Folds one object member into the workspace.
fn apply_entry(t: ItemType, rec: Record, name: String, v: JsonValue) -> (res: Result<
    Record,
    DecodeError,
>)
    ensures
        res_rec_view(res) == spec_step(t, record_view(rec), name, v),
{
    let mut rec = rec;
    if str_eq(name.as_str(), "itemType") {
        return Ok(rec);
    }
    if str_eq(name.as_str(), "key") {
        match v {
            JsonValue::Str(s) => {
                rec.key = Some(s);
                return Ok(rec);
            },
            _ => {
                return Err(
                    DecodeError::InvalidFieldValue("key".to_owned(), "expected string".to_owned()),
                );
            },
        }
    }
    if str_eq(name.as_str(), "version") {
        match v {
            JsonValue::Str(s) => match parse_u64_dec(s.as_str()) {
                Some(n) => {
                    rec.version = Some(n);
                    return Ok(rec);
                },
                None => {
                    return Err(
                        DecodeError::InvalidFieldValue(
                            "version".to_owned(),
                            "expected a decimal number".to_owned(),
                        ),
                    );
                },
            },
            _ => {
                return Err(
                    DecodeError::InvalidFieldValue(
                        "version".to_owned(),
                        "expected string".to_owned(),
                    ),
                );
            },
        }
    }
    if str_eq(name.as_str(), "libraryId") {
        match v {
            JsonValue::Str(s) => match parse_u64_dec(s.as_str()) {
                Some(n) => {
                    rec.library_id = Some(n);
                    return Ok(rec);
                },
                None => {
                    return Err(
                        DecodeError::InvalidFieldValue(
                            "libraryId".to_owned(),
                            "expected a decimal number".to_owned(),
                        ),
                    );
                },
            },
            _ => {
                return Err(
                    DecodeError::InvalidFieldValue(
                        "libraryId".to_owned(),
                        "expected string".to_owned(),
                    ),
                );
            },
        }
    }
    let f = match field_id_of(name.as_str()) {
        None => {
            rec.common.unknown.push((name, v));
            return Ok(rec);
        },
        Some(f) => f,
    };
    if !crate::registry::in_schema(t, f) {
        rec.common.unknown.push((name, v));
        return Ok(rec);
    }
    match f {
        FieldId::Title => match v {
            JsonValue::Str(s) => {
                rec.title = Some(s);
                Ok(rec)
            },
            _ => Err(text_err_of(f)),
        },
        FieldId::BookTitle => match v {
            JsonValue::Str(s) => {
                rec.book_title = Some(s);
                Ok(rec)
            },
            _ => Err(text_err_of(f)),
        },
        FieldId::ArtworkMedium => match v {
            JsonValue::Str(s) => {
                rec.artwork_medium = Some(s);
                Ok(rec)
            },
            _ => Err(text_err_of(f)),
        },
        FieldId::ArtworkSize => match v {
            JsonValue::Str(s) => {
                rec.artwork_size = Some(s);
                Ok(rec)
            },
            _ => Err(text_err_of(f)),
        },
        FieldId::Series => match v {
            JsonValue::Str(s) => {
                rec.series = Some(s);
                Ok(rec)
            },
            _ => Err(text_err_of(f)),
        },
        FieldId::SeriesNumber => match v {
            JsonValue::Str(s) => {
                rec.series_number = Some(s);
                Ok(rec)
            },
            _ => Err(text_err_of(f)),
        },
        FieldId::Volume => match v {
            JsonValue::Str(s) => {
                rec.volume = Some(s);
                Ok(rec)
            },
            _ => Err(text_err_of(f)),
        },
        FieldId::NumberOfVolumes => match v {
            JsonValue::Str(s) => match parse_u16_dec(s.as_str()) {
                Some(n) => {
                    rec.number_of_volumes = Some(n);
                    Ok(rec)
                },
                None => Err(num_err_of(f)),
            },
            _ => Err(num_err_of(f)),
        },
        FieldId::Edition => match v {
            JsonValue::Str(s) => {
                rec.edition = Some(s);
                Ok(rec)
            },
            _ => Err(text_err_of(f)),
        },
        FieldId::Place => match v {
            JsonValue::Str(s) => {
                rec.place = Some(s);
                Ok(rec)
            },
            _ => Err(text_err_of(f)),
        },
        FieldId::Publisher => match v {
            JsonValue::Str(s) => {
                rec.publisher = Some(s);
                Ok(rec)
            },
            _ => Err(text_err_of(f)),
        },
        FieldId::NumPages => match v {
            JsonValue::Str(s) => match parse_u16_dec(s.as_str()) {
                Some(n) => {
                    rec.num_pages = Some(n);
                    Ok(rec)
                },
                None => Err(num_err_of(f)),
            },
            _ => Err(num_err_of(f)),
        },
        FieldId::Isbn => match v {
            JsonValue::Str(s) => {
                rec.isbn = Some(Isbn(s));
                Ok(rec)
            },
            _ => Err(text_err_of(f)),
        },
        FieldId::AbstractNote => match v {
            JsonValue::Str(s) => {
                rec.common.abstract_note = Some(s);
                Ok(rec)
            },
            _ => Err(text_err_of(f)),
        },
        FieldId::Date => match v {
            JsonValue::Str(s) => {
                rec.common.date = Some(s);
                Ok(rec)
            },
            _ => Err(text_err_of(f)),
        },
        FieldId::Language => match v {
            JsonValue::Str(s) => {
                rec.common.language = Some(s);
                Ok(rec)
            },
            _ => Err(text_err_of(f)),
        },
        FieldId::ShortTitle => match v {
            JsonValue::Str(s) => {
                rec.common.short_title = Some(s);
                Ok(rec)
            },
            _ => Err(text_err_of(f)),
        },
        FieldId::Url => match v {
            JsonValue::Str(s) => {
                rec.common.url = Some(Url(s));
                Ok(rec)
            },
            _ => Err(text_err_of(f)),
        },
        FieldId::AccessDate => match v {
            JsonValue::Str(s) => {
                rec.common.access_date = Some(Date(s));
                Ok(rec)
            },
            _ => Err(text_err_of(f)),
        },
        FieldId::Archive => match v {
            JsonValue::Str(s) => {
                rec.common.archive = Some(s);
                Ok(rec)
            },
            _ => Err(text_err_of(f)),
        },
        FieldId::ArchiveLocation => match v {
            JsonValue::Str(s) => {
                rec.common.archive_location = Some(s);
                Ok(rec)
            },
            _ => Err(text_err_of(f)),
        },
        FieldId::LibraryCatalog => match v {
            JsonValue::Str(s) => {
                rec.common.library_catalog = Some(s);
                Ok(rec)
            },
            _ => Err(text_err_of(f)),
        },
        FieldId::CallNumber => match v {
            JsonValue::Str(s) => {
                rec.common.call_number = Some(s);
                Ok(rec)
            },
            _ => Err(text_err_of(f)),
        },
        FieldId::Rights => match v {
            JsonValue::Str(s) => {
                rec.common.rights = Some(s);
                Ok(rec)
            },
            _ => Err(text_err_of(f)),
        },
        FieldId::Extra => match v {
            JsonValue::Str(s) => {
                rec.common.extra = Some(s);
                Ok(rec)
            },
            _ => Err(text_err_of(f)),
        },
        FieldId::Creators => match v {
            JsonValue::Arr(items) => match decode_creators(items) {
                Ok(cs) => {
                    rec.creators = cs;
                    Ok(rec)
                },
                Err(e) => Err(e),
            },
            _ => Err(
                DecodeError::InvalidFieldValue(
                    "creators".to_owned(),
                    "expected array".to_owned(),
                ),
            ),
        },
        FieldId::Tags => match v {
            JsonValue::Arr(items) => match decode_strings(items) {
                Some(ss) => {
                    rec.common.tags = ss;
                    Ok(rec)
                },
                None => Err(
                    DecodeError::InvalidFieldValue(
                        "tags".to_owned(),
                        "expected an array of strings".to_owned(),
                    ),
                ),
            },
            _ => Err(
                DecodeError::InvalidFieldValue("tags".to_owned(), "expected array".to_owned()),
            ),
        },
        FieldId::Collections => match v {
            JsonValue::Arr(items) => match decode_strings(items) {
                Some(ss) => {
                    let ids = collection_ids(ss);
                    rec.common.collections = ids;
                    Ok(rec)
                },
                None => Err(
                    DecodeError::InvalidFieldValue(
                        "collections".to_owned(),
                        "expected an array of strings".to_owned(),
                    ),
                ),
            },
            _ => Err(
                DecodeError::InvalidFieldValue(
                    "collections".to_owned(),
                    "expected array".to_owned(),
                ),
            ),
        },
        FieldId::Relations => match v {
            JsonValue::Obj(entries) => match decode_relations(entries) {
                Some(rs) => {
                    rec.common.relations = rs;
                    Ok(rec)
                },
                None => Err(
                    DecodeError::InvalidFieldValue(
                        "relations".to_owned(),
                        "expected a string or an array of strings".to_owned(),
                    ),
                ),
            },
            _ => Err(
                DecodeError::InvalidFieldValue(
                    "relations".to_owned(),
                    "expected object".to_owned(),
                ),
            ),
        },
    }
}

/// Wraps each collection key.
fn collection_ids(ss: Vec<String>) -> (r: Vec<CollectionId>)
    ensures
        r@ == ss@.map_values(|s: String| CollectionId(s)),
{
    let ghost full = ss@;
    let mut rest = ss;
    let mut out: Vec<CollectionId> = Vec::new();
    while rest.len() > 0
        invariant
            full =~= out@.map_values(|c: CollectionId| c.0) + rest@,
        decreases rest@.len(),
    {
        let ghost pre = rest@;
        let s = rest.remove(0);
        proof {
            assert(pre.remove(0) =~= pre.drop_first());
        }
        out.push(CollectionId(s));
        proof {
            assert(out@.map_values(|c: CollectionId| c.0) =~= out@.drop_last().map_values(
                |c: CollectionId| c.0,
            ).push(s));
        }
    }
    proof {
        assert(out@.map_values(|c: CollectionId| c.0) =~= full);
        assert(out@ =~= full.map_values(|s: String| CollectionId(s)));
    }
    out
}

/// Scans an object for its type discriminator and resolves it.
fn scan_type(entries: &Vec<(String, JsonValue)>) -> (res: Result<ItemType, DecodeError>)
    ensures
        match res {
            Ok(t) => spec_scan_type(entries@) == Ok::<ItemType, DecodeErrorV>(t),
            Err(e) => spec_scan_type(entries@) == Err::<ItemType, DecodeErrorV>(err_view(e)),
        },
{
    let mut i: usize = 0;
    proof {
        assert(entries@.skip(0) =~= entries@);
    }
    while i < entries.len()
        invariant
            i <= entries@.len(),
            spec_scan_type(entries@.skip(i as int)) == spec_scan_type(entries@),
        decreases entries@.len() - i,
    {
        proof {
            assert(entries@.skip(i as int)[0] == entries@[i as int]);
            assert(entries@.skip(i as int).drop_first() =~= entries@.skip(i + 1));
        }
        let pair = &entries[i];
        if str_eq(pair.0.as_str(), "itemType") {
            match &pair.1 {
                JsonValue::Str(s) => match item_type_from_tag(s.as_str()) {
                    Some(t) => {
                        return Ok(t);
                    },
                    None => {
                        return Err(DecodeError::UnknownItemType);
                    },
                },
                _ => {
                    return Err(
                        DecodeError::InvalidFieldValue(
                            "itemType".to_owned(),
                            "expected string".to_owned(),
                        ),
                    );
                },
            }
        }
        i += 1;
    }
    proof {
        assert(entries@.skip(i as int) =~= Seq::<(String, JsonValue)>::empty());
    }
    Err(DecodeError::MissingRequiredField("itemType".to_owned()))
}

/// Folds all members of an object into a workspace.
fn decode_entries(t: ItemType, entries: Vec<(String, JsonValue)>) -> (res: Result<
    Record,
    DecodeError,
>)
    ensures
        res_rec_view(res) == spec_fold(t, entries@, rec_init()),
{
    let ghost full = entries@;
    let mut rest = entries;
    let mut rec = record_init();
    while rest.len() > 0
        invariant
            full == entries@,
            spec_fold(t, full, rec_init()) == spec_fold(t, rest@, record_view(rec)),
        decreases rest@.len(),
    {
        let ghost pre = rest@;
        let (n, v) = rest.remove(0);
        proof {
            assert(pre.remove(0) =~= pre.drop_first());
            assert((n, v) == pre[0]);
        }
        match apply_entry(t, rec, n, v) {
            Ok(r) => {
                rec = r;
            },
            Err(e) => {
                return Err(e);
            },
        }
    }
    Ok(rec)
}

/// Builds the typed content from the workspace, checking the variant's
/// required fields in registry order.
fn finish_content(t: ItemType, rec: Record) -> (res: Result<Content, DecodeError>)
    ensures
        match spec_missing_content(t, record_view(rec)) {
            Some(n) => match res {
                Err(e) => err_view(e) == DecodeErrorV::MissingRequiredField(n),
                Ok(_) => false,
            },
            None => match res {
                Ok(c) => content_matches(t, record_view(rec), c),
                Err(_) => false,
            },
        },
{
    match t {
        ItemType::Artwork => {
            let title = match rec.title {
                Some(s) => s,
                None => {
                    return Err(DecodeError::MissingRequiredField("title".to_owned()));
                },
            };
            Ok(
                Content::Artwork(
                    ArtworkFields {
                        title,
                        creators: rec.creators,
                        artwork_medium: rec.artwork_medium,
                        artwork_size: rec.artwork_size,
                        common: rec.common,
                    },
                ),
            )
        },
        ItemType::Book => {
            let title = match rec.title {
                Some(s) => s,
                None => {
                    return Err(DecodeError::MissingRequiredField("title".to_owned()));
                },
            };
            let number_of_volumes = match rec.number_of_volumes {
                Some(n) => n,
                None => {
                    return Err(DecodeError::MissingRequiredField("numberOfVolumes".to_owned()));
                },
            };
            Ok(
                Content::Book(
                    BookFields {
                        title,
                        creators: rec.creators,
                        bookish: BookishFields {
                            series: rec.series,
                            series_number: rec.series_number,
                            volume: rec.volume,
                            number_of_volumes,
                            edition: rec.edition,
                            place: rec.place,
                            publisher: rec.publisher,
                            num_pages: rec.num_pages,
                            isbn: rec.isbn,
                        },
                        common: rec.common,
                    },
                ),
            )
        },
        ItemType::BookSection => {
            let title = match rec.title {
                Some(s) => s,
                None => {
                    return Err(DecodeError::MissingRequiredField("title".to_owned()));
                },
            };
            let book_title = match rec.book_title {
                Some(s) => s,
                None => {
                    return Err(DecodeError::MissingRequiredField("bookTitle".to_owned()));
                },
            };
            let number_of_volumes = match rec.number_of_volumes {
                Some(n) => n,
                None => {
                    return Err(DecodeError::MissingRequiredField("numberOfVolumes".to_owned()));
                },
            };
            Ok(
                Content::BookSection(
                    BookSectionFields {
                        title,
                        book_title,
                        creators: rec.creators,
                        bookish: BookishFields {
                            series: rec.series,
                            series_number: rec.series_number,
                            volume: rec.volume,
                            number_of_volumes,
                            edition: rec.edition,
                            place: rec.place,
                            publisher: rec.publisher,
                            num_pages: rec.num_pages,
                            isbn: rec.isbn,
                        },
                        common: rec.common,
                    },
                ),
            )
        },
        ItemType::AudioRecording => Ok(Content::AudioRecording(make_generic(rec))),
        ItemType::Bill => Ok(Content::Bill(make_generic(rec))),
        ItemType::BlogPost => Ok(Content::BlogPost(make_generic(rec))),
        ItemType::Case => Ok(Content::Case(make_generic(rec))),
        ItemType::ComputerProgram => Ok(Content::ComputerProgram(make_generic(rec))),
        ItemType::ConferencePaper => Ok(Content::ConferencePaper(make_generic(rec))),
        ItemType::DictionaryEntry => Ok(Content::DictionaryEntry(make_generic(rec))),
        ItemType::Document => Ok(Content::Document(make_generic(rec))),
        ItemType::Email => Ok(Content::Email(make_generic(rec))),
        ItemType::EncyclopediaArticle => Ok(Content::EncyclopediaArticle(make_generic(rec))),
        ItemType::Film => Ok(Content::Film(make_generic(rec))),
        ItemType::ForumPost => Ok(Content::ForumPost(make_generic(rec))),
        ItemType::Hearing => Ok(Content::Hearing(make_generic(rec))),
        ItemType::InstantMessage => Ok(Content::InstantMessage(make_generic(rec))),
        ItemType::Interview => Ok(Content::Interview(make_generic(rec))),
        ItemType::JournalArticle => Ok(Content::JournalArticle(make_generic(rec))),
        ItemType::Letter => Ok(Content::Letter(make_generic(rec))),
        ItemType::MagazineArticle => Ok(Content::MagazineArticle(make_generic(rec))),
        ItemType::Manuscript => Ok(Content::Manuscript(make_generic(rec))),
        ItemType::MapItem => Ok(Content::MapItem(make_generic(rec))),
        ItemType::NewspaperArticle => Ok(Content::NewspaperArticle(make_generic(rec))),
        ItemType::Note => Ok(Content::Note(make_generic(rec))),
        ItemType::Patent => Ok(Content::Patent(make_generic(rec))),
        ItemType::Podcast => Ok(Content::Podcast(make_generic(rec))),
        ItemType::Presentation => Ok(Content::Presentation(make_generic(rec))),
        ItemType::RadioBroadcast => Ok(Content::RadioBroadcast(make_generic(rec))),
        ItemType::Report => Ok(Content::Report(make_generic(rec))),
        ItemType::Statute => Ok(Content::Statute(make_generic(rec))),
        ItemType::TvBroadcast => Ok(Content::TvBroadcast(make_generic(rec))),
        ItemType::Thesis => Ok(Content::Thesis(make_generic(rec))),
        ItemType::VideoRecording => Ok(Content::VideoRecording(make_generic(rec))),
        ItemType::Webpage => Ok(Content::Webpage(make_generic(rec))),
    }
}

/// Builds the shared-fields payload for the schema-less variants.
fn make_generic(rec: Record) -> (g: GenericFields)
    ensures
        generic_matches(record_view(rec), g),
{
    GenericFields { title: rec.title, creators: rec.creators, common: rec.common }
}

/// Decodes one JSON object into an item's content alone: the variant is
/// selected by the `itemType` discriminator, the variant's schema fields
/// are coerced, unknown fields are preserved in the pocket, and the
/// variant's required fields must be present. Envelope members (`key`,
/// `version`, `libraryId`) are accepted and ignored here.
pub fn decode_content(v: JsonValue) -> (res: Result<Content, DecodeError>)
    ensures
        match spec_decode_rec(v) {
            Err(e) => match res {
                Err(a) => err_view(a) == e,
                Ok(_) => false,
            },
            Ok(p) => match spec_missing_content(p.0, p.1) {
                Some(n) => match res {
                    Err(a) => err_view(a) == DecodeErrorV::MissingRequiredField(n),
                    Ok(_) => false,
                },
                None => match res {
                    Ok(c) => content_matches(p.0, p.1, c),
                    Err(_) => false,
                },
            },
        },
{
    match v {
        JsonValue::Obj(entries) => {
            proof {
                assert(v == JsonValue::Obj(entries));
            }
            let t = match scan_type(&entries) {
                Ok(t) => t,
                Err(e) => {
                    return Err(e);
                },
            };
            match decode_entries(t, entries) {
                Ok(rec) => finish_content(t, rec),
                Err(e) => Err(e),
            }
        },
        _ => Err(DecodeError::InvalidFieldValue("item".to_owned(), "expected object".to_owned())),
    }
}

/// Decodes one JSON object into a full item: the content as in
/// [`decode_content`], plus the `key`, `version` and `libraryId` envelope
/// members, each required and checked in that order before the variant's
/// own required fields.
pub fn decode_item(v: JsonValue) -> (res: Result<Item, DecodeError>)
    ensures
        match spec_decode_rec(v) {
            Err(e) => match res {
                Err(a) => err_view(a) == e,
                Ok(_) => false,
            },
            Ok(p) => match spec_missing_item(p.1) {
                Some(n) => match res {
                    Err(a) => err_view(a) == DecodeErrorV::MissingRequiredField(n),
                    Ok(_) => false,
                },
                None => match spec_missing_content(p.0, p.1) {
                    Some(n) => match res {
                        Err(a) => err_view(a) == DecodeErrorV::MissingRequiredField(n),
                        Ok(_) => false,
                    },
                    None => match res {
                        Ok(it) => {
                            &&& p.1.key == Some(it.key)
                            &&& p.1.version == Some(it.version)
                            &&& p.1.library_id == Some(it.library_id)
                            &&& content_matches(p.0, p.1, it.content)
                        },
                        Err(_) => false,
                    },
                },
            },
        },
{
    match v {
        JsonValue::Obj(entries) => {
            proof {
                assert(v == JsonValue::Obj(entries));
            }
            let t = match scan_type(&entries) {
                Ok(t) => t,
                Err(e) => {
                    return Err(e);
                },
            };
            match decode_entries(t, entries) {
                Ok(rec) => finish_item(t, rec),
                Err(e) => Err(e),
            }
        },
        _ => Err(DecodeError::InvalidFieldValue("item".to_owned(), "expected object".to_owned())),
    }
}

/// Builds the full item from the workspace: envelope members first, then
/// the content.
fn finish_item(t: ItemType, rec: Record) -> (res: Result<Item, DecodeError>)
    ensures
        match spec_missing_item(record_view(rec)) {
            Some(n) => match res {
                Err(e) => err_view(e) == DecodeErrorV::MissingRequiredField(n),
                Ok(_) => false,
            },
            None => match spec_missing_content(t, record_view(rec)) {
                Some(n) => match res {
                    Err(e) => err_view(e) == DecodeErrorV::MissingRequiredField(n),
                    Ok(_) => false,
                },
                None => match res {
                    Ok(it) => {
                        &&& record_view(rec).key == Some(it.key)
                        &&& record_view(rec).version == Some(it.version)
                        &&& record_view(rec).library_id == Some(it.library_id)
                        &&& content_matches(t, record_view(rec), it.content)
                    },
                    Err(_) => false,
                },
            },
        },
{
    let mut rec = rec;
    let key = match rec.key {
        Some(k) => k,
        None => {
            return Err(DecodeError::MissingRequiredField("key".to_owned()));
        },
    };
    rec.key = None;
    let version = match rec.version {
        Some(n) => n,
        None => {
            return Err(DecodeError::MissingRequiredField("version".to_owned()));
        },
    };
    let library_id = match rec.library_id {
        Some(n) => n,
        None => {
            return Err(DecodeError::MissingRequiredField("libraryId".to_owned()));
        },
    };
    match finish_content(t, rec) {
        Ok(content) => Ok(Item { key, version, library_id, content }),
        Err(e) => Err(e),
    }
}

} // verus!
