//! The executable encoder, the decoder's inverse. Every encoder's
//! contract is the round-trip law itself: it promises that the decode
//! specification, applied to the object it builds, yields the encoded
//! value back exactly — fields, creators, and the unknown-fields pocket
//! included.

use vstd::prelude::*;
use vstd::string::StringExecFns;
use crate::json::JsonValue;
use crate::model::{Creator, Name, CollectionId, Relation, ItemType, Content, Item, CommonFields,
    ArtworkFields, BookFields, BookSectionFields, GenericFields, BookishFields, wf_creator,
    spec_content_type};
use crate::registry::{FieldId, FieldKind, field_name, type_tag, spec_field_name, spec_field_id_of,
    spec_reserved, spec_in_schema, spec_kind, spec_type_tag, spec_item_type_from_tag};
use crate::digits::{u16_to_dec, u64_to_dec, spec_dec_str, lemma_parse_of_dec_u16,
    lemma_parse_of_dec_u64};
use crate::codec::{DecodeErrorV, RecordV, rec_init, CreatorAcc, creator_acc_init,
    spec_creator_step, spec_fold_creator, spec_finish_creator, spec_decode_creator,
    spec_fold_creators, spec_fold_strings, spec_fold_relations, spec_decode_strings, spec_step,
    spec_fold, spec_scan_type, spec_decode_rec, spec_missing_content, spec_missing_item,
    rels_view, content_matches, generic_matches, wf_creators, wf_unknown, wf_content, wf_item,
    spec_creators_of, spec_unknown_of, spec_common_of};

verus! {

broadcast use vstd::string::group_string_axioms;

/// A modeled field's wire name is never a reserved envelope member, and
/// the registry resolves it back to the field.
pub proof fn lemma_registry_names(f: FieldId)
    ensures
        !spec_reserved(spec_field_name(f)),
        spec_field_id_of(spec_field_name(f)) == Some(f),
{
    reveal_strlit("itemType");
    reveal_strlit("key");
    reveal_strlit("version");
    reveal_strlit("libraryId");
    reveal_strlit("title");
    reveal_strlit("bookTitle");
    reveal_strlit("creators");
    reveal_strlit("abstractNote");
    reveal_strlit("artworkMedium");
    reveal_strlit("artworkSize");
    reveal_strlit("series");
    reveal_strlit("seriesNumber");
    reveal_strlit("volume");
    reveal_strlit("numberOfVolumes");
    reveal_strlit("edition");
    reveal_strlit("place");
    reveal_strlit("publisher");
    reveal_strlit("numPages");
    reveal_strlit("ISBN");
    reveal_strlit("date");
    reveal_strlit("language");
    reveal_strlit("shortTitle");
    reveal_strlit("url");
    reveal_strlit("accessDate");
    reveal_strlit("archive");
    reveal_strlit("archiveLocation");
    reveal_strlit("libraryCatalog");
    reveal_strlit("callNumber");
    reveal_strlit("rights");
    reveal_strlit("extra");
    reveal_strlit("tags");
    reveal_strlit("collections");
    reveal_strlit("relations");
    assert("itemType"@.len() == 8);
    assert("itemType"@[0] == 'i');
    assert("key"@.len() == 3);
    assert("key"@[0] == 'k');
    assert("version"@.len() == 7);
    assert("version"@[0] == 'v');
    assert("libraryId"@.len() == 9);
    assert("libraryId"@[0] == 'l');
    assert("title"@.len() == 5);
    assert("title"@[0] == 't');
    assert("bookTitle"@.len() == 9);
    assert("bookTitle"@[0] == 'b');
    assert("creators"@.len() == 8);
    assert("creators"@[0] == 'c');
    assert("abstractNote"@.len() == 12);
    assert("abstractNote"@[0] == 'a');
    assert("artworkMedium"@.len() == 13);
    assert("artworkMedium"@[0] == 'a');
    assert("artworkSize"@.len() == 11);
    assert("artworkSize"@[0] == 'a');
    assert("series"@.len() == 6);
    assert("series"@[0] == 's');
    assert("seriesNumber"@.len() == 12);
    assert("seriesNumber"@[0] == 's');
    assert("volume"@.len() == 6);
    assert("volume"@[0] == 'v');
    assert("numberOfVolumes"@.len() == 15);
    assert("numberOfVolumes"@[0] == 'n');
    assert("edition"@.len() == 7);
    assert("edition"@[0] == 'e');
    assert("place"@.len() == 5);
    assert("place"@[0] == 'p');
    assert("publisher"@.len() == 9);
    assert("publisher"@[0] == 'p');
    assert("numPages"@.len() == 8);
    assert("numPages"@[0] == 'n');
    assert("ISBN"@.len() == 4);
    assert("ISBN"@[0] == 'I');
    assert("date"@.len() == 4);
    assert("date"@[0] == 'd');
    assert("language"@.len() == 8);
    assert("language"@[0] == 'l');
    assert("shortTitle"@.len() == 10);
    assert("shortTitle"@[0] == 's');
    assert("url"@.len() == 3);
    assert("url"@[0] == 'u');
    assert("accessDate"@.len() == 10);
    assert("accessDate"@[0] == 'a');
    assert("archive"@.len() == 7);
    assert("archive"@[0] == 'a');
    assert("archiveLocation"@.len() == 15);
    assert("archiveLocation"@[0] == 'a');
    assert("libraryCatalog"@.len() == 14);
    assert("libraryCatalog"@[0] == 'l');
    assert("callNumber"@.len() == 10);
    assert("callNumber"@[0] == 'c');
    assert("rights"@.len() == 6);
    assert("rights"@[0] == 'r');
    assert("extra"@.len() == 5);
    assert("extra"@[0] == 'e');
    assert("tags"@.len() == 4);
    assert("tags"@[0] == 't');
    assert("collections"@.len() == 11);
    assert("collections"@[0] == 'c');
    assert("relations"@.len() == 9);
    assert("relations"@[0] == 'r');
    match f {
        FieldId::Title => {},
        FieldId::BookTitle => {},
        FieldId::Creators => {},
        FieldId::AbstractNote => {},
        FieldId::ArtworkMedium => {},
        FieldId::ArtworkSize => {},
        FieldId::Series => {},
        FieldId::SeriesNumber => {},
        FieldId::Volume => {},
        FieldId::NumberOfVolumes => {},
        FieldId::Edition => {},
        FieldId::Place => {},
        FieldId::Publisher => {},
        FieldId::NumPages => {},
        FieldId::Isbn => {},
        FieldId::Date => {},
        FieldId::Language => {},
        FieldId::ShortTitle => {},
        FieldId::Url => {},
        FieldId::AccessDate => {},
        FieldId::Archive => {},
        FieldId::ArchiveLocation => {},
        FieldId::LibraryCatalog => {},
        FieldId::CallNumber => {},
        FieldId::Rights => {},
        FieldId::Extra => {},
        FieldId::Tags => {},
        FieldId::Collections => {},
        FieldId::Relations => {},
    }
}

/// Folding one more member is one more step.
proof fn lemma_fold_snoc(t: ItemType, s: Seq<(String, JsonValue)>, e: (String, JsonValue),
    acc: RecordV)
    ensures
        spec_fold(t, s.push(e), acc) == (match spec_fold(t, s, acc) {
            Ok(m) => spec_step(t, m, e.0, e.1),
            Err(er) => Err(er),
        }),
    decreases s.len(),
{
    if s.len() == 0 {
        assert(s.push(e)[0] == e);
        assert(s.push(e).drop_first() =~= Seq::<(String, JsonValue)>::empty());
        match spec_step(t, acc, e.0, e.1) {
            Ok(m) => {
                assert(spec_fold(t, Seq::<(String, JsonValue)>::empty(), m)
                    == Ok::<RecordV, DecodeErrorV>(m));
            },
            Err(_) => {},
        }
    } else {
        assert(s.push(e)[0] == s[0]);
        assert(s.push(e).drop_first() =~= s.drop_first().push(e));
        match spec_step(t, acc, s[0].0, s[0].1) {
            Ok(a) => {
                lemma_fold_snoc(t, s.drop_first(), e, a);
            },
            Err(_) => {},
        }
    }
}

/// The discriminator scan ignores appended members once it has resolved.
proof fn lemma_scan_snoc(s: Seq<(String, JsonValue)>, e: (String, JsonValue))
    requires
        spec_scan_type(s) is Ok,
    ensures
        spec_scan_type(s.push(e)) == spec_scan_type(s),
    decreases s.len(),
{
    assert(s.len() > 0);
    assert(s.push(e)[0] == s[0]);
    if s[0].0@ == "itemType"@ {
    } else {
        assert(s.push(e).drop_first() =~= s.drop_first().push(e));
        lemma_scan_snoc(s.drop_first(), e);
    }
}

/// Folding one more creator array entry is one more decode.
proof fn lemma_fold_creators_snoc(items: Seq<JsonValue>, x: JsonValue, acc: Seq<Creator>)
    ensures
        spec_fold_creators(items.push(x), acc) == (match spec_fold_creators(items, acc) {
            Ok(s) => match spec_decode_creator(x) {
                Ok(c) => Ok::<Seq<Creator>, DecodeErrorV>(s.push(c)),
                Err(e) => Err(e),
            },
            Err(e) => Err(e),
        }),
    decreases items.len(),
{
    if items.len() == 0 {
        assert(items.push(x)[0] == x);
        assert(items.push(x).drop_first() =~= Seq::<JsonValue>::empty());
        match spec_decode_creator(x) {
            Ok(c) => {
                assert(spec_fold_creators(Seq::<JsonValue>::empty(), acc.push(c))
                    == Ok::<Seq<Creator>, DecodeErrorV>(acc.push(c)));
            },
            Err(_) => {},
        }
    } else {
        assert(items.push(x)[0] == items[0]);
        assert(items.push(x).drop_first() =~= items.drop_first().push(x));
        match spec_decode_creator(items[0]) {
            Ok(c) => {
                lemma_fold_creators_snoc(items.drop_first(), x, acc.push(c));
            },
            Err(_) => {},
        }
    }
}

/// Folding one more string array entry is one more check.
proof fn lemma_fold_strings_snoc(items: Seq<JsonValue>, x: JsonValue, acc: Seq<String>)
    ensures
        spec_fold_strings(items.push(x), acc) == (match spec_fold_strings(items, acc) {
            Some(s) => match x {
                JsonValue::Str(t) => Some(s.push(t)),
                _ => None::<Seq<String>>,
            },
            None => None::<Seq<String>>,
        }),
    decreases items.len(),
{
    if items.len() == 0 {
        assert(items.push(x)[0] == x);
        assert(items.push(x).drop_first() =~= Seq::<JsonValue>::empty());
        match x {
            JsonValue::Str(tt) => {
                assert(spec_fold_strings(Seq::<JsonValue>::empty(), acc.push(tt))
                    == Some(acc.push(tt)));
            },
            _ => {},
        }
    } else {
        assert(items.push(x)[0] == items[0]);
        assert(items.push(x).drop_first() =~= items.drop_first().push(x));
        match items[0] {
            JsonValue::Str(t) => {
                lemma_fold_strings_snoc(items.drop_first(), x, acc.push(t));
            },
            _ => {},
        }
    }
}

/// Folding one more relation member is one more check.
proof fn lemma_fold_relations_snoc(
    entries: Seq<(String, JsonValue)>,
    e: (String, JsonValue),
    acc: Seq<(String, Seq<String>)>,
)
    ensures
        spec_fold_relations(entries.push(e), acc) == (match spec_fold_relations(entries, acc) {
            Some(s) => match e.1 {
                JsonValue::Str(t) => Some(s.push((e.0, seq![t]))),
                JsonValue::Arr(items) => match spec_decode_strings(items@) {
                    Some(vs) => Some(s.push((e.0, vs))),
                    None => None::<Seq<(String, Seq<String>)>>,
                },
                _ => None::<Seq<(String, Seq<String>)>>,
            },
            None => None::<Seq<(String, Seq<String>)>>,
        }),
    decreases entries.len(),
{
    if entries.len() == 0 {
        assert(entries.push(e)[0] == e);
        assert(entries.push(e).drop_first() =~= Seq::<(String, JsonValue)>::empty());
        match e.1 {
            JsonValue::Str(tt) => {
                assert(spec_fold_relations(
                    Seq::<(String, JsonValue)>::empty(),
                    acc.push((e.0, seq![tt])),
                ) == Some(acc.push((e.0, seq![tt]))));
            },
            JsonValue::Arr(items) => {
                match spec_decode_strings(items@) {
                    Some(vs) => {
                        assert(spec_fold_relations(
                            Seq::<(String, JsonValue)>::empty(),
                            acc.push((e.0, vs)),
                        ) == Some(acc.push((e.0, vs))));
                    },
                    None => {},
                }
            },
            _ => {},
        }
    } else {
        assert(entries.push(e)[0] == entries[0]);
        assert(entries.push(e).drop_first() =~= entries.drop_first().push(e));
        match entries[0].1 {
            JsonValue::Str(t) => {
                lemma_fold_relations_snoc(entries.drop_first(), e, acc.push((entries[0].0, seq![t])));
            },
            JsonValue::Arr(items) => {
                match spec_decode_strings(items@) {
                    Some(vs) => {
                        lemma_fold_relations_snoc(entries.drop_first(), e, acc.push((entries[0].0, vs)));
                    },
                    None => {},
                }
            },
            _ => {},
        }
    }
}

/// Every registered wire tag resolves back to its item type.
pub proof fn lemma_tag_round_trip(t: ItemType)
    ensures
        spec_item_type_from_tag(spec_type_tag(t)) == Some(t),
{
    reveal_strlit("artwork");
    reveal_strlit("audioRecording");
    reveal_strlit("bill");
    reveal_strlit("blogPost");
    reveal_strlit("book");
    reveal_strlit("bookSection");
    reveal_strlit("case");
    reveal_strlit("computerProgram");
    reveal_strlit("conferencePaper");
    reveal_strlit("dictionaryEntry");
    reveal_strlit("document");
    reveal_strlit("email");
    reveal_strlit("encyclopediaArticle");
    reveal_strlit("film");
    reveal_strlit("forumPost");
    reveal_strlit("hearing");
    reveal_strlit("instantMessage");
    reveal_strlit("interview");
    reveal_strlit("journalArticle");
    reveal_strlit("letter");
    reveal_strlit("magazineArticle");
    reveal_strlit("manuscript");
    reveal_strlit("map");
    reveal_strlit("newspaperArticle");
    reveal_strlit("note");
    reveal_strlit("patent");
    reveal_strlit("podcast");
    reveal_strlit("presentation");
    reveal_strlit("radioBroadcast");
    reveal_strlit("report");
    reveal_strlit("statute");
    reveal_strlit("tvBroadcast");
    reveal_strlit("thesis");
    reveal_strlit("videoRecording");
    reveal_strlit("webpage");
    assert("artwork"@.len() == 7);
    assert("artwork"@[0] == 'a');
    assert("artwork"@[1] == 'r');
    assert("artwork"@[2] == 't');
    assert("audioRecording"@.len() == 14);
    assert("audioRecording"@[0] == 'a');
    assert("audioRecording"@[1] == 'u');
    assert("audioRecording"@[2] == 'd');
    assert("bill"@.len() == 4);
    assert("bill"@[0] == 'b');
    assert("bill"@[1] == 'i');
    assert("bill"@[2] == 'l');
    assert("blogPost"@.len() == 8);
    assert("blogPost"@[0] == 'b');
    assert("blogPost"@[1] == 'l');
    assert("blogPost"@[2] == 'o');
    assert("book"@.len() == 4);
    assert("book"@[0] == 'b');
    assert("book"@[1] == 'o');
    assert("book"@[2] == 'o');
    assert("bookSection"@.len() == 11);
    assert("bookSection"@[0] == 'b');
    assert("bookSection"@[1] == 'o');
    assert("bookSection"@[2] == 'o');
    assert("case"@.len() == 4);
    assert("case"@[0] == 'c');
    assert("case"@[1] == 'a');
    assert("case"@[2] == 's');
    assert("computerProgram"@.len() == 15);
    assert("computerProgram"@[0] == 'c');
    assert("computerProgram"@[1] == 'o');
    assert("computerProgram"@[2] == 'm');
    assert("conferencePaper"@.len() == 15);
    assert("conferencePaper"@[0] == 'c');
    assert("conferencePaper"@[1] == 'o');
    assert("conferencePaper"@[2] == 'n');
    assert("dictionaryEntry"@.len() == 15);
    assert("dictionaryEntry"@[0] == 'd');
    assert("dictionaryEntry"@[1] == 'i');
    assert("dictionaryEntry"@[2] == 'c');
    assert("document"@.len() == 8);
    assert("document"@[0] == 'd');
    assert("document"@[1] == 'o');
    assert("document"@[2] == 'c');
    assert("email"@.len() == 5);
    assert("email"@[0] == 'e');
    assert("email"@[1] == 'm');
    assert("email"@[2] == 'a');
    assert("encyclopediaArticle"@.len() == 19);
    assert("encyclopediaArticle"@[0] == 'e');
    assert("encyclopediaArticle"@[1] == 'n');
    assert("encyclopediaArticle"@[2] == 'c');
    assert("film"@.len() == 4);
    assert("film"@[0] == 'f');
    assert("film"@[1] == 'i');
    assert("film"@[2] == 'l');
    assert("forumPost"@.len() == 9);
    assert("forumPost"@[0] == 'f');
    assert("forumPost"@[1] == 'o');
    assert("forumPost"@[2] == 'r');
    assert("hearing"@.len() == 7);
    assert("hearing"@[0] == 'h');
    assert("hearing"@[1] == 'e');
    assert("hearing"@[2] == 'a');
    assert("instantMessage"@.len() == 14);
    assert("instantMessage"@[0] == 'i');
    assert("instantMessage"@[1] == 'n');
    assert("instantMessage"@[2] == 's');
    assert("interview"@.len() == 9);
    assert("interview"@[0] == 'i');
    assert("interview"@[1] == 'n');
    assert("interview"@[2] == 't');
    assert("journalArticle"@.len() == 14);
    assert("journalArticle"@[0] == 'j');
    assert("journalArticle"@[1] == 'o');
    assert("journalArticle"@[2] == 'u');
    assert("letter"@.len() == 6);
    assert("letter"@[0] == 'l');
    assert("letter"@[1] == 'e');
    assert("letter"@[2] == 't');
    assert("magazineArticle"@.len() == 15);
    assert("magazineArticle"@[0] == 'm');
    assert("magazineArticle"@[1] == 'a');
    assert("magazineArticle"@[2] == 'g');
    assert("manuscript"@.len() == 10);
    assert("manuscript"@[0] == 'm');
    assert("manuscript"@[1] == 'a');
    assert("manuscript"@[2] == 'n');
    assert("map"@.len() == 3);
    assert("map"@[0] == 'm');
    assert("map"@[1] == 'a');
    assert("map"@[2] == 'p');
    assert("newspaperArticle"@.len() == 16);
    assert("newspaperArticle"@[0] == 'n');
    assert("newspaperArticle"@[1] == 'e');
    assert("newspaperArticle"@[2] == 'w');
    assert("note"@.len() == 4);
    assert("note"@[0] == 'n');
    assert("note"@[1] == 'o');
    assert("note"@[2] == 't');
    assert("patent"@.len() == 6);
    assert("patent"@[0] == 'p');
    assert("patent"@[1] == 'a');
    assert("patent"@[2] == 't');
    assert("podcast"@.len() == 7);
    assert("podcast"@[0] == 'p');
    assert("podcast"@[1] == 'o');
    assert("podcast"@[2] == 'd');
    assert("presentation"@.len() == 12);
    assert("presentation"@[0] == 'p');
    assert("presentation"@[1] == 'r');
    assert("presentation"@[2] == 'e');
    assert("radioBroadcast"@.len() == 14);
    assert("radioBroadcast"@[0] == 'r');
    assert("radioBroadcast"@[1] == 'a');
    assert("radioBroadcast"@[2] == 'd');
    assert("report"@.len() == 6);
    assert("report"@[0] == 'r');
    assert("report"@[1] == 'e');
    assert("report"@[2] == 'p');
    assert("statute"@.len() == 7);
    assert("statute"@[0] == 's');
    assert("statute"@[1] == 't');
    assert("statute"@[2] == 'a');
    assert("tvBroadcast"@.len() == 11);
    assert("tvBroadcast"@[0] == 't');
    assert("tvBroadcast"@[1] == 'v');
    assert("tvBroadcast"@[2] == 'B');
    assert("thesis"@.len() == 6);
    assert("thesis"@[0] == 't');
    assert("thesis"@[1] == 'h');
    assert("thesis"@[2] == 'e');
    assert("videoRecording"@.len() == 14);
    assert("videoRecording"@[0] == 'v');
    assert("videoRecording"@[1] == 'i');
    assert("videoRecording"@[2] == 'd');
    assert("webpage"@.len() == 7);
    assert("webpage"@[0] == 'w');
    assert("webpage"@[1] == 'e');
    assert("webpage"@[2] == 'b');
    match t {
        ItemType::Artwork => {},
        ItemType::AudioRecording => {},
        ItemType::Bill => {},
        ItemType::BlogPost => {},
        ItemType::Book => {},
        ItemType::BookSection => {},
        ItemType::Case => {},
        ItemType::ComputerProgram => {},
        ItemType::ConferencePaper => {},
        ItemType::DictionaryEntry => {},
        ItemType::Document => {},
        ItemType::Email => {},
        ItemType::EncyclopediaArticle => {},
        ItemType::Film => {},
        ItemType::ForumPost => {},
        ItemType::Hearing => {},
        ItemType::InstantMessage => {},
        ItemType::Interview => {},
        ItemType::JournalArticle => {},
        ItemType::Letter => {},
        ItemType::MagazineArticle => {},
        ItemType::Manuscript => {},
        ItemType::MapItem => {},
        ItemType::NewspaperArticle => {},
        ItemType::Note => {},
        ItemType::Patent => {},
        ItemType::Podcast => {},
        ItemType::Presentation => {},
        ItemType::RadioBroadcast => {},
        ItemType::Report => {},
        ItemType::Statute => {},
        ItemType::TvBroadcast => {},
        ItemType::Thesis => {},
        ItemType::VideoRecording => {},
        ItemType::Webpage => {},
    }
}

/// A text slot of the workspace, set by field.
pub open spec fn set_text_slot(acc: RecordV, f: FieldId, s: String) -> RecordV {
    match f {
        FieldId::Title => RecordV { title: Some(s), ..acc },
        FieldId::BookTitle => RecordV { book_title: Some(s), ..acc },
        FieldId::ArtworkMedium => RecordV { artwork_medium: Some(s), ..acc },
        FieldId::ArtworkSize => RecordV { artwork_size: Some(s), ..acc },
        FieldId::Series => RecordV { series: Some(s), ..acc },
        FieldId::SeriesNumber => RecordV { series_number: Some(s), ..acc },
        FieldId::Volume => RecordV { volume: Some(s), ..acc },
        FieldId::Edition => RecordV { edition: Some(s), ..acc },
        FieldId::Place => RecordV { place: Some(s), ..acc },
        FieldId::Publisher => RecordV { publisher: Some(s), ..acc },
        FieldId::Isbn => RecordV { isbn: Some(crate::model::Isbn(s)), ..acc },
        FieldId::AbstractNote => RecordV { abstract_note: Some(s), ..acc },
        FieldId::Date => RecordV { date: Some(s), ..acc },
        FieldId::Language => RecordV { language: Some(s), ..acc },
        FieldId::ShortTitle => RecordV { short_title: Some(s), ..acc },
        FieldId::Url => RecordV { url: Some(crate::model::Url(s)), ..acc },
        FieldId::AccessDate => RecordV { access_date: Some(crate::model::Date(s)), ..acc },
        FieldId::Archive => RecordV { archive: Some(s), ..acc },
        FieldId::ArchiveLocation => RecordV { archive_location: Some(s), ..acc },
        FieldId::LibraryCatalog => RecordV { library_catalog: Some(s), ..acc },
        FieldId::CallNumber => RecordV { call_number: Some(s), ..acc },
        FieldId::Rights => RecordV { rights: Some(s), ..acc },
        FieldId::Extra => RecordV { extra: Some(s), ..acc },
        _ => acc,
    }
}

/// A numeric slot of the workspace, set by field.
pub open spec fn set_num_slot(acc: RecordV, f: FieldId, n: u16) -> RecordV {
    match f {
        FieldId::NumberOfVolumes => RecordV { number_of_volumes: Some(n), ..acc },
        FieldId::NumPages => RecordV { num_pages: Some(n), ..acc },
        _ => acc,
    }
}

/// Appends one text field member.
fn push_text(
    entries: &mut Vec<(String, JsonValue)>,
    f: FieldId,
    value: String,
    Ghost(t): Ghost<ItemType>,
    Ghost(acc): Ghost<RecordV>,
) -> (newacc: Ghost<RecordV>)
    requires
        spec_fold(t, old(entries)@, rec_init()) == Ok::<RecordV, DecodeErrorV>(acc),
        spec_in_schema(t, f),
        spec_kind(f) == FieldKind::Text,
    ensures
        spec_fold(t, final(entries)@, rec_init()) == Ok::<RecordV, DecodeErrorV>(newacc@),
        newacc@ == set_text_slot(acc, f, value),
        final(entries)@.len() == old(entries)@.len() + 1,
        final(entries)@.drop_last() == old(entries)@,
        final(entries)@.last().0@ == spec_field_name(f),
        final(entries)@.len() >= old(entries)@.len(),
        forall|i: int| 0 <= i < old(entries)@.len() ==> final(entries)@[i] == old(entries)@[i],
    decreases 0int,
{
    let ghost prev = entries@;
    let name = field_name(f).to_owned();
    entries.push((name, JsonValue::Str(value)));
    proof {
        lemma_registry_names(f);
        lemma_fold_snoc(t, prev, entries@.last(), rec_init());
        assert(entries@.drop_last() =~= prev);
    }
    Ghost(set_text_slot(acc, f, value))
}

/// Appends one numeric field member as its canonical decimal string.
fn push_num(
    entries: &mut Vec<(String, JsonValue)>,
    f: FieldId,
    value: u16,
    Ghost(t): Ghost<ItemType>,
    Ghost(acc): Ghost<RecordV>,
) -> (newacc: Ghost<RecordV>)
    requires
        spec_fold(t, old(entries)@, rec_init()) == Ok::<RecordV, DecodeErrorV>(acc),
        spec_in_schema(t, f),
        spec_kind(f) == FieldKind::Number,
    ensures
        spec_fold(t, final(entries)@, rec_init()) == Ok::<RecordV, DecodeErrorV>(newacc@),
        newacc@ == set_num_slot(acc, f, value),
        final(entries)@.len() == old(entries)@.len() + 1,
        final(entries)@.drop_last() == old(entries)@,
        final(entries)@.last().0@ == spec_field_name(f),
        final(entries)@.len() >= old(entries)@.len(),
        forall|i: int| 0 <= i < old(entries)@.len() ==> final(entries)@[i] == old(entries)@[i],
{
    let ghost prev = entries@;
    let name = field_name(f).to_owned();
    let s = u16_to_dec(value);
    entries.push((name, JsonValue::Str(s)));
    proof {
        lemma_registry_names(f);
        lemma_parse_of_dec_u16(value);
        lemma_fold_snoc(t, prev, entries@.last(), rec_init());
        assert(entries@.drop_last() =~= prev);
    }
    Ghost(set_num_slot(acc, f, value))
}

/// Encodes one creator as its wire object.
fn encode_creator(c: Creator) -> (v: JsonValue)
    requires
        wf_creator(c),
    ensures
        spec_decode_creator(v) == Ok::<Creator, DecodeErrorV>(c),
{
    let (role, name): (String, Name) = match c {
        Creator::Author(n) => ("author".to_owned(), n),
        Creator::Contributor(n) => ("contributor".to_owned(), n),
        Creator::Editor(n) => ("editor".to_owned(), n),
        Creator::SeriesEditor(n) => ("seriesEditor".to_owned(), n),
        Creator::Translator(n) => ("translator".to_owned(), n),
        Creator::Raw { role, name } => (role, name),
    };
    let ghost role_g = role;
    let mut entries: Vec<(String, JsonValue)> = Vec::new();
    entries.push(("creatorType".to_owned(), JsonValue::Str(role)));
    let ghost acc0 = creator_acc_init();
    let ghost acc1 = CreatorAcc { role: Some(role_g), ..acc0 };
    proof {
        reveal_strlit("creatorType");
        reveal_strlit("firstName");
        reveal_strlit("lastName");
        reveal_strlit("name");
        reveal_strlit("author");
        reveal_strlit("contributor");
        reveal_strlit("editor");
        reveal_strlit("seriesEditor");
        reveal_strlit("translator");
        assert("creatorType"@.len() == 11);
        assert("firstName"@.len() == 9);
        assert("lastName"@.len() == 8);
        assert("name"@.len() == 4);
        assert("author"@.len() == 6);
        assert("author"@[0] == 'a');
        assert("contributor"@.len() == 11);
        assert("contributor"@[0] == 'c');
        assert("editor"@.len() == 6);
        assert("editor"@[0] == 'e');
        assert("seriesEditor"@.len() == 12);
        assert("seriesEditor"@[0] == 's');
        assert("translator"@.len() == 10);
        assert("translator"@[0] == 't');
        assert(entries@.drop_first() =~= Seq::<(String, JsonValue)>::empty());
        assert(spec_creator_step(acc0, entries@[0].0, entries@[0].1)
            == Ok::<CreatorAcc, DecodeErrorV>(acc1));
        assert(spec_fold_creator(Seq::<(String, JsonValue)>::empty(), acc1)
            == Ok::<CreatorAcc, DecodeErrorV>(acc1));
        assert(spec_fold_creator(entries@, acc0) == Ok::<CreatorAcc, DecodeErrorV>(acc1));
    }
    let ghost mut accn = acc1;
    match name {
        Name::Merged(m) => {
            let ghost prev = entries@;
            let ghost mg = m;
            entries.push(("name".to_owned(), JsonValue::Str(m)));
            proof {
                reveal_strlit("creatorType");
                reveal_strlit("firstName");
                reveal_strlit("lastName");
                reveal_strlit("name");
                assert("creatorType"@.len() == 11);
                assert("firstName"@.len() == 9);
                assert("lastName"@.len() == 8);
                assert("name"@.len() == 4);
                lemma_fold_creator_snoc(prev, entries@.last(), acc0);
                assert(entries@.drop_last() =~= prev);
                accn = CreatorAcc { merged: Some(mg), ..acc1 };
                assert(spec_creator_step(acc1, entries@.last().0, entries@.last().1)
                    == Ok::<CreatorAcc, DecodeErrorV>(accn));
                assert(spec_fold_creator(entries@, acc0) == Ok::<CreatorAcc, DecodeErrorV>(accn));
            }
        },
        Name::Split { first, last } => {
            match first {
                Some(fst) => {
                    let ghost prev = entries@;
                    let ghost fg = fst;
                    let ghost before = accn;
                    entries.push(("firstName".to_owned(), JsonValue::Str(fst)));
                    proof {
                        reveal_strlit("creatorType");
                        reveal_strlit("firstName");
                        reveal_strlit("lastName");
                        reveal_strlit("name");
                        assert("creatorType"@.len() == 11);
                        assert("firstName"@.len() == 9);
                        assert("lastName"@.len() == 8);
                        assert("name"@.len() == 4);
                        lemma_fold_creator_snoc(prev, entries@.last(), acc0);
                        assert(entries@.drop_last() =~= prev);
                        accn = CreatorAcc { first: Some(fg), ..before };
                        assert(spec_creator_step(before, entries@.last().0, entries@.last().1)
                            == Ok::<CreatorAcc, DecodeErrorV>(accn));
                        assert(spec_fold_creator(entries@, acc0)
                            == Ok::<CreatorAcc, DecodeErrorV>(accn));
                    }
                },
                None => {},
            }
            match last {
                Some(lst) => {
                    let ghost prev = entries@;
                    let ghost lg = lst;
                    let ghost before = accn;
                    entries.push(("lastName".to_owned(), JsonValue::Str(lst)));
                    proof {
                        reveal_strlit("creatorType");
                        reveal_strlit("firstName");
                        reveal_strlit("lastName");
                        reveal_strlit("name");
                        assert("creatorType"@.len() == 11);
                        assert("firstName"@.len() == 9);
                        assert("lastName"@.len() == 8);
                        assert("name"@.len() == 4);
                        lemma_fold_creator_snoc(prev, entries@.last(), acc0);
                        assert(entries@.drop_last() =~= prev);
                        accn = CreatorAcc { last: Some(lg), ..before };
                        assert(spec_creator_step(before, entries@.last().0, entries@.last().1)
                            == Ok::<CreatorAcc, DecodeErrorV>(accn));
                        assert(spec_fold_creator(entries@, acc0)
                            == Ok::<CreatorAcc, DecodeErrorV>(accn));
                    }
                },
                None => {},
            }
        },
    }
    let v = JsonValue::Obj(entries);
    proof {
        reveal_strlit("creatorType");
        reveal_strlit("firstName");
        reveal_strlit("lastName");
        reveal_strlit("name");
        reveal_strlit("author");
        reveal_strlit("contributor");
        reveal_strlit("editor");
        reveal_strlit("seriesEditor");
        reveal_strlit("translator");
        assert("creatorType"@.len() == 11);
        assert("firstName"@.len() == 9);
        assert("lastName"@.len() == 8);
        assert("name"@.len() == 4);
        assert("author"@.len() == 6);
        assert("author"@[0] == 'a');
        assert("contributor"@.len() == 11);
        assert("contributor"@[0] == 'c');
        assert("editor"@.len() == 6);
        assert("editor"@[0] == 'e');
        assert("seriesEditor"@.len() == 12);
        assert("seriesEditor"@[0] == 's');
        assert("translator"@.len() == 10);
        assert("translator"@[0] == 't');
        assert(spec_fold_creator(entries@, acc0) == Ok::<CreatorAcc, DecodeErrorV>(accn));
        assert(spec_finish_creator(accn) == Ok::<Creator, DecodeErrorV>(c));
    }
    v
}

/// Folding one more creator object member is one more step.
proof fn lemma_fold_creator_snoc(s: Seq<(String, JsonValue)>, e: (String, JsonValue),
    acc: CreatorAcc)
    ensures
        spec_fold_creator(s.push(e), acc) == (match spec_fold_creator(s, acc) {
            Ok(m) => spec_creator_step(m, e.0, e.1),
            Err(er) => Err(er),
        }),
    decreases s.len(),
{
    if s.len() == 0 {
        assert(s.push(e)[0] == e);
        assert(s.push(e).drop_first() =~= Seq::<(String, JsonValue)>::empty());
        match spec_creator_step(acc, e.0, e.1) {
            Ok(m) => {
                assert(spec_fold_creator(Seq::<(String, JsonValue)>::empty(), m)
                    == Ok::<CreatorAcc, DecodeErrorV>(m));
            },
            Err(_) => {},
        }
    } else {
        assert(s.push(e)[0] == s[0]);
        assert(s.push(e).drop_first() =~= s.drop_first().push(e));
        match spec_creator_step(acc, s[0].0, s[0].1) {
            Ok(a) => {
                lemma_fold_creator_snoc(s.drop_first(), e, a);
            },
            Err(_) => {},
        }
    }
}

/// Encodes a creator list as its wire array.
fn encode_creators(cs: Vec<Creator>) -> (arr: Vec<JsonValue>)
    requires
        wf_creators(cs@),
    ensures
        spec_fold_creators(arr@, Seq::empty()) == Ok::<Seq<Creator>, DecodeErrorV>(cs@),
{
    let ghost full = cs@;
    let mut rest = cs;
    let mut arr: Vec<JsonValue> = Vec::new();
    let ghost mut done: Seq<Creator> = Seq::empty();
    proof {
        assert(arr@ =~= Seq::<JsonValue>::empty());
    }
    while rest.len() > 0
        invariant
            wf_creators(rest@),
            full =~= done + rest@,
            spec_fold_creators(arr@, Seq::empty()) == Ok::<Seq<Creator>, DecodeErrorV>(done),
        decreases rest@.len(),
    {
        let ghost pre = rest@;
        let c = rest.remove(0);
        proof {
            assert(pre.remove(0) =~= pre.drop_first());
            assert(wf_creator(c));
        }
        let ghost prevarr = arr@;
        let v = encode_creator(c);
        arr.push(v);
        proof {
            lemma_fold_creators_snoc(prevarr, v, Seq::empty());
            assert(arr@.drop_last() =~= prevarr);
            done = done.push(c);
            assert(full =~= done + rest@);
        }
    }
    proof {
        assert(done =~= full);
    }
    arr
}

/// Encodes a string list as its wire array.
fn encode_strings(ss: Vec<String>) -> (arr: Vec<JsonValue>)
    ensures
        spec_fold_strings(arr@, Seq::empty()) == Some(ss@),
{
    let ghost full = ss@;
    let mut rest = ss;
    let mut arr: Vec<JsonValue> = Vec::new();
    let ghost mut done: Seq<String> = Seq::empty();
    proof {
        assert(arr@ =~= Seq::<JsonValue>::empty());
    }
    while rest.len() > 0
        invariant
            full =~= done + rest@,
            spec_fold_strings(arr@, Seq::empty()) == Some(done),
        decreases rest@.len(),
    {
        let ghost pre = rest@;
        let s = rest.remove(0);
        proof {
            assert(pre.remove(0) =~= pre.drop_first());
        }
        let ghost prevarr = arr@;
        let ghost sg = s;
        arr.push(JsonValue::Str(s));
        proof {
            lemma_fold_strings_snoc(prevarr, JsonValue::Str(sg), Seq::empty());
            assert(arr@.drop_last() =~= prevarr);
            done = done.push(sg);
            assert(full =~= done + rest@);
        }
    }
    proof {
        assert(done =~= full);
    }
    arr
}

/// Encodes a collection list as its wire array of keys.
fn encode_collections(cs: Vec<CollectionId>) -> (arr: Vec<JsonValue>)
    ensures
        (spec_fold_strings(arr@, Seq::empty()) matches Some(ss) && ss.map_values(
            |s: String| CollectionId(s),
        ) == cs@),
{
    let ghost full = cs@;
    let mut rest = cs;
    let mut keys: Vec<String> = Vec::new();
    while rest.len() > 0
        invariant
            full =~= keys@.map_values(|s: String| CollectionId(s)) + rest@,
        decreases rest@.len(),
    {
        let ghost pre = rest@;
        let c = rest.remove(0);
        proof {
            assert(pre.remove(0) =~= pre.drop_first());
        }
        let CollectionId(k) = c;
        keys.push(k);
        proof {
            assert(keys@.map_values(|s: String| CollectionId(s)) =~= keys@.drop_last().map_values(
                |s: String| CollectionId(s),
            ).push(c));
            assert(full =~= keys@.map_values(|s: String| CollectionId(s)) + rest@);
        }
    }
    let ghost ks = keys@;
    let arr = encode_strings(keys);
    proof {
        assert(ks.map_values(|s: String| CollectionId(s)) =~= full);
    }
    arr
}

/// Encodes a relation list as its wire object; every value list becomes
/// an array.
fn encode_relations(rs: Vec<Relation>) -> (out: Vec<(String, JsonValue)>)
    ensures
        spec_fold_relations(out@, Seq::empty()) == Some(rels_view(rs@)),
{
    let ghost full = rels_view(rs@);
    let mut rest = rs;
    let mut out: Vec<(String, JsonValue)> = Vec::new();
    let ghost mut done: Seq<(String, Seq<String>)> = Seq::empty();
    proof {
        assert(out@ =~= Seq::<(String, JsonValue)>::empty());
        assert(full =~= done + rels_view(rest@));
    }
    while rest.len() > 0
        invariant
            full =~= done + rels_view(rest@),
            spec_fold_relations(out@, Seq::empty()) == Some(done),
        decreases rest@.len(),
    {
        let ghost pre = rest@;
        let r = rest.remove(0);
        proof {
            assert(pre.remove(0) =~= pre.drop_first());
            assert(rels_view(pre)[0] == (r.predicate, r.values@));
            assert(rels_view(pre.drop_first()) =~= rels_view(pre).drop_first());
        }
        let Relation { predicate, values } = r;
        let ghost vg = values@;
        let arr = encode_strings(values);
        let ghost prevout = out@;
        let e = (predicate, JsonValue::Arr(arr));
        out.push(e);
        proof {
            lemma_fold_relations_snoc(prevout, out@.last(), Seq::empty());
            assert(out@.drop_last() =~= prevout);
            done = done.push((out@.last().0, vg));
            assert(full =~= done + rels_view(rest@));
        }
    }
    proof {
        assert(done =~= full);
    }
    out
}

/// Appends the creator list member when the list is not empty.
fn push_creators(
    entries: &mut Vec<(String, JsonValue)>,
    cs: Vec<Creator>,
    Ghost(t): Ghost<ItemType>,
    Ghost(acc): Ghost<RecordV>,
) -> (newacc: Ghost<RecordV>)
    requires
        spec_fold(t, old(entries)@, rec_init()) == Ok::<RecordV, DecodeErrorV>(acc),
        wf_creators(cs@),
        acc.creators == Seq::<Creator>::empty(),
    ensures
        spec_fold(t, final(entries)@, rec_init()) == Ok::<RecordV, DecodeErrorV>(newacc@),
        newacc@ == (RecordV { creators: cs@, ..acc }),
        final(entries)@.len() >= old(entries)@.len(),
        forall|i: int| 0 <= i < old(entries)@.len() ==> final(entries)@[i] == old(entries)@[i],
{
    if cs.len() == 0 {
        proof {
            assert(RecordV { creators: cs@, ..acc } == acc) by {
                assert(cs@ =~= Seq::<Creator>::empty());
            }
        }
        return Ghost(acc);
    }
    let ghost prev = entries@;
    let ghost csg = cs@;
    let arr = encode_creators(cs);
    entries.push(("creators".to_owned(), JsonValue::Arr(arr)));
    proof {
        lemma_registry_names(FieldId::Creators);
        lemma_fold_snoc(t, prev, entries@.last(), rec_init());
        assert(entries@.drop_last() =~= prev);
    }
    Ghost(RecordV { creators: csg, ..acc })
}

/// Appends one optional text field member: nothing when it is absent.
fn push_text_opt(
    entries: &mut Vec<(String, JsonValue)>,
    f: FieldId,
    value: Option<String>,
    Ghost(t): Ghost<ItemType>,
    Ghost(acc): Ghost<RecordV>,
) -> (newacc: Ghost<RecordV>)
    requires
        spec_fold(t, old(entries)@, rec_init()) == Ok::<RecordV, DecodeErrorV>(acc),
        spec_in_schema(t, f),
        spec_kind(f) == FieldKind::Text,
    ensures
        spec_fold(t, final(entries)@, rec_init()) == Ok::<RecordV, DecodeErrorV>(newacc@),
        newacc@ == (match value {
            Some(s) => set_text_slot(acc, f, s),
            None => acc,
        }),
        final(entries)@.len() >= old(entries)@.len(),
        forall|i: int| 0 <= i < old(entries)@.len() ==> final(entries)@[i] == old(entries)@[i],
{
    match value {
        Some(x) => push_text(entries, f, x, Ghost(t), Ghost(acc)),
        None => Ghost(acc),
    }
}

/// Appends the tag list member when the list is not empty.
fn push_tags(
    entries: &mut Vec<(String, JsonValue)>,
    tags: Vec<String>,
    Ghost(t): Ghost<ItemType>,
    Ghost(acc): Ghost<RecordV>,
) -> (newacc: Ghost<RecordV>)
    requires
        spec_fold(t, old(entries)@, rec_init()) == Ok::<RecordV, DecodeErrorV>(acc),
        acc.tags == Seq::<String>::empty(),
    ensures
        spec_fold(t, final(entries)@, rec_init()) == Ok::<RecordV, DecodeErrorV>(newacc@),
        newacc@ == (RecordV { tags: tags@, ..acc }),
        final(entries)@.len() >= old(entries)@.len(),
        forall|i: int| 0 <= i < old(entries)@.len() ==> final(entries)@[i] == old(entries)@[i],
{
    if tags.len() == 0 {
        proof {
            assert(RecordV { tags: tags@, ..acc } == acc) by {
                assert(tags@ =~= Seq::<String>::empty());
            }
        }
        return Ghost(acc);
    }
    let ghost prev = entries@;
    let ghost tg = tags@;
    let arr = encode_strings(tags);
    entries.push(("tags".to_owned(), JsonValue::Arr(arr)));
    proof {
        lemma_registry_names(FieldId::Tags);
        lemma_fold_snoc(t, prev, entries@.last(), rec_init());
        assert(entries@.drop_last() =~= prev);
    }
    Ghost(RecordV { tags: tg, ..acc })
}

/// Appends the collection list member when the list is not empty.
fn push_collections(
    entries: &mut Vec<(String, JsonValue)>,
    collections: Vec<CollectionId>,
    Ghost(t): Ghost<ItemType>,
    Ghost(acc): Ghost<RecordV>,
) -> (newacc: Ghost<RecordV>)
    requires
        spec_fold(t, old(entries)@, rec_init()) == Ok::<RecordV, DecodeErrorV>(acc),
        acc.collections == Seq::<CollectionId>::empty(),
    ensures
        spec_fold(t, final(entries)@, rec_init()) == Ok::<RecordV, DecodeErrorV>(newacc@),
        newacc@ == (RecordV { collections: collections@, ..acc }),
        final(entries)@.len() >= old(entries)@.len(),
        forall|i: int| 0 <= i < old(entries)@.len() ==> final(entries)@[i] == old(entries)@[i],
{
    if collections.len() == 0 {
        proof {
            assert(RecordV { collections: collections@, ..acc } == acc) by {
                assert(collections@ =~= Seq::<CollectionId>::empty());
            }
        }
        return Ghost(acc);
    }
    let ghost prev = entries@;
    let ghost cg = collections@;
    let arr = encode_collections(collections);
    entries.push(("collections".to_owned(), JsonValue::Arr(arr)));
    proof {
        lemma_registry_names(FieldId::Collections);
        lemma_fold_snoc(t, prev, entries@.last(), rec_init());
        assert(entries@.drop_last() =~= prev);
    }
    Ghost(RecordV { collections: cg, ..acc })
}

/// Appends the relations member when the list is not empty.
fn push_relations(
    entries: &mut Vec<(String, JsonValue)>,
    relations: Vec<Relation>,
    Ghost(t): Ghost<ItemType>,
    Ghost(acc): Ghost<RecordV>,
) -> (newacc: Ghost<RecordV>)
    requires
        spec_fold(t, old(entries)@, rec_init()) == Ok::<RecordV, DecodeErrorV>(acc),
        acc.relations == Seq::<(String, Seq<String>)>::empty(),
    ensures
        spec_fold(t, final(entries)@, rec_init()) == Ok::<RecordV, DecodeErrorV>(newacc@),
        newacc@ == (RecordV { relations: rels_view(relations@), ..acc }),
        final(entries)@.len() >= old(entries)@.len(),
        forall|i: int| 0 <= i < old(entries)@.len() ==> final(entries)@[i] == old(entries)@[i],
{
    if relations.len() == 0 {
        proof {
            assert(RecordV { relations: rels_view(relations@), ..acc } == acc) by {
                assert(rels_view(relations@) =~= Seq::<(String, Seq<String>)>::empty());
            }
        }
        return Ghost(acc);
    }
    let ghost prev = entries@;
    let ghost rg = rels_view(relations@);
    let obj = encode_relations(relations);
    entries.push(("relations".to_owned(), JsonValue::Obj(obj)));
    proof {
        lemma_registry_names(FieldId::Relations);
        lemma_fold_snoc(t, prev, entries@.last(), rec_init());
        assert(entries@.drop_last() =~= prev);
    }
    Ghost(RecordV { relations: rg, ..acc })
}

/// Appends the unknown-fields pocket verbatim.
fn push_pocket(
    entries: &mut Vec<(String, JsonValue)>,
    unknown: Vec<(String, JsonValue)>,
    Ghost(t): Ghost<ItemType>,
    Ghost(acc): Ghost<RecordV>,
) -> (newacc: Ghost<RecordV>)
    requires
        spec_fold(t, old(entries)@, rec_init()) == Ok::<RecordV, DecodeErrorV>(acc),
        wf_unknown(t, unknown@),
        acc.unknown == Seq::<(String, JsonValue)>::empty(),
    ensures
        spec_fold(t, final(entries)@, rec_init()) == Ok::<RecordV, DecodeErrorV>(newacc@),
        newacc@ == (RecordV { unknown: unknown@, ..acc }),
        final(entries)@.len() >= old(entries)@.len(),
        forall|i: int| 0 <= i < old(entries)@.len() ==> final(entries)@[i] == old(entries)@[i],
{
    let ghost pocket = unknown@;
    let mut rest = unknown;
    let ghost mut donep: Seq<(String, JsonValue)> = Seq::empty();
    while rest.len() > 0
        invariant
            pocket == unknown@,
            pocket =~= donep + rest@,
            wf_unknown(t, rest@),
            entries@.len() >= old(entries)@.len(),
            forall|i: int| 0 <= i < old(entries)@.len() ==> entries@[i] == old(entries)@[i],
            spec_fold(t, entries@, rec_init()) == Ok::<RecordV, DecodeErrorV>(
                RecordV { unknown: acc.unknown + donep, ..acc },
            ),
        decreases rest@.len(),
    {
        let ghost pre = rest@;
        let (n, v) = rest.remove(0);
        proof {
            assert(pre.remove(0) =~= pre.drop_first());
            assert((n, v) == pre[0]);
        }
        let ghost prev = entries@;
        entries.push((n, v));
        proof {
            lemma_fold_snoc(t, prev, entries@.last(), rec_init());
            assert(entries@.drop_last() =~= prev);
            donep = donep.push(entries@.last());
            assert(pocket =~= donep + rest@);
            assert((RecordV { unknown: acc.unknown + donep.drop_last(), ..acc }).unknown.push(
                entries@.last(),
            ) =~= acc.unknown + donep);
        }
    }
    proof {
        assert(donep =~= pocket);
        assert(acc.unknown + pocket =~= pocket);
    }
    Ghost(RecordV { unknown: pocket, ..acc })
}

/// Appends the shared optional fields, the collections, the relations
/// and the pocket.
#[verifier::rlimit(100)]
fn push_common(
    entries: &mut Vec<(String, JsonValue)>,
    cf: CommonFields,
    Ghost(t): Ghost<ItemType>,
    Ghost(acc): Ghost<RecordV>,
) -> (newacc: Ghost<RecordV>)
    requires
        spec_fold(t, old(entries)@, rec_init()) == Ok::<RecordV, DecodeErrorV>(acc),
        wf_unknown(t, cf.unknown@),
        acc.abstract_note is None,
        acc.date is None,
        acc.language is None,
        acc.short_title is None,
        acc.archive is None,
        acc.archive_location is None,
        acc.library_catalog is None,
        acc.call_number is None,
        acc.url is None,
        acc.access_date is None,
        acc.rights is None,
        acc.extra is None,
        acc.tags == Seq::<String>::empty(),
        acc.collections == Seq::<CollectionId>::empty(),
        acc.relations == Seq::<(String, Seq<String>)>::empty(),
        acc.unknown == Seq::<(String, JsonValue)>::empty(),
    ensures
        spec_fold(t, final(entries)@, rec_init()) == Ok::<RecordV, DecodeErrorV>(newacc@),
        newacc@ == (RecordV {
            abstract_note: cf.abstract_note,
            date: cf.date,
            language: cf.language,
            short_title: cf.short_title,
            archive: cf.archive,
            archive_location: cf.archive_location,
            library_catalog: cf.library_catalog,
            call_number: cf.call_number,
            url: cf.url,
            access_date: cf.access_date,
            rights: cf.rights,
            extra: cf.extra,
            tags: cf.tags@,
            collections: cf.collections@,
            relations: rels_view(cf.relations@),
            unknown: cf.unknown@,
            ..acc
        }),
        final(entries)@.len() >= old(entries)@.len(),
        forall|i: int| 0 <= i < old(entries)@.len() ==> final(entries)@[i] == old(entries)@[i],
{
    let CommonFields {
        abstract_note,
        date,
        language,
        short_title,
        archive,
        archive_location,
        library_catalog,
        call_number,
        url,
        access_date,
        rights,
        extra,
        tags,
        collections,
        relations,
        unknown,
    } = cf;
    let g1 = push_text_opt(entries, FieldId::AbstractNote, abstract_note, Ghost(t), Ghost(acc));
    let g2 = push_text_opt(entries, FieldId::Date, date, Ghost(t), g1);
    let g3 = push_text_opt(entries, FieldId::Language, language, Ghost(t), g2);
    let g4 = push_text_opt(entries, FieldId::ShortTitle, short_title, Ghost(t), g3);
    let url_text = match url {
        Some(u) => {
            let crate::model::Url(x) = u;
            Some(x)
        },
        None => None,
    };
    let g5 = push_text_opt(entries, FieldId::Url, url_text, Ghost(t), g4);
    let access_text = match access_date {
        Some(d) => {
            let crate::model::Date(x) = d;
            Some(x)
        },
        None => None,
    };
    let g6 = push_text_opt(entries, FieldId::AccessDate, access_text, Ghost(t), g5);
    let g7 = push_text_opt(entries, FieldId::Archive, archive, Ghost(t), g6);
    let g8 = push_text_opt(entries, FieldId::ArchiveLocation, archive_location, Ghost(t), g7);
    let g9 = push_text_opt(entries, FieldId::LibraryCatalog, library_catalog, Ghost(t), g8);
    let g10 = push_text_opt(entries, FieldId::CallNumber, call_number, Ghost(t), g9);
    let g11 = push_text_opt(entries, FieldId::Rights, rights, Ghost(t), g10);
    let g12 = push_text_opt(entries, FieldId::Extra, extra, Ghost(t), g11);
    let g13 = push_tags(entries, tags, Ghost(t), g12);
    let g14 = push_collections(entries, collections, Ghost(t), g13);
    let g15 = push_relations(entries, relations, Ghost(t), g14);
    let g16 = push_pocket(entries, unknown, Ghost(t), g15);
    g16
}

/// Starts an encoded object: the discriminator member alone.
fn start_object(t: ItemType) -> (entries: Vec<(String, JsonValue)>)
    ensures
        spec_fold(t, entries@, rec_init()) == Ok::<RecordV, DecodeErrorV>(rec_init()),
        spec_scan_type(entries@) == Ok::<ItemType, DecodeErrorV>(t),
        entries@.len() == 1,
        entries@[0].0@ == "itemType"@,
        (entries@[0].1 matches JsonValue::Str(s) && s@ == spec_type_tag(t)),
{
    let tag = type_tag(t).to_owned();
    let mut entries: Vec<(String, JsonValue)> = Vec::new();
    entries.push(("itemType".to_owned(), JsonValue::Str(tag)));
    proof {
        reveal_strlit("itemType");
        lemma_tag_round_trip(t);
        assert(entries@.drop_first() =~= Seq::<(String, JsonValue)>::empty());
        assert(spec_step(t, rec_init(), entries@[0].0, entries@[0].1)
            == Ok::<RecordV, DecodeErrorV>(rec_init()));
        assert(spec_fold(t, Seq::<(String, JsonValue)>::empty(), rec_init())
            == Ok::<RecordV, DecodeErrorV>(rec_init()));
    }
    entries
}


/// The envelope member names are pairwise distinct.
proof fn lemma_envelope_names()
    ensures
        "key"@ != "itemType"@,
        "version"@ != "itemType"@,
        "version"@ != "key"@,
        "libraryId"@ != "itemType"@,
        "libraryId"@ != "key"@,
        "libraryId"@ != "version"@,
{
    reveal_strlit("itemType");
    reveal_strlit("key");
    reveal_strlit("version");
    reveal_strlit("libraryId");
    assert("itemType"@.len() == 8);
    assert("key"@.len() == 3);
    assert("version"@.len() == 7);
    assert("libraryId"@.len() == 9);
}

/// Builds the member list of an encoded content object: the
/// discriminator first, then the variant's fields, the shared fields,
/// and the pocket.
#[verifier::rlimit(100)]
fn content_entries(c: Content) -> (entries: Vec<(String, JsonValue)>)
    requires
        wf_content(c),
    ensures
        spec_scan_type(entries@) == Ok::<ItemType, DecodeErrorV>(spec_content_type(c)),
        (spec_fold(spec_content_type(c), entries@, rec_init()) matches Ok(rec) && {
            &&& spec_missing_content(spec_content_type(c), rec) is None
            &&& content_matches(spec_content_type(c), rec, c)
            &&& rec.key is None
            &&& rec.version is None
            &&& rec.library_id is None
        }),
{
    match c {
        Content::Artwork(a) => encode_artwork(a),
        Content::Book(b) => encode_book(b),
        Content::BookSection(b) => encode_book_section(b),
        Content::AudioRecording(g) => encode_generic(ItemType::AudioRecording, g),
        Content::Bill(g) => encode_generic(ItemType::Bill, g),
        Content::BlogPost(g) => encode_generic(ItemType::BlogPost, g),
        Content::Case(g) => encode_generic(ItemType::Case, g),
        Content::ComputerProgram(g) => encode_generic(ItemType::ComputerProgram, g),
        Content::ConferencePaper(g) => encode_generic(ItemType::ConferencePaper, g),
        Content::DictionaryEntry(g) => encode_generic(ItemType::DictionaryEntry, g),
        Content::Document(g) => encode_generic(ItemType::Document, g),
        Content::Email(g) => encode_generic(ItemType::Email, g),
        Content::EncyclopediaArticle(g) => encode_generic(ItemType::EncyclopediaArticle, g),
        Content::Film(g) => encode_generic(ItemType::Film, g),
        Content::ForumPost(g) => encode_generic(ItemType::ForumPost, g),
        Content::Hearing(g) => encode_generic(ItemType::Hearing, g),
        Content::InstantMessage(g) => encode_generic(ItemType::InstantMessage, g),
        Content::Interview(g) => encode_generic(ItemType::Interview, g),
        Content::JournalArticle(g) => encode_generic(ItemType::JournalArticle, g),
        Content::Letter(g) => encode_generic(ItemType::Letter, g),
        Content::MagazineArticle(g) => encode_generic(ItemType::MagazineArticle, g),
        Content::Manuscript(g) => encode_generic(ItemType::Manuscript, g),
        Content::MapItem(g) => encode_generic(ItemType::MapItem, g),
        Content::NewspaperArticle(g) => encode_generic(ItemType::NewspaperArticle, g),
        Content::Note(g) => encode_generic(ItemType::Note, g),
        Content::Patent(g) => encode_generic(ItemType::Patent, g),
        Content::Podcast(g) => encode_generic(ItemType::Podcast, g),
        Content::Presentation(g) => encode_generic(ItemType::Presentation, g),
        Content::RadioBroadcast(g) => encode_generic(ItemType::RadioBroadcast, g),
        Content::Report(g) => encode_generic(ItemType::Report, g),
        Content::Statute(g) => encode_generic(ItemType::Statute, g),
        Content::TvBroadcast(g) => encode_generic(ItemType::TvBroadcast, g),
        Content::Thesis(g) => encode_generic(ItemType::Thesis, g),
        Content::VideoRecording(g) => encode_generic(ItemType::VideoRecording, g),
        Content::Webpage(g) => encode_generic(ItemType::Webpage, g),
    }
}

/// Encodes an Artwork payload's members.
#[verifier::rlimit(100)]
fn encode_artwork(a: ArtworkFields) -> (entries: Vec<(String, JsonValue)>)
    requires
        wf_creators(a.creators@),
        wf_unknown(ItemType::Artwork, a.common.unknown@),
    ensures
        spec_scan_type(entries@) == Ok::<ItemType, DecodeErrorV>(ItemType::Artwork),
        (spec_fold(ItemType::Artwork, entries@, rec_init()) matches Ok(rec) && {
            &&& spec_missing_content(ItemType::Artwork, rec) is None
            &&& content_matches(ItemType::Artwork, rec, Content::Artwork(a))
            &&& rec.key is None
            &&& rec.version is None
            &&& rec.library_id is None
        }),
{
    let ghost t = ItemType::Artwork;
    let ArtworkFields { title, creators, artwork_medium, artwork_size, common } = a;
    let mut entries = start_object(ItemType::Artwork);
    let g1 = push_text(&mut entries, FieldId::Title, title, Ghost(t), Ghost(rec_init()));
    let g2 = push_creators(&mut entries, creators, Ghost(t), g1);
    let g3 = push_text_opt(&mut entries, FieldId::ArtworkMedium, artwork_medium, Ghost(t), g2);
    let g4 = push_text_opt(&mut entries, FieldId::ArtworkSize, artwork_size, Ghost(t), g3);
    let g5 = push_common(&mut entries, common, Ghost(t), g4);
    proof {
        assert(spec_scan_type(entries@) == Ok::<ItemType, DecodeErrorV>(t));
    }
    entries
}

/// Encodes a Book payload's members.
#[verifier::rlimit(100)]
fn encode_book(b: BookFields) -> (entries: Vec<(String, JsonValue)>)
    requires
        wf_creators(b.creators@),
        wf_unknown(ItemType::Book, b.common.unknown@),
    ensures
        spec_scan_type(entries@) == Ok::<ItemType, DecodeErrorV>(ItemType::Book),
        (spec_fold(ItemType::Book, entries@, rec_init()) matches Ok(rec) && {
            &&& spec_missing_content(ItemType::Book, rec) is None
            &&& content_matches(ItemType::Book, rec, Content::Book(b))
            &&& rec.key is None
            &&& rec.version is None
            &&& rec.library_id is None
        }),
{
    let ghost t = ItemType::Book;
    let BookFields { title, creators, bookish, common } = b;
    let mut entries = start_object(ItemType::Book);
    let g1 = push_text(&mut entries, FieldId::Title, title, Ghost(t), Ghost(rec_init()));
    let g2 = push_creators(&mut entries, creators, Ghost(t), g1);
    let g3 = push_bookish(&mut entries, bookish, Ghost(t), g2);
    let g4 = push_common(&mut entries, common, Ghost(t), g3);
    proof {
        assert(spec_scan_type(entries@) == Ok::<ItemType, DecodeErrorV>(t));
    }
    entries
}

/// Encodes a BookSection payload's members.
#[verifier::rlimit(100)]
fn encode_book_section(b: BookSectionFields) -> (entries: Vec<(String, JsonValue)>)
    requires
        wf_creators(b.creators@),
        wf_unknown(ItemType::BookSection, b.common.unknown@),
    ensures
        spec_scan_type(entries@) == Ok::<ItemType, DecodeErrorV>(ItemType::BookSection),
        (spec_fold(ItemType::BookSection, entries@, rec_init()) matches Ok(rec) && {
            &&& spec_missing_content(ItemType::BookSection, rec) is None
            &&& content_matches(ItemType::BookSection, rec, Content::BookSection(b))
            &&& rec.key is None
            &&& rec.version is None
            &&& rec.library_id is None
        }),
{
    let ghost t = ItemType::BookSection;
    let BookSectionFields { title, book_title, creators, bookish, common } = b;
    let mut entries = start_object(ItemType::BookSection);
    let g1 = push_text(&mut entries, FieldId::Title, title, Ghost(t), Ghost(rec_init()));
    let g2 = push_text(&mut entries, FieldId::BookTitle, book_title, Ghost(t), g1);
    let g3 = push_creators(&mut entries, creators, Ghost(t), g2);
    let g4 = push_bookish(&mut entries, bookish, Ghost(t), g3);
    let g5 = push_common(&mut entries, common, Ghost(t), g4);
    proof {
        assert(spec_scan_type(entries@) == Ok::<ItemType, DecodeErrorV>(t));
    }
    entries
}

/// Appends the book-specific field group.
#[verifier::rlimit(100)]
fn push_bookish(
    entries: &mut Vec<(String, JsonValue)>,
    b: BookishFields,
    Ghost(t): Ghost<ItemType>,
    Ghost(acc): Ghost<RecordV>,
) -> (newacc: Ghost<RecordV>)
    requires
        spec_fold(t, old(entries)@, rec_init()) == Ok::<RecordV, DecodeErrorV>(acc),
        t == ItemType::Book || t == ItemType::BookSection,
        acc.series is None,
        acc.series_number is None,
        acc.volume is None,
        acc.edition is None,
        acc.place is None,
        acc.publisher is None,
        acc.num_pages is None,
        acc.isbn is None,
    ensures
        spec_fold(t, final(entries)@, rec_init()) == Ok::<RecordV, DecodeErrorV>(newacc@),
        newacc@ == (RecordV {
            series: b.series,
            series_number: b.series_number,
            volume: b.volume,
            number_of_volumes: Some(b.number_of_volumes),
            edition: b.edition,
            place: b.place,
            publisher: b.publisher,
            num_pages: b.num_pages,
            isbn: b.isbn,
            ..acc
        }),
        final(entries)@.len() >= old(entries)@.len(),
        forall|i: int| 0 <= i < old(entries)@.len() ==> final(entries)@[i] == old(entries)@[i],
{
    let BookishFields {
        series,
        series_number,
        volume,
        number_of_volumes,
        edition,
        place,
        publisher,
        num_pages,
        isbn,
    } = b;
    let g1 = push_text_opt(entries, FieldId::Series, series, Ghost(t), Ghost(acc));
    let g2 = push_text_opt(entries, FieldId::SeriesNumber, series_number, Ghost(t), g1);
    let g3 = push_text_opt(entries, FieldId::Volume, volume, Ghost(t), g2);
    let g4 = push_num(entries, FieldId::NumberOfVolumes, number_of_volumes, Ghost(t), g3);
    let g5 = push_text_opt(entries, FieldId::Edition, edition, Ghost(t), g4);
    let g6 = push_text_opt(entries, FieldId::Place, place, Ghost(t), g5);
    let g7 = push_text_opt(entries, FieldId::Publisher, publisher, Ghost(t), g6);
    let g8 = match num_pages {
        Some(n) => push_num(entries, FieldId::NumPages, n, Ghost(t), g7),
        None => g7,
    };
    let isbn_text = match isbn {
        Some(x) => {
            let crate::model::Isbn(i) = x;
            Some(i)
        },
        None => None,
    };
    let g9 = push_text_opt(entries, FieldId::Isbn, isbn_text, Ghost(t), g8);
    g9
}

/// Encodes the members of a variant that has only the shared fields.
#[verifier::rlimit(100)]
fn encode_generic(t: ItemType, g: GenericFields) -> (entries: Vec<(String, JsonValue)>)
    requires
        wf_creators(g.creators@),
        wf_unknown(t, g.common.unknown@),
        !(t == ItemType::Artwork || t == ItemType::Book || t == ItemType::BookSection),
    ensures
        spec_scan_type(entries@) == Ok::<ItemType, DecodeErrorV>(t),
        (spec_fold(t, entries@, rec_init()) matches Ok(rec) && {
            &&& spec_missing_content(t, rec) is None
            &&& generic_matches(rec, g)
            &&& rec.key is None
            &&& rec.version is None
            &&& rec.library_id is None
        }),
{
    let GenericFields { title, creators, common } = g;
    let mut entries = start_object(t);
    let g1 = push_text_opt(&mut entries, FieldId::Title, title, Ghost(t), Ghost(rec_init()));
    let g2 = push_creators(&mut entries, creators, Ghost(t), g1);
    let g3 = push_common(&mut entries, common, Ghost(t), g2);
    proof {
        assert(spec_scan_type(entries@) == Ok::<ItemType, DecodeErrorV>(t));
    }
    entries
}

/// Encodes an item's content as its wire object. This is the round-trip
/// guarantee: the decode specification applied to the returned object
/// resolves the same variant, misses no required field, and reproduces
/// every field of `c`, the unknown-fields pocket included.
pub fn encode_content(c: Content) -> (v: JsonValue)
    requires
        wf_content(c),
    ensures
        (spec_decode_rec(v) matches Ok(p) && {
            &&& p.0 == spec_content_type(c)
            &&& spec_missing_content(p.0, p.1) is None
            &&& content_matches(p.0, p.1, c)
        }),
{
    let ghost t = spec_content_type(c);
    let entries = content_entries(c);
    let v = JsonValue::Obj(entries);
    proof {
        assert(v == JsonValue::Obj(entries));
    }
    v
}

/// Encodes a full item as its wire object: the content members plus the
/// `key`, `version` and `libraryId` envelope members. Decoding the
/// result yields `i` back in every field.
#[verifier::rlimit(100)]
pub fn encode_item(i: Item) -> (v: JsonValue)
    requires
        wf_item(i),
    ensures
        (spec_decode_rec(v) matches Ok(p) && {
            &&& p.0 == spec_content_type(i.content)
            &&& spec_missing_item(p.1) is None
            &&& spec_missing_content(p.0, p.1) is None
            &&& p.1.key == Some(i.key)
            &&& p.1.version == Some(i.version)
            &&& p.1.library_id == Some(i.library_id)
            &&& content_matches(p.0, p.1, i.content)
        }),
{
    let ghost t = spec_content_type(i.content);
    let Item { key, version, library_id, content } = i;
    let mut entries = content_entries(content);
    let ghost rec0 = spec_fold(t, entries@, rec_init())->Ok_0;
    let ghost prev1 = entries@;
    let ghost keyg = key;
    entries.push(("key".to_owned(), JsonValue::Str(key)));
    proof {
        lemma_envelope_names();
        lemma_scan_snoc(prev1, entries@.last());
        lemma_fold_snoc(t, prev1, entries@.last(), rec_init());
        assert(entries@.drop_last() =~= prev1);
    }
    let ghost rec1 = RecordV { key: Some(keyg), ..rec0 };
    let ghost prev2 = entries@;
    let vs = u64_to_dec(version);
    entries.push(("version".to_owned(), JsonValue::Str(vs)));
    proof {
        lemma_envelope_names();
        lemma_parse_of_dec_u64(version);
        lemma_scan_snoc(prev2, entries@.last());
        lemma_fold_snoc(t, prev2, entries@.last(), rec_init());
        assert(entries@.drop_last() =~= prev2);
    }
    let ghost rec2 = RecordV { version: Some(version), ..rec1 };
    let ghost prev3 = entries@;
    let ls = u64_to_dec(library_id);
    entries.push(("libraryId".to_owned(), JsonValue::Str(ls)));
    proof {
        lemma_envelope_names();
        lemma_parse_of_dec_u64(library_id);
        lemma_scan_snoc(prev3, entries@.last());
        lemma_fold_snoc(t, prev3, entries@.last(), rec_init());
        assert(entries@.drop_last() =~= prev3);
    }
    let ghost rec3 = RecordV { library_id: Some(library_id), ..rec2 };
    let v = JsonValue::Obj(entries);
    proof {
        assert(v == JsonValue::Obj(entries));
        assert(spec_fold(t, entries@, rec_init()) == Ok::<RecordV, DecodeErrorV>(rec3));
    }
    v
}


} // verus!
