//! The meaning of a decode, written once as specification functions: a
//! left-to-right fold of an object's members into a field record, the
//! discriminator scan that selects the variant, and the required-field
//! checks. The executable decoder and encoder are both held to these.

use vstd::prelude::*;
use crate::json::JsonValue;
use crate::model::{Creator, Name, Url, Isbn, Date, CollectionId, Relation, ItemType, Content,
    DecodeError, spec_content_type};
use crate::registry::{FieldId, spec_field_id_of, spec_field_name, spec_in_schema, spec_required,
    spec_item_type_from_tag};
use crate::digits::{spec_parse_u64, spec_parse_u16};

verus! {

/// Specification-level form of [`DecodeError`]: the same taxonomy with
/// the carried strings as character sequences.
pub enum DecodeErrorV {
    UnknownItemType,
    MissingRequiredField(Seq<char>),
    InvalidFieldValue(Seq<char>, Seq<char>),
}

/// The specification-level reading of a [`DecodeError`] value.
pub open spec fn err_view(e: DecodeError) -> DecodeErrorV {
    match e {
        DecodeError::UnknownItemType => DecodeErrorV::UnknownItemType,
        DecodeError::MissingRequiredField(f) => DecodeErrorV::MissingRequiredField(f@),
        DecodeError::InvalidFieldValue(f, r) => DecodeErrorV::InvalidFieldValue(f@, r@),
    }
}

/// The decoder's workspace, at specification level: one slot per modeled
/// field, the envelope metadata, and the pocket of unmodeled members.
pub struct RecordV {
    pub key: Option<String>,
    pub version: Option<u64>,
    pub library_id: Option<u64>,
    pub title: Option<String>,
    pub book_title: Option<String>,
    pub creators: Seq<Creator>,
    pub artwork_medium: Option<String>,
    pub artwork_size: Option<String>,
    pub series: Option<String>,
    pub series_number: Option<String>,
    pub volume: Option<String>,
    pub number_of_volumes: Option<u16>,
    pub edition: Option<String>,
    pub place: Option<String>,
    pub publisher: Option<String>,
    pub num_pages: Option<u16>,
    pub isbn: Option<Isbn>,
    pub abstract_note: Option<String>,
    pub date: Option<String>,
    pub language: Option<String>,
    pub short_title: Option<String>,
    pub archive: Option<String>,
    pub archive_location: Option<String>,
    pub library_catalog: Option<String>,
    pub call_number: Option<String>,
    pub url: Option<Url>,
    pub access_date: Option<Date>,
    pub rights: Option<String>,
    pub extra: Option<String>,
    pub tags: Seq<String>,
    pub collections: Seq<CollectionId>,
    pub relations: Seq<(String, Seq<String>)>,
    pub unknown: Seq<(String, JsonValue)>,
}

/// The workspace before any member has been folded in.
pub open spec fn rec_init() -> RecordV {
    RecordV {
        key: None,
        version: None,
        library_id: None,
        title: None,
        book_title: None,
        creators: Seq::empty(),
        artwork_medium: None,
        artwork_size: None,
        series: None,
        series_number: None,
        volume: None,
        number_of_volumes: None,
        edition: None,
        place: None,
        publisher: None,
        num_pages: None,
        isbn: None,
        abstract_note: None,
        date: None,
        language: None,
        short_title: None,
        archive: None,
        archive_location: None,
        library_catalog: None,
        call_number: None,
        url: None,
        access_date: None,
        rights: None,
        extra: None,
        tags: Seq::empty(),
        collections: Seq::empty(),
        relations: Seq::empty(),
        unknown: Seq::empty(),
    }
}

/// The accumulator for one creator object's members.
#[derive(Debug, PartialEq, Eq)]
pub struct CreatorAcc {
    pub role: Option<String>,
    pub first: Option<String>,
    pub last: Option<String>,
    pub merged: Option<String>,
}

/// The creator accumulator before any member has been read.
pub open spec fn creator_acc_init() -> CreatorAcc {
    CreatorAcc { role: None, first: None, last: None, merged: None }
}

/// How one member of a creator object changes the accumulator. Members
/// outside the creator schema are ignored; a wrong shape is an error on
/// the `creators` field.
pub open spec fn spec_creator_step(acc: CreatorAcc, name: String, v: JsonValue) -> Result<
    CreatorAcc,
    DecodeErrorV,
> {
    if name@ == "creatorType"@ {
        match v {
            JsonValue::Str(s) => Ok(CreatorAcc { role: Some(s), ..acc }),
            _ => Err(DecodeErrorV::InvalidFieldValue("creators"@, "expected string"@)),
        }
    } else if name@ == "firstName"@ {
        match v {
            JsonValue::Str(s) => Ok(CreatorAcc { first: Some(s), ..acc }),
            _ => Err(DecodeErrorV::InvalidFieldValue("creators"@, "expected string"@)),
        }
    } else if name@ == "lastName"@ {
        match v {
            JsonValue::Str(s) => Ok(CreatorAcc { last: Some(s), ..acc }),
            _ => Err(DecodeErrorV::InvalidFieldValue("creators"@, "expected string"@)),
        }
    } else if name@ == "name"@ {
        match v {
            JsonValue::Str(s) => Ok(CreatorAcc { merged: Some(s), ..acc }),
            _ => Err(DecodeErrorV::InvalidFieldValue("creators"@, "expected string"@)),
        }
    } else {
        Ok(acc)
    }
}

/// Folds a creator object's members, first to last.
pub open spec fn spec_fold_creator(entries: Seq<(String, JsonValue)>, acc: CreatorAcc) -> Result<
    CreatorAcc,
    DecodeErrorV,
>
    decreases entries.len(),
{
    if entries.len() == 0 {
        Ok(acc)
    } else {
        match spec_creator_step(acc, entries[0].0, entries[0].1) {
            Ok(a) => spec_fold_creator(entries.drop_first(), a),
            Err(e) => Err(e),
        }
    }
}

/// Builds the creator from its accumulated members: a known role string
/// selects its typed variant, any other role is preserved raw; a merged
/// name wins over split parts when both are present.
pub open spec fn spec_finish_creator(acc: CreatorAcc) -> Result<Creator, DecodeErrorV> {
    match acc.role {
        None => Err(
            DecodeErrorV::InvalidFieldValue("creators"@, "creator entry missing creatorType"@),
        ),
        Some(r) => {
            let name = match acc.merged {
                Some(m) => Name::Merged(m),
                None => Name::Split { first: acc.first, last: acc.last },
            };
            if r@ == "author"@ {
                Ok(Creator::Author(name))
            } else if r@ == "contributor"@ {
                Ok(Creator::Contributor(name))
            } else if r@ == "editor"@ {
                Ok(Creator::Editor(name))
            } else if r@ == "seriesEditor"@ {
                Ok(Creator::SeriesEditor(name))
            } else if r@ == "translator"@ {
                Ok(Creator::Translator(name))
            } else {
                Ok(Creator::Raw { role: r, name })
            }
        },
    }
}

/// What decoding one creator array entry yields.
pub open spec fn spec_decode_creator(v: JsonValue) -> Result<Creator, DecodeErrorV> {
    match v {
        JsonValue::Obj(es) => match spec_fold_creator(es@, creator_acc_init()) {
            Ok(acc) => spec_finish_creator(acc),
            Err(e) => Err(e),
        },
        _ => Err(DecodeErrorV::InvalidFieldValue("creators"@, "expected object"@)),
    }
}

/// Folds a creators array, first to last; the first failing entry wins.
pub open spec fn spec_fold_creators(items: Seq<JsonValue>, acc: Seq<Creator>) -> Result<
    Seq<Creator>,
    DecodeErrorV,
>
    decreases items.len(),
{
    if items.len() == 0 {
        Ok(acc)
    } else {
        match spec_decode_creator(items[0]) {
            Ok(c) => spec_fold_creators(items.drop_first(), acc.push(c)),
            Err(e) => Err(e),
        }
    }
}

/// What decoding a creators array yields.
pub open spec fn spec_decode_creators(items: Seq<JsonValue>) -> Result<
    Seq<Creator>,
    DecodeErrorV,
> {
    spec_fold_creators(items, Seq::empty())
}

/// Folds an array whose entries must all be strings.
pub open spec fn spec_fold_strings(items: Seq<JsonValue>, acc: Seq<String>) -> Option<Seq<String>>
    decreases items.len(),
{
    if items.len() == 0 {
        Some(acc)
    } else {
        match items[0] {
            JsonValue::Str(t) => spec_fold_strings(items.drop_first(), acc.push(t)),
            _ => None,
        }
    }
}

/// Reads an array whose entries must all be strings.
pub open spec fn spec_decode_strings(items: Seq<JsonValue>) -> Option<Seq<String>> {
    spec_fold_strings(items, Seq::empty())
}

/// Folds a relations object: each predicate carries one string or an
/// array of strings.
pub open spec fn spec_fold_relations(
    entries: Seq<(String, JsonValue)>,
    acc: Seq<(String, Seq<String>)>,
) -> Option<Seq<(String, Seq<String>)>>
    decreases entries.len(),
{
    if entries.len() == 0 {
        Some(acc)
    } else {
        match entries[0].1 {
            JsonValue::Str(t) => spec_fold_relations(
                entries.drop_first(),
                acc.push((entries[0].0, seq![t])),
            ),
            JsonValue::Arr(items) => match spec_decode_strings(items@) {
                Some(vs) => spec_fold_relations(entries.drop_first(), acc.push((entries[0].0, vs))),
                None => None,
            },
            _ => None,
        }
    }
}

/// Reads a relations object.
pub open spec fn spec_decode_relations(entries: Seq<(String, JsonValue)>) -> Option<
    Seq<(String, Seq<String>)>,
> {
    spec_fold_relations(entries, Seq::empty())
}

/// How one object member changes the workspace: envelope members fill the
/// metadata slots, schema fields are coerced by their kind, and everything
/// else is preserved in the pocket.
pub open spec fn spec_step(t: ItemType, acc: RecordV, name: String, v: JsonValue) -> Result<
    RecordV,
    DecodeErrorV,
> {
    if name@ == "itemType"@ {
        Ok(acc)
    } else if name@ == "key"@ {
        match v {
            JsonValue::Str(s) => Ok(RecordV { key: Some(s), ..acc }),
            _ => Err(DecodeErrorV::InvalidFieldValue("key"@, "expected string"@)),
        }
    } else if name@ == "version"@ {
        match v {
            JsonValue::Str(s) => match spec_parse_u64(s@) {
                Some(n) => Ok(RecordV { version: Some(n), ..acc }),
                None => Err(
                    DecodeErrorV::InvalidFieldValue("version"@, "expected a decimal number"@),
                ),
            },
            _ => Err(DecodeErrorV::InvalidFieldValue("version"@, "expected string"@)),
        }
    } else if name@ == "libraryId"@ {
        match v {
            JsonValue::Str(s) => match spec_parse_u64(s@) {
                Some(n) => Ok(RecordV { library_id: Some(n), ..acc }),
                None => Err(
                    DecodeErrorV::InvalidFieldValue("libraryId"@, "expected a decimal number"@),
                ),
            },
            _ => Err(DecodeErrorV::InvalidFieldValue("libraryId"@, "expected string"@)),
        }
    } else {
        match spec_field_id_of(name@) {
            None => Ok(RecordV { unknown: acc.unknown.push((name, v)), ..acc }),
            Some(f) => if !spec_in_schema(t, f) {
                Ok(RecordV { unknown: acc.unknown.push((name, v)), ..acc })
            } else {
                spec_coerce(acc, f, v)
            },
        }
    }
}

/// Coerces a schema field's value into its slot, by the field's kind.
pub open spec fn spec_coerce(acc: RecordV, f: FieldId, v: JsonValue) -> Result<
    RecordV,
    DecodeErrorV,
> {
    match f {
        FieldId::Title => match v {
            JsonValue::Str(s) => Ok(RecordV { title: Some(s), ..acc }),
            _ => Err(text_err(f)),
        },
        FieldId::BookTitle => match v {
            JsonValue::Str(s) => Ok(RecordV { book_title: Some(s), ..acc }),
            _ => Err(text_err(f)),
        },
        FieldId::ArtworkMedium => match v {
            JsonValue::Str(s) => Ok(RecordV { artwork_medium: Some(s), ..acc }),
            _ => Err(text_err(f)),
        },
        FieldId::ArtworkSize => match v {
            JsonValue::Str(s) => Ok(RecordV { artwork_size: Some(s), ..acc }),
            _ => Err(text_err(f)),
        },
        FieldId::Series => match v {
            JsonValue::Str(s) => Ok(RecordV { series: Some(s), ..acc }),
            _ => Err(text_err(f)),
        },
        FieldId::SeriesNumber => match v {
            JsonValue::Str(s) => Ok(RecordV { series_number: Some(s), ..acc }),
            _ => Err(text_err(f)),
        },
        FieldId::Volume => match v {
            JsonValue::Str(s) => Ok(RecordV { volume: Some(s), ..acc }),
            _ => Err(text_err(f)),
        },
        FieldId::NumberOfVolumes => match v {
            JsonValue::Str(s) => match spec_parse_u16(s@) {
                Some(n) => Ok(RecordV { number_of_volumes: Some(n), ..acc }),
                None => Err(num_err(f)),
            },
            _ => Err(num_err(f)),
        },
        FieldId::Edition => match v {
            JsonValue::Str(s) => Ok(RecordV { edition: Some(s), ..acc }),
            _ => Err(text_err(f)),
        },
        FieldId::Place => match v {
            JsonValue::Str(s) => Ok(RecordV { place: Some(s), ..acc }),
            _ => Err(text_err(f)),
        },
        FieldId::Publisher => match v {
            JsonValue::Str(s) => Ok(RecordV { publisher: Some(s), ..acc }),
            _ => Err(text_err(f)),
        },
        FieldId::NumPages => match v {
            JsonValue::Str(s) => match spec_parse_u16(s@) {
                Some(n) => Ok(RecordV { num_pages: Some(n), ..acc }),
                None => Err(num_err(f)),
            },
            _ => Err(num_err(f)),
        },
        FieldId::Isbn => match v {
            JsonValue::Str(s) => Ok(RecordV { isbn: Some(Isbn(s)), ..acc }),
            _ => Err(text_err(f)),
        },
        FieldId::AbstractNote => match v {
            JsonValue::Str(s) => Ok(RecordV { abstract_note: Some(s), ..acc }),
            _ => Err(text_err(f)),
        },
        FieldId::Date => match v {
            JsonValue::Str(s) => Ok(RecordV { date: Some(s), ..acc }),
            _ => Err(text_err(f)),
        },
        FieldId::Language => match v {
            JsonValue::Str(s) => Ok(RecordV { language: Some(s), ..acc }),
            _ => Err(text_err(f)),
        },
        FieldId::ShortTitle => match v {
            JsonValue::Str(s) => Ok(RecordV { short_title: Some(s), ..acc }),
            _ => Err(text_err(f)),
        },
        FieldId::Url => match v {
            JsonValue::Str(s) => Ok(RecordV { url: Some(Url(s)), ..acc }),
            _ => Err(text_err(f)),
        },
        FieldId::AccessDate => match v {
            JsonValue::Str(s) => Ok(RecordV { access_date: Some(Date(s)), ..acc }),
            _ => Err(text_err(f)),
        },
        FieldId::Archive => match v {
            JsonValue::Str(s) => Ok(RecordV { archive: Some(s), ..acc }),
            _ => Err(text_err(f)),
        },
        FieldId::ArchiveLocation => match v {
            JsonValue::Str(s) => Ok(RecordV { archive_location: Some(s), ..acc }),
            _ => Err(text_err(f)),
        },
        FieldId::LibraryCatalog => match v {
            JsonValue::Str(s) => Ok(RecordV { library_catalog: Some(s), ..acc }),
            _ => Err(text_err(f)),
        },
        FieldId::CallNumber => match v {
            JsonValue::Str(s) => Ok(RecordV { call_number: Some(s), ..acc }),
            _ => Err(text_err(f)),
        },
        FieldId::Rights => match v {
            JsonValue::Str(s) => Ok(RecordV { rights: Some(s), ..acc }),
            _ => Err(text_err(f)),
        },
        FieldId::Extra => match v {
            JsonValue::Str(s) => Ok(RecordV { extra: Some(s), ..acc }),
            _ => Err(text_err(f)),
        },
        FieldId::Creators => match v {
            JsonValue::Arr(items) => match spec_decode_creators(items@) {
                Ok(cs) => Ok(RecordV { creators: cs, ..acc }),
                Err(e) => Err(e),
            },
            _ => Err(DecodeErrorV::InvalidFieldValue("creators"@, "expected array"@)),
        },
        FieldId::Tags => match v {
            JsonValue::Arr(items) => match spec_decode_strings(items@) {
                Some(ss) => Ok(RecordV { tags: ss, ..acc }),
                None => Err(
                    DecodeErrorV::InvalidFieldValue("tags"@, "expected an array of strings"@),
                ),
            },
            _ => Err(DecodeErrorV::InvalidFieldValue("tags"@, "expected array"@)),
        },
        FieldId::Collections => match v {
            JsonValue::Arr(items) => match spec_decode_strings(items@) {
                Some(ss) => Ok(
                    RecordV { collections: ss.map_values(|s: String| CollectionId(s)), ..acc },
                ),
                None => Err(
                    DecodeErrorV::InvalidFieldValue(
                        "collections"@,
                        "expected an array of strings"@,
                    ),
                ),
            },
            _ => Err(DecodeErrorV::InvalidFieldValue("collections"@, "expected array"@)),
        },
        FieldId::Relations => match v {
            JsonValue::Obj(entries) => match spec_decode_relations(entries@) {
                Some(rs) => Ok(RecordV { relations: rs, ..acc }),
                None => Err(
                    DecodeErrorV::InvalidFieldValue(
                        "relations"@,
                        "expected a string or an array of strings"@,
                    ),
                ),
            },
            _ => Err(DecodeErrorV::InvalidFieldValue("relations"@, "expected object"@)),
        },
    }
}

/// The shape error for a text field.
pub open spec fn text_err(f: FieldId) -> DecodeErrorV {
    DecodeErrorV::InvalidFieldValue(spec_field_name(f), "expected string"@)
}

/// The shape error for a numeric field.
pub open spec fn num_err(f: FieldId) -> DecodeErrorV {
    DecodeErrorV::InvalidFieldValue(spec_field_name(f), "expected a decimal number"@)
}

/// Folds an object's members into the workspace, first to last.
pub open spec fn spec_fold(
    t: ItemType,
    entries: Seq<(String, JsonValue)>,
    acc: RecordV,
) -> Result<RecordV, DecodeErrorV>
    decreases entries.len(),
{
    if entries.len() == 0 {
        Ok(acc)
    } else {
        match spec_step(t, acc, entries[0].0, entries[0].1) {
            Ok(a) => spec_fold(t, entries.drop_first(), a),
            Err(e) => Err(e),
        }
    }
}

/// Scans for the first `itemType` member and resolves it in the registry.
pub open spec fn spec_scan_type(entries: Seq<(String, JsonValue)>) -> Result<
    ItemType,
    DecodeErrorV,
>
    decreases entries.len(),
{
    if entries.len() == 0 {
        Err(DecodeErrorV::MissingRequiredField("itemType"@))
    } else if entries[0].0@ == "itemType"@ {
        match entries[0].1 {
            JsonValue::Str(s) => match spec_item_type_from_tag(s@) {
                Some(t) => Ok(t),
                None => Err(DecodeErrorV::UnknownItemType),
            },
            _ => Err(DecodeErrorV::InvalidFieldValue("itemType"@, "expected string"@)),
        }
    } else {
        spec_scan_type(entries.drop_first())
    }
}

/// What decoding a whole object down to the field record yields: the
/// resolved variant and the folded workspace, or the first error.
pub open spec fn spec_decode_rec(v: JsonValue) -> Result<(ItemType, RecordV), DecodeErrorV> {
    match v {
        JsonValue::Obj(entries) => match spec_scan_type(entries@) {
            Ok(t) => match spec_fold(t, entries@, rec_init()) {
                Ok(rec) => Ok((t, rec)),
                Err(e) => Err(e),
            },
            Err(e) => Err(e),
        },
        _ => Err(DecodeErrorV::InvalidFieldValue("item"@, "expected object"@)),
    }
}

/// The first field that variant `t` requires and the record lacks, in
/// registry order, if any.
pub open spec fn spec_missing_content(t: ItemType, rec: RecordV) -> Option<Seq<char>> {
    if spec_required(t, FieldId::Title) && rec.title is None {
        Some("title"@)
    } else if spec_required(t, FieldId::BookTitle) && rec.book_title is None {
        Some("bookTitle"@)
    } else if spec_required(t, FieldId::NumberOfVolumes) && rec.number_of_volumes is None {
        Some("numberOfVolumes"@)
    } else {
        None
    }
}

/// The first envelope member an item decode requires and the record
/// lacks, if any.
pub open spec fn spec_missing_item(rec: RecordV) -> Option<Seq<char>> {
    if rec.key is None {
        Some("key"@)
    } else if rec.version is None {
        Some("version"@)
    } else if rec.library_id is None {
        Some("libraryId"@)
    } else {
        None
    }
}

/// The pairing of a relation list with its specification reading.
pub open spec fn rels_view(rs: Seq<Relation>) -> Seq<(String, Seq<String>)> {
    rs.map_values(|r: Relation| (r.predicate, r.values@))
}

/// Whether content `c` is exactly what the folded record describes for
/// variant `t`: the right variant is active and every field, the shared
/// ones and the pocket included, holds the folded value.
pub open spec fn content_matches(t: ItemType, rec: RecordV, c: Content) -> bool {
    &&& spec_content_type(c) == t
    &&& match c {
        Content::Artwork(a) => {
            &&& rec.title == Some(a.title)
            &&& a.creators@ == rec.creators
            &&& a.artwork_medium == rec.artwork_medium
            &&& a.artwork_size == rec.artwork_size
            &&& common_matches(rec, a.common)
        },
        Content::Book(b) => {
            &&& rec.title == Some(b.title)
            &&& b.creators@ == rec.creators
            &&& bookish_matches(rec, b.bookish)
            &&& common_matches(rec, b.common)
        },
        Content::BookSection(b) => {
            &&& rec.title == Some(b.title)
            &&& rec.book_title == Some(b.book_title)
            &&& b.creators@ == rec.creators
            &&& bookish_matches(rec, b.bookish)
            &&& common_matches(rec, b.common)
        },
        Content::AudioRecording(g) => generic_matches(rec, g),
        Content::Bill(g) => generic_matches(rec, g),
        Content::BlogPost(g) => generic_matches(rec, g),
        Content::Case(g) => generic_matches(rec, g),
        Content::ComputerProgram(g) => generic_matches(rec, g),
        Content::ConferencePaper(g) => generic_matches(rec, g),
        Content::DictionaryEntry(g) => generic_matches(rec, g),
        Content::Document(g) => generic_matches(rec, g),
        Content::Email(g) => generic_matches(rec, g),
        Content::EncyclopediaArticle(g) => generic_matches(rec, g),
        Content::Film(g) => generic_matches(rec, g),
        Content::ForumPost(g) => generic_matches(rec, g),
        Content::Hearing(g) => generic_matches(rec, g),
        Content::InstantMessage(g) => generic_matches(rec, g),
        Content::Interview(g) => generic_matches(rec, g),
        Content::JournalArticle(g) => generic_matches(rec, g),
        Content::Letter(g) => generic_matches(rec, g),
        Content::MagazineArticle(g) => generic_matches(rec, g),
        Content::Manuscript(g) => generic_matches(rec, g),
        Content::MapItem(g) => generic_matches(rec, g),
        Content::NewspaperArticle(g) => generic_matches(rec, g),
        Content::Note(g) => generic_matches(rec, g),
        Content::Patent(g) => generic_matches(rec, g),
        Content::Podcast(g) => generic_matches(rec, g),
        Content::Presentation(g) => generic_matches(rec, g),
        Content::RadioBroadcast(g) => generic_matches(rec, g),
        Content::Report(g) => generic_matches(rec, g),
        Content::Statute(g) => generic_matches(rec, g),
        Content::TvBroadcast(g) => generic_matches(rec, g),
        Content::Thesis(g) => generic_matches(rec, g),
        Content::VideoRecording(g) => generic_matches(rec, g),
        Content::Webpage(g) => generic_matches(rec, g),
    }
}

/// The field agreement for the variants with only the shared fields.
pub open spec fn generic_matches(rec: RecordV, g: crate::model::GenericFields) -> bool {
    &&& g.title == rec.title
    &&& g.creators@ == rec.creators
    &&& common_matches(rec, g.common)
}

/// The field agreement for the book-specific group.
pub open spec fn bookish_matches(rec: RecordV, b: crate::model::BookishFields) -> bool {
    &&& b.series == rec.series
    &&& b.series_number == rec.series_number
    &&& b.volume == rec.volume
    &&& rec.number_of_volumes == Some(b.number_of_volumes)
    &&& b.edition == rec.edition
    &&& b.place == rec.place
    &&& b.publisher == rec.publisher
    &&& b.num_pages == rec.num_pages
    &&& b.isbn == rec.isbn
}

/// The field agreement for the shared group and the pocket.
pub open spec fn common_matches(rec: RecordV, cf: crate::model::CommonFields) -> bool {
    &&& cf.abstract_note == rec.abstract_note
    &&& cf.date == rec.date
    &&& cf.language == rec.language
    &&& cf.short_title == rec.short_title
    &&& cf.archive == rec.archive
    &&& cf.archive_location == rec.archive_location
    &&& cf.library_catalog == rec.library_catalog
    &&& cf.call_number == rec.call_number
    &&& cf.url == rec.url
    &&& cf.access_date == rec.access_date
    &&& cf.rights == rec.rights
    &&& cf.extra == rec.extra
    &&& cf.tags@ == rec.tags
    &&& cf.collections@ == rec.collections
    &&& rels_view(cf.relations@) == rec.relations
    &&& cf.unknown@ == rec.unknown
}

/// A pocket is well formed for variant `t` when none of its names is a
/// reserved envelope member or a schema field of `t`: only then does an
/// encode of the pocket fold back into the pocket.
pub open spec fn wf_unknown(t: ItemType, pocket: Seq<(String, JsonValue)>) -> bool {
    forall|i: int|
        0 <= i < pocket.len() ==> {
            &&& !crate::registry::spec_reserved((#[trigger] pocket[i]).0@)
            &&& match spec_field_id_of(pocket[i].0@) {
                Some(f) => !spec_in_schema(t, f),
                None => true,
            }
        }
}

/// Whether every creator in the list survives a round trip.
pub open spec fn wf_creators(cs: Seq<Creator>) -> bool {
    forall|i: int| 0 <= i < cs.len() ==> crate::model::wf_creator(#[trigger] cs[i])
}

/// Whether an item's content can survive a decode of its own encoding:
/// its creators are well formed and its pocket avoids schema names.
pub open spec fn wf_content(c: Content) -> bool {
    &&& wf_creators(spec_creators_of(c))
    &&& wf_unknown(spec_content_type(c), spec_unknown_of(c))
}

/// The creator list of any content variant.
pub open spec fn spec_creators_of(c: Content) -> Seq<Creator> {
    match c {
        Content::Artwork(a) => a.creators@,
        Content::Book(b) => b.creators@,
        Content::BookSection(b) => b.creators@,
        Content::AudioRecording(g) => g.creators@,
        Content::Bill(g) => g.creators@,
        Content::BlogPost(g) => g.creators@,
        Content::Case(g) => g.creators@,
        Content::ComputerProgram(g) => g.creators@,
        Content::ConferencePaper(g) => g.creators@,
        Content::DictionaryEntry(g) => g.creators@,
        Content::Document(g) => g.creators@,
        Content::Email(g) => g.creators@,
        Content::EncyclopediaArticle(g) => g.creators@,
        Content::Film(g) => g.creators@,
        Content::ForumPost(g) => g.creators@,
        Content::Hearing(g) => g.creators@,
        Content::InstantMessage(g) => g.creators@,
        Content::Interview(g) => g.creators@,
        Content::JournalArticle(g) => g.creators@,
        Content::Letter(g) => g.creators@,
        Content::MagazineArticle(g) => g.creators@,
        Content::Manuscript(g) => g.creators@,
        Content::MapItem(g) => g.creators@,
        Content::NewspaperArticle(g) => g.creators@,
        Content::Note(g) => g.creators@,
        Content::Patent(g) => g.creators@,
        Content::Podcast(g) => g.creators@,
        Content::Presentation(g) => g.creators@,
        Content::RadioBroadcast(g) => g.creators@,
        Content::Report(g) => g.creators@,
        Content::Statute(g) => g.creators@,
        Content::TvBroadcast(g) => g.creators@,
        Content::Thesis(g) => g.creators@,
        Content::VideoRecording(g) => g.creators@,
        Content::Webpage(g) => g.creators@,
    }
}

/// The unknown-fields pocket of any content variant.
pub open spec fn spec_unknown_of(c: Content) -> Seq<(String, JsonValue)> {
    spec_common_of(c).unknown@
}

/// The shared field group of any content variant.
pub open spec fn spec_common_of(c: Content) -> crate::model::CommonFields {
    match c {
        Content::Artwork(a) => a.common,
        Content::Book(b) => b.common,
        Content::BookSection(b) => b.common,
        Content::AudioRecording(g) => g.common,
        Content::Bill(g) => g.common,
        Content::BlogPost(g) => g.common,
        Content::Case(g) => g.common,
        Content::ComputerProgram(g) => g.common,
        Content::ConferencePaper(g) => g.common,
        Content::DictionaryEntry(g) => g.common,
        Content::Document(g) => g.common,
        Content::Email(g) => g.common,
        Content::EncyclopediaArticle(g) => g.common,
        Content::Film(g) => g.common,
        Content::ForumPost(g) => g.common,
        Content::Hearing(g) => g.common,
        Content::InstantMessage(g) => g.common,
        Content::Interview(g) => g.common,
        Content::JournalArticle(g) => g.common,
        Content::Letter(g) => g.common,
        Content::MagazineArticle(g) => g.common,
        Content::Manuscript(g) => g.common,
        Content::MapItem(g) => g.common,
        Content::NewspaperArticle(g) => g.common,
        Content::Note(g) => g.common,
        Content::Patent(g) => g.common,
        Content::Podcast(g) => g.common,
        Content::Presentation(g) => g.common,
        Content::RadioBroadcast(g) => g.common,
        Content::Report(g) => g.common,
        Content::Statute(g) => g.common,
        Content::TvBroadcast(g) => g.common,
        Content::Thesis(g) => g.common,
        Content::VideoRecording(g) => g.common,
        Content::Webpage(g) => g.common,
    }
}

/// Whether a whole item can survive a decode of its own encoding.
pub open spec fn wf_item(i: crate::model::Item) -> bool {
    wf_content(i.content)
}

} // verus!
