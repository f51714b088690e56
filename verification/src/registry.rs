//! The schema registry: the wire tag of each item type, the field set of
//! each variant with each field's wire name, optionality and value kind,
//! and the reserved member names that never belong to a variant's schema.

use vstd::prelude::*;
use vstd::string::StringExecFns;
use crate::model::ItemType;
use crate::strutil::str_eq;

verus! {

/// Identifies one modeled field, independent of its wire spelling.
#[derive(Debug, Clone, Copy, PartialEq, Eq, Structural)]
pub enum FieldId {
    Title,
    BookTitle,
    Creators,
    AbstractNote,
    ArtworkMedium,
    ArtworkSize,
    Series,
    SeriesNumber,
    Volume,
    NumberOfVolumes,
    Edition,
    Place,
    Publisher,
    NumPages,
    Isbn,
    Date,
    Language,
    ShortTitle,
    Url,
    AccessDate,
    Archive,
    ArchiveLocation,
    LibraryCatalog,
    CallNumber,
    Rights,
    Extra,
    Tags,
    Collections,
    Relations,
}

/// The shape a field's JSON value must have.
#[derive(Debug, Clone, Copy, PartialEq, Eq, Structural)]
pub enum FieldKind {
    /// A string scalar (numbers arrive as digit strings and are `Number`).
    Text,
    /// A digit string coerced to an unsigned integer.
    Number,
    /// An array of creator objects.
    CreatorList,
    /// An array of tag strings.
    TagList,
    /// An array of collection-key strings.
    CollectionList,
    /// An object mapping a predicate to one value or an array of values.
    RelationMap,
}

/// One entry of a variant's schema, as the registry reports it.
#[derive(Debug, Clone, PartialEq, Eq)]
pub struct FieldDescriptor {
    /// The wire spelling of the field name.
    pub name: String,
    /// Whether a decode fails when the field is absent.
    pub required: bool,
    /// The shape the field's value must have.
    pub kind: FieldKind,
}

/// The wire spelling of each modeled field.
pub open spec fn spec_field_name(f: FieldId) -> Seq<char> {
    match f {
        FieldId::Title => "title"@,
        FieldId::BookTitle => "bookTitle"@,
        FieldId::Creators => "creators"@,
        FieldId::AbstractNote => "abstractNote"@,
        FieldId::ArtworkMedium => "artworkMedium"@,
        FieldId::ArtworkSize => "artworkSize"@,
        FieldId::Series => "series"@,
        FieldId::SeriesNumber => "seriesNumber"@,
        FieldId::Volume => "volume"@,
        FieldId::NumberOfVolumes => "numberOfVolumes"@,
        FieldId::Edition => "edition"@,
        FieldId::Place => "place"@,
        FieldId::Publisher => "publisher"@,
        FieldId::NumPages => "numPages"@,
        FieldId::Isbn => "ISBN"@,
        FieldId::Date => "date"@,
        FieldId::Language => "language"@,
        FieldId::ShortTitle => "shortTitle"@,
        FieldId::Url => "url"@,
        FieldId::AccessDate => "accessDate"@,
        FieldId::Archive => "archive"@,
        FieldId::ArchiveLocation => "archiveLocation"@,
        FieldId::LibraryCatalog => "libraryCatalog"@,
        FieldId::CallNumber => "callNumber"@,
        FieldId::Rights => "rights"@,
        FieldId::Extra => "extra"@,
        FieldId::Tags => "tags"@,
        FieldId::Collections => "collections"@,
        FieldId::Relations => "relations"@,
    }
}

/// The modeled field spelled `name`, if any.
pub open spec fn spec_field_id_of(name: Seq<char>) -> Option<FieldId> {
    if name == "title"@ {
        Some(FieldId::Title)
    } else if name == "bookTitle"@ {
        Some(FieldId::BookTitle)
    } else if name == "creators"@ {
        Some(FieldId::Creators)
    } else if name == "abstractNote"@ {
        Some(FieldId::AbstractNote)
    } else if name == "artworkMedium"@ {
        Some(FieldId::ArtworkMedium)
    } else if name == "artworkSize"@ {
        Some(FieldId::ArtworkSize)
    } else if name == "series"@ {
        Some(FieldId::Series)
    } else if name == "seriesNumber"@ {
        Some(FieldId::SeriesNumber)
    } else if name == "volume"@ {
        Some(FieldId::Volume)
    } else if name == "numberOfVolumes"@ {
        Some(FieldId::NumberOfVolumes)
    } else if name == "edition"@ {
        Some(FieldId::Edition)
    } else if name == "place"@ {
        Some(FieldId::Place)
    } else if name == "publisher"@ {
        Some(FieldId::Publisher)
    } else if name == "numPages"@ {
        Some(FieldId::NumPages)
    } else if name == "ISBN"@ {
        Some(FieldId::Isbn)
    } else if name == "date"@ {
        Some(FieldId::Date)
    } else if name == "language"@ {
        Some(FieldId::Language)
    } else if name == "shortTitle"@ {
        Some(FieldId::ShortTitle)
    } else if name == "url"@ {
        Some(FieldId::Url)
    } else if name == "accessDate"@ {
        Some(FieldId::AccessDate)
    } else if name == "archive"@ {
        Some(FieldId::Archive)
    } else if name == "archiveLocation"@ {
        Some(FieldId::ArchiveLocation)
    } else if name == "libraryCatalog"@ {
        Some(FieldId::LibraryCatalog)
    } else if name == "callNumber"@ {
        Some(FieldId::CallNumber)
    } else if name == "rights"@ {
        Some(FieldId::Rights)
    } else if name == "extra"@ {
        Some(FieldId::Extra)
    } else if name == "tags"@ {
        Some(FieldId::Tags)
    } else if name == "collections"@ {
        Some(FieldId::Collections)
    } else if name == "relations"@ {
        Some(FieldId::Relations)
    } else {
        None
    }
}

/// Member names the item envelope owns; they never enter a variant's
/// schema or the unknown-fields pocket.
pub open spec fn spec_reserved(name: Seq<char>) -> bool {
    ||| name == "itemType"@
    ||| name == "key"@
    ||| name == "version"@
    ||| name == "libraryId"@
}

/// Whether `f` is one of the optional fields every variant shares.
pub open spec fn spec_is_common(f: FieldId) -> bool {
    match f {
        FieldId::AbstractNote
        | FieldId::Date
        | FieldId::Language
        | FieldId::ShortTitle
        | FieldId::Url
        | FieldId::AccessDate
        | FieldId::Archive
        | FieldId::ArchiveLocation
        | FieldId::LibraryCatalog
        | FieldId::CallNumber
        | FieldId::Rights
        | FieldId::Extra
        | FieldId::Tags
        | FieldId::Collections
        | FieldId::Relations => true,
        _ => false,
    }
}

/// Whether `f` is one of the book-specific fields.
pub open spec fn spec_is_bookish(f: FieldId) -> bool {
    match f {
        FieldId::Series
        | FieldId::SeriesNumber
        | FieldId::Volume
        | FieldId::NumberOfVolumes
        | FieldId::Edition
        | FieldId::Place
        | FieldId::Publisher
        | FieldId::NumPages
        | FieldId::Isbn => true,
        _ => false,
    }
}

/// Whether variant `t`'s schema contains field `f`.
pub open spec fn spec_in_schema(t: ItemType, f: FieldId) -> bool {
    ||| spec_is_common(f)
    ||| f == FieldId::Title
    ||| f == FieldId::Creators
    ||| match t {
        ItemType::Artwork => f == FieldId::ArtworkMedium || f == FieldId::ArtworkSize,
        ItemType::Book => spec_is_bookish(f),
        ItemType::BookSection => spec_is_bookish(f) || f == FieldId::BookTitle,
        _ => false,
    }
}

/// Whether variant `t`'s schema requires field `f` to be present.
pub open spec fn spec_required(t: ItemType, f: FieldId) -> bool {
    ||| (f == FieldId::Title && (t == ItemType::Artwork || t == ItemType::Book || t
        == ItemType::BookSection))
    ||| (f == FieldId::BookTitle && t == ItemType::BookSection)
    ||| (f == FieldId::NumberOfVolumes && (t == ItemType::Book || t == ItemType::BookSection))
}

/// The value kind of each modeled field.
pub open spec fn spec_kind(f: FieldId) -> FieldKind {
    match f {
        FieldId::NumberOfVolumes | FieldId::NumPages => FieldKind::Number,
        FieldId::Creators => FieldKind::CreatorList,
        FieldId::Tags => FieldKind::TagList,
        FieldId::Collections => FieldKind::CollectionList,
        FieldId::Relations => FieldKind::RelationMap,
        _ => FieldKind::Text,
    }
}

/// The wire tag of each item type.
pub open spec fn spec_type_tag(t: ItemType) -> Seq<char> {
    match t {
        ItemType::Artwork => "artwork"@,
        ItemType::AudioRecording => "audioRecording"@,
        ItemType::Bill => "bill"@,
        ItemType::BlogPost => "blogPost"@,
        ItemType::Book => "book"@,
        ItemType::BookSection => "bookSection"@,
        ItemType::Case => "case"@,
        ItemType::ComputerProgram => "computerProgram"@,
        ItemType::ConferencePaper => "conferencePaper"@,
        ItemType::DictionaryEntry => "dictionaryEntry"@,
        ItemType::Document => "document"@,
        ItemType::Email => "email"@,
        ItemType::EncyclopediaArticle => "encyclopediaArticle"@,
        ItemType::Film => "film"@,
        ItemType::ForumPost => "forumPost"@,
        ItemType::Hearing => "hearing"@,
        ItemType::InstantMessage => "instantMessage"@,
        ItemType::Interview => "interview"@,
        ItemType::JournalArticle => "journalArticle"@,
        ItemType::Letter => "letter"@,
        ItemType::MagazineArticle => "magazineArticle"@,
        ItemType::Manuscript => "manuscript"@,
        ItemType::MapItem => "map"@,
        ItemType::NewspaperArticle => "newspaperArticle"@,
        ItemType::Note => "note"@,
        ItemType::Patent => "patent"@,
        ItemType::Podcast => "podcast"@,
        ItemType::Presentation => "presentation"@,
        ItemType::RadioBroadcast => "radioBroadcast"@,
        ItemType::Report => "report"@,
        ItemType::Statute => "statute"@,
        ItemType::TvBroadcast => "tvBroadcast"@,
        ItemType::Thesis => "thesis"@,
        ItemType::VideoRecording => "videoRecording"@,
        ItemType::Webpage => "webpage"@,
    }
}

/// The item type registered under wire tag `s`, if any.
pub open spec fn spec_item_type_from_tag(s: Seq<char>) -> Option<ItemType> {
    if s == "artwork"@ {
        Some(ItemType::Artwork)
    } else if s == "audioRecording"@ {
        Some(ItemType::AudioRecording)
    } else if s == "bill"@ {
        Some(ItemType::Bill)
    } else if s == "blogPost"@ {
        Some(ItemType::BlogPost)
    } else if s == "book"@ {
        Some(ItemType::Book)
    } else if s == "bookSection"@ {
        Some(ItemType::BookSection)
    } else if s == "case"@ {
        Some(ItemType::Case)
    } else if s == "computerProgram"@ {
        Some(ItemType::ComputerProgram)
    } else if s == "conferencePaper"@ {
        Some(ItemType::ConferencePaper)
    } else if s == "dictionaryEntry"@ {
        Some(ItemType::DictionaryEntry)
    } else if s == "document"@ {
        Some(ItemType::Document)
    } else if s == "email"@ {
        Some(ItemType::Email)
    } else if s == "encyclopediaArticle"@ {
        Some(ItemType::EncyclopediaArticle)
    } else if s == "film"@ {
        Some(ItemType::Film)
    } else if s == "forumPost"@ {
        Some(ItemType::ForumPost)
    } else if s == "hearing"@ {
        Some(ItemType::Hearing)
    } else if s == "instantMessage"@ {
        Some(ItemType::InstantMessage)
    } else if s == "interview"@ {
        Some(ItemType::Interview)
    } else if s == "journalArticle"@ {
        Some(ItemType::JournalArticle)
    } else if s == "letter"@ {
        Some(ItemType::Letter)
    } else if s == "magazineArticle"@ {
        Some(ItemType::MagazineArticle)
    } else if s == "manuscript"@ {
        Some(ItemType::Manuscript)
    } else if s == "map"@ {
        Some(ItemType::MapItem)
    } else if s == "newspaperArticle"@ {
        Some(ItemType::NewspaperArticle)
    } else if s == "note"@ {
        Some(ItemType::Note)
    } else if s == "patent"@ {
        Some(ItemType::Patent)
    } else if s == "podcast"@ {
        Some(ItemType::Podcast)
    } else if s == "presentation"@ {
        Some(ItemType::Presentation)
    } else if s == "radioBroadcast"@ {
        Some(ItemType::RadioBroadcast)
    } else if s == "report"@ {
        Some(ItemType::Report)
    } else if s == "statute"@ {
        Some(ItemType::Statute)
    } else if s == "tvBroadcast"@ {
        Some(ItemType::TvBroadcast)
    } else if s == "thesis"@ {
        Some(ItemType::Thesis)
    } else if s == "videoRecording"@ {
        Some(ItemType::VideoRecording)
    } else if s == "webpage"@ {
        Some(ItemType::Webpage)
    } else {
        None
    }
}

/// Returns the wire tag of item type `t`.
pub fn type_tag(t: ItemType) -> (r: &'static str)
    ensures
        r@ == spec_type_tag(t),
{
    match t {
        ItemType::Artwork => "artwork",
        ItemType::AudioRecording => "audioRecording",
        ItemType::Bill => "bill",
        ItemType::BlogPost => "blogPost",
        ItemType::Book => "book",
        ItemType::BookSection => "bookSection",
        ItemType::Case => "case",
        ItemType::ComputerProgram => "computerProgram",
        ItemType::ConferencePaper => "conferencePaper",
        ItemType::DictionaryEntry => "dictionaryEntry",
        ItemType::Document => "document",
        ItemType::Email => "email",
        ItemType::EncyclopediaArticle => "encyclopediaArticle",
        ItemType::Film => "film",
        ItemType::ForumPost => "forumPost",
        ItemType::Hearing => "hearing",
        ItemType::InstantMessage => "instantMessage",
        ItemType::Interview => "interview",
        ItemType::JournalArticle => "journalArticle",
        ItemType::Letter => "letter",
        ItemType::MagazineArticle => "magazineArticle",
        ItemType::Manuscript => "manuscript",
        ItemType::MapItem => "map",
        ItemType::NewspaperArticle => "newspaperArticle",
        ItemType::Note => "note",
        ItemType::Patent => "patent",
        ItemType::Podcast => "podcast",
        ItemType::Presentation => "presentation",
        ItemType::RadioBroadcast => "radioBroadcast",
        ItemType::Report => "report",
        ItemType::Statute => "statute",
        ItemType::TvBroadcast => "tvBroadcast",
        ItemType::Thesis => "thesis",
        ItemType::VideoRecording => "videoRecording",
        ItemType::Webpage => "webpage",
    }
}

/// Looks up the item type registered under wire tag `s`.
pub fn item_type_from_tag(s: &str) -> (r: Option<ItemType>)
    ensures
        r == spec_item_type_from_tag(s@),
{
    if str_eq(s, "artwork") {
        Some(ItemType::Artwork)
    } else if str_eq(s, "audioRecording") {
        Some(ItemType::AudioRecording)
    } else if str_eq(s, "bill") {
        Some(ItemType::Bill)
    } else if str_eq(s, "blogPost") {
        Some(ItemType::BlogPost)
    } else if str_eq(s, "book") {
        Some(ItemType::Book)
    } else if str_eq(s, "bookSection") {
        Some(ItemType::BookSection)
    } else if str_eq(s, "case") {
        Some(ItemType::Case)
    } else if str_eq(s, "computerProgram") {
        Some(ItemType::ComputerProgram)
    } else if str_eq(s, "conferencePaper") {
        Some(ItemType::ConferencePaper)
    } else if str_eq(s, "dictionaryEntry") {
        Some(ItemType::DictionaryEntry)
    } else if str_eq(s, "document") {
        Some(ItemType::Document)
    } else if str_eq(s, "email") {
        Some(ItemType::Email)
    } else if str_eq(s, "encyclopediaArticle") {
        Some(ItemType::EncyclopediaArticle)
    } else if str_eq(s, "film") {
        Some(ItemType::Film)
    } else if str_eq(s, "forumPost") {
        Some(ItemType::ForumPost)
    } else if str_eq(s, "hearing") {
        Some(ItemType::Hearing)
    } else if str_eq(s, "instantMessage") {
        Some(ItemType::InstantMessage)
    } else if str_eq(s, "interview") {
        Some(ItemType::Interview)
    } else if str_eq(s, "journalArticle") {
        Some(ItemType::JournalArticle)
    } else if str_eq(s, "letter") {
        Some(ItemType::Letter)
    } else if str_eq(s, "magazineArticle") {
        Some(ItemType::MagazineArticle)
    } else if str_eq(s, "manuscript") {
        Some(ItemType::Manuscript)
    } else if str_eq(s, "map") {
        Some(ItemType::MapItem)
    } else if str_eq(s, "newspaperArticle") {
        Some(ItemType::NewspaperArticle)
    } else if str_eq(s, "note") {
        Some(ItemType::Note)
    } else if str_eq(s, "patent") {
        Some(ItemType::Patent)
    } else if str_eq(s, "podcast") {
        Some(ItemType::Podcast)
    } else if str_eq(s, "presentation") {
        Some(ItemType::Presentation)
    } else if str_eq(s, "radioBroadcast") {
        Some(ItemType::RadioBroadcast)
    } else if str_eq(s, "report") {
        Some(ItemType::Report)
    } else if str_eq(s, "statute") {
        Some(ItemType::Statute)
    } else if str_eq(s, "tvBroadcast") {
        Some(ItemType::TvBroadcast)
    } else if str_eq(s, "thesis") {
        Some(ItemType::Thesis)
    } else if str_eq(s, "videoRecording") {
        Some(ItemType::VideoRecording)
    } else if str_eq(s, "webpage") {
        Some(ItemType::Webpage)
    } else {
        None
    }
}

/// Looks up the modeled field spelled `name`.
pub fn field_id_of(name: &str) -> (r: Option<FieldId>)
    ensures
        r == spec_field_id_of(name@),
{
    if str_eq(name, "title") {
        Some(FieldId::Title)
    } else if str_eq(name, "bookTitle") {
        Some(FieldId::BookTitle)
    } else if str_eq(name, "creators") {
        Some(FieldId::Creators)
    } else if str_eq(name, "abstractNote") {
        Some(FieldId::AbstractNote)
    } else if str_eq(name, "artworkMedium") {
        Some(FieldId::ArtworkMedium)
    } else if str_eq(name, "artworkSize") {
        Some(FieldId::ArtworkSize)
    } else if str_eq(name, "series") {
        Some(FieldId::Series)
    } else if str_eq(name, "seriesNumber") {
        Some(FieldId::SeriesNumber)
    } else if str_eq(name, "volume") {
        Some(FieldId::Volume)
    } else if str_eq(name, "numberOfVolumes") {
        Some(FieldId::NumberOfVolumes)
    } else if str_eq(name, "edition") {
        Some(FieldId::Edition)
    } else if str_eq(name, "place") {
        Some(FieldId::Place)
    } else if str_eq(name, "publisher") {
        Some(FieldId::Publisher)
    } else if str_eq(name, "numPages") {
        Some(FieldId::NumPages)
    } else if str_eq(name, "ISBN") {
        Some(FieldId::Isbn)
    } else if str_eq(name, "date") {
        Some(FieldId::Date)
    } else if str_eq(name, "language") {
        Some(FieldId::Language)
    } else if str_eq(name, "shortTitle") {
        Some(FieldId::ShortTitle)
    } else if str_eq(name, "url") {
        Some(FieldId::Url)
    } else if str_eq(name, "accessDate") {
        Some(FieldId::AccessDate)
    } else if str_eq(name, "archive") {
        Some(FieldId::Archive)
    } else if str_eq(name, "archiveLocation") {
        Some(FieldId::ArchiveLocation)
    } else if str_eq(name, "libraryCatalog") {
        Some(FieldId::LibraryCatalog)
    } else if str_eq(name, "callNumber") {
        Some(FieldId::CallNumber)
    } else if str_eq(name, "rights") {
        Some(FieldId::Rights)
    } else if str_eq(name, "extra") {
        Some(FieldId::Extra)
    } else if str_eq(name, "tags") {
        Some(FieldId::Tags)
    } else if str_eq(name, "collections") {
        Some(FieldId::Collections)
    } else if str_eq(name, "relations") {
        Some(FieldId::Relations)
    } else {
        None
    }
}

/// Whether `name` is a reserved envelope member.
pub fn is_reserved(name: &str) -> (r: bool)
    ensures
        r == spec_reserved(name@),
{
    str_eq(name, "itemType") || str_eq(name, "key") || str_eq(name, "version") || str_eq(
        name,
        "libraryId",
    )
}

/// Whether variant `t`'s schema contains field `f`.
pub fn in_schema(t: ItemType, f: FieldId) -> (r: bool)
    ensures
        r == spec_in_schema(t, f),
{
    if matches!(
        f,
        FieldId::AbstractNote | FieldId::Date | FieldId::Language | FieldId::ShortTitle
            | FieldId::Url | FieldId::AccessDate | FieldId::Archive | FieldId::ArchiveLocation
            | FieldId::LibraryCatalog | FieldId::CallNumber | FieldId::Rights | FieldId::Extra
            | FieldId::Tags | FieldId::Collections | FieldId::Relations | FieldId::Title
            | FieldId::Creators
    ) {
        return true;
    }
    match t {
        ItemType::Artwork => matches!(f, FieldId::ArtworkMedium | FieldId::ArtworkSize),
        ItemType::Book => matches!(
            f,
            FieldId::Series | FieldId::SeriesNumber | FieldId::Volume | FieldId::NumberOfVolumes
                | FieldId::Edition | FieldId::Place | FieldId::Publisher | FieldId::NumPages
                | FieldId::Isbn
        ),
        ItemType::BookSection => matches!(
            f,
            FieldId::Series | FieldId::SeriesNumber | FieldId::Volume | FieldId::NumberOfVolumes
                | FieldId::Edition | FieldId::Place | FieldId::Publisher | FieldId::NumPages
                | FieldId::Isbn | FieldId::BookTitle
        ),
        _ => false,
    }
}

/// The order in which the registry lists a variant's fields.
pub open spec fn spec_field_order(t: ItemType) -> Seq<FieldId> {
    spec_head_order(t) + spec_common_order()
}

/// The shared tail of every variant's field list.
pub open spec fn spec_common_order() -> Seq<FieldId> {
    seq![
        FieldId::AbstractNote,
        FieldId::Date,
        FieldId::Language,
        FieldId::ShortTitle,
        FieldId::Url,
        FieldId::AccessDate,
        FieldId::Archive,
        FieldId::ArchiveLocation,
        FieldId::LibraryCatalog,
        FieldId::CallNumber,
        FieldId::Rights,
        FieldId::Extra,
        FieldId::Tags,
        FieldId::Collections,
        FieldId::Relations,
    ]
}

/// The variant-specific head of a field list.
pub open spec fn spec_head_order(t: ItemType) -> Seq<FieldId> {
    match t {
        ItemType::Artwork => seq![
            FieldId::Title,
            FieldId::Creators,
            FieldId::ArtworkMedium,
            FieldId::ArtworkSize,
        ],
        ItemType::Book => seq![
            FieldId::Title,
            FieldId::Creators,
            FieldId::Series,
            FieldId::SeriesNumber,
            FieldId::Volume,
            FieldId::NumberOfVolumes,
            FieldId::Edition,
            FieldId::Place,
            FieldId::Publisher,
            FieldId::NumPages,
            FieldId::Isbn,
        ],
        ItemType::BookSection => seq![
            FieldId::Title,
            FieldId::BookTitle,
            FieldId::Creators,
            FieldId::Series,
            FieldId::SeriesNumber,
            FieldId::Volume,
            FieldId::NumberOfVolumes,
            FieldId::Edition,
            FieldId::Place,
            FieldId::Publisher,
            FieldId::NumPages,
            FieldId::Isbn,
        ],
        _ => seq![FieldId::Title, FieldId::Creators],
    }
}

/// Returns the wire spelling of field `f`.
pub fn field_name(f: FieldId) -> (r: &'static str)
    ensures
        r@ == spec_field_name(f),
{
    match f {
        FieldId::Title => "title",
        FieldId::BookTitle => "bookTitle",
        FieldId::Creators => "creators",
        FieldId::AbstractNote => "abstractNote",
        FieldId::ArtworkMedium => "artworkMedium",
        FieldId::ArtworkSize => "artworkSize",
        FieldId::Series => "series",
        FieldId::SeriesNumber => "seriesNumber",
        FieldId::Volume => "volume",
        FieldId::NumberOfVolumes => "numberOfVolumes",
        FieldId::Edition => "edition",
        FieldId::Place => "place",
        FieldId::Publisher => "publisher",
        FieldId::NumPages => "numPages",
        FieldId::Isbn => "ISBN",
        FieldId::Date => "date",
        FieldId::Language => "language",
        FieldId::ShortTitle => "shortTitle",
        FieldId::Url => "url",
        FieldId::AccessDate => "accessDate",
        FieldId::Archive => "archive",
        FieldId::ArchiveLocation => "archiveLocation",
        FieldId::LibraryCatalog => "libraryCatalog",
        FieldId::CallNumber => "callNumber",
        FieldId::Rights => "rights",
        FieldId::Extra => "extra",
        FieldId::Tags => "tags",
        FieldId::Collections => "collections",
        FieldId::Relations => "relations",
    }
}

/// Whether variant `t`'s schema requires field `f`.
pub fn is_required(t: ItemType, f: FieldId) -> (r: bool)
    ensures
        r == spec_required(t, f),
{
    match f {
        FieldId::Title => matches!(t, ItemType::Artwork | ItemType::Book | ItemType::BookSection),
        FieldId::BookTitle => matches!(t, ItemType::BookSection),
        FieldId::NumberOfVolumes => matches!(t, ItemType::Book | ItemType::BookSection),
        _ => false,
    }
}

/// Returns the value kind of field `f`.
pub fn kind_of(f: FieldId) -> (r: FieldKind)
    ensures
        r == spec_kind(f),
{
    match f {
        FieldId::NumberOfVolumes | FieldId::NumPages => FieldKind::Number,
        FieldId::Creators => FieldKind::CreatorList,
        FieldId::Tags => FieldKind::TagList,
        FieldId::Collections => FieldKind::CollectionList,
        FieldId::Relations => FieldKind::RelationMap,
        _ => FieldKind::Text,
    }
}

/// Builds the ordered field-identifier list of variant `t`.
fn field_order_vec(t: ItemType) -> (r: Vec<FieldId>)
    ensures
        r@ == spec_field_order(t),
{
    let mut r: Vec<FieldId> = Vec::new();
    match t {
        ItemType::Artwork => {
            r.push(FieldId::Title);
            r.push(FieldId::Creators);
            r.push(FieldId::ArtworkMedium);
            r.push(FieldId::ArtworkSize);
        },
        ItemType::Book => {
            r.push(FieldId::Title);
            r.push(FieldId::Creators);
            r.push(FieldId::Series);
            r.push(FieldId::SeriesNumber);
            r.push(FieldId::Volume);
            r.push(FieldId::NumberOfVolumes);
            r.push(FieldId::Edition);
            r.push(FieldId::Place);
            r.push(FieldId::Publisher);
            r.push(FieldId::NumPages);
            r.push(FieldId::Isbn);
        },
        ItemType::BookSection => {
            r.push(FieldId::Title);
            r.push(FieldId::BookTitle);
            r.push(FieldId::Creators);
            r.push(FieldId::Series);
            r.push(FieldId::SeriesNumber);
            r.push(FieldId::Volume);
            r.push(FieldId::NumberOfVolumes);
            r.push(FieldId::Edition);
            r.push(FieldId::Place);
            r.push(FieldId::Publisher);
            r.push(FieldId::NumPages);
            r.push(FieldId::Isbn);
        },
        _ => {
            r.push(FieldId::Title);
            r.push(FieldId::Creators);
        },
    }
    proof {
        assert(r@ =~= spec_head_order(t));
    }
    r.push(FieldId::AbstractNote);
    r.push(FieldId::Date);
    r.push(FieldId::Language);
    r.push(FieldId::ShortTitle);
    r.push(FieldId::Url);
    r.push(FieldId::AccessDate);
    r.push(FieldId::Archive);
    r.push(FieldId::ArchiveLocation);
    r.push(FieldId::LibraryCatalog);
    r.push(FieldId::CallNumber);
    r.push(FieldId::Rights);
    r.push(FieldId::Extra);
    r.push(FieldId::Tags);
    r.push(FieldId::Collections);
    r.push(FieldId::Relations);
    proof {
        assert(r@ =~= spec_field_order(t));
    }
    r
}

/// Returns variant `t`'s schema: its fields in registry order, each with
/// its wire name, whether it is required, and its value kind. The registry
/// is a pure table; this is its only lookup and it cannot fail.
pub fn schema(t: ItemType) -> (r: Vec<FieldDescriptor>)
    ensures
        r@.len() == spec_field_order(t).len(),
        forall|i: int|
            0 <= i < r@.len() ==> {
                let f = spec_field_order(t)[i];
                &&& (#[trigger] r@[i]).name@ == spec_field_name(f)
                &&& r@[i].required == spec_required(t, f)
                &&& r@[i].kind == spec_kind(f)
                &&& spec_in_schema(t, f)
            },
{
    let ids = field_order_vec(t);
    let mut r: Vec<FieldDescriptor> = Vec::new();
    let mut i: usize = 0;
    while i < ids.len()
        invariant
            ids@ == spec_field_order(t),
            i <= ids@.len(),
            r@.len() == i,
            forall|j: int|
                0 <= j < i ==> {
                    let f = spec_field_order(t)[j];
                    &&& (#[trigger] r@[j]).name@ == spec_field_name(f)
                    &&& r@[j].required == spec_required(t, f)
                    &&& r@[j].kind == spec_kind(f)
                    &&& spec_in_schema(t, f)
                },
        decreases ids@.len() - i,
    {
        let f = ids[i];
        proof {
            assert(spec_in_schema(t, spec_field_order(t)[i as int]));
        }
        let name = field_name(f).to_owned();
        let d = FieldDescriptor { name, required: is_required(t, f), kind: kind_of(f) };
        r.push(d);
        i += 1;
    }
    r
}

} // verus!
