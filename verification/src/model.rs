//! The typed in-memory form of an item record: metadata, the tagged union
//! of item-type variants, creators, and the small semantic text wrappers.

use vstd::prelude::*;
use crate::json::JsonValue;

verus! {

/// A URL kept verbatim, never parsed or validated.
#[derive(Debug, Clone, PartialEq, Eq)]
pub struct Url(pub String);

/// An ISBN kept verbatim; non-canonical forms are tolerated.
#[derive(Debug, Clone, PartialEq, Eq)]
pub struct Isbn(pub String);

/// A date string kept verbatim, to tolerate the service's loose formats.
#[derive(Debug, Clone, PartialEq, Eq)]
pub struct Date(pub String);

/// An opaque reference to a collection, by its key.
#[derive(Debug, Clone, PartialEq, Eq)]
pub struct CollectionId(pub String);

/// A creator's name: either split into parts or one merged display string.
#[derive(Debug, Clone, PartialEq, Eq)]
pub enum Name {
    /// Personal name split into parts; a name may have only one part.
    Split { first: Option<String>, last: Option<String> },
    /// A single display string, used for organizations.
    Merged(String),
}

/// A contributor to an item, tagged with a role. Roles the service added
/// after this library's enumeration arrive as [`Creator::Raw`] and are
/// preserved rather than rejected.
#[derive(Debug, Clone, PartialEq, Eq)]
pub enum Creator {
    Author(Name),
    Contributor(Name),
    Editor(Name),
    SeriesEditor(Name),
    Translator(Name),
    /// A creator whose role string is not in the known enumeration.
    Raw { role: String, name: Name },
}

/// The wire tag of each known creator role.
pub open spec fn spec_role_tag(c: Creator) -> Seq<char> {
    match c {
        Creator::Author(_) => "author"@,
        Creator::Contributor(_) => "contributor"@,
        Creator::Editor(_) => "editor"@,
        Creator::SeriesEditor(_) => "seriesEditor"@,
        Creator::Translator(_) => "translator"@,
        Creator::Raw { role, .. } => role@,
    }
}

/// Whether `s` is the wire tag of a known creator role.
pub open spec fn is_known_role(s: Seq<char>) -> bool {
    ||| s == "author"@
    ||| s == "contributor"@
    ||| s == "editor"@
    ||| s == "seriesEditor"@
    ||| s == "translator"@
}

/// A well-formed creator never hides a known role behind [`Creator::Raw`]:
/// such a value could not survive a decode of its own encoding.
pub open spec fn wf_creator(c: Creator) -> bool {
    match c {
        Creator::Raw { role, .. } => !is_known_role(role@),
        _ => true,
    }
}

/// One relation predicate with its values; the service allows several
/// values under one predicate.
#[derive(Debug, Clone, PartialEq, Eq)]
pub struct Relation {
    pub predicate: String,
    pub values: Vec<String>,
}

/// The optional fields shared by every item-type variant, the ordered
/// collections, and the pocket of unmodeled fields kept for round-tripping.
#[derive(Debug, PartialEq, Eq)]
pub struct CommonFields {
    pub abstract_note: Option<String>,
    pub date: Option<String>,
    pub language: Option<String>,
    pub short_title: Option<String>,
    pub archive: Option<String>,
    pub archive_location: Option<String>,
    pub library_catalog: Option<String>,
    pub call_number: Option<String>,
    pub url: Option<Url>,
    pub access_date: Option<Date>,
    pub rights: Option<String>,
    pub extra: Option<String>,
    /// Ordered; duplicates are preserved as received.
    pub tags: Vec<String>,
    pub collections: Vec<CollectionId>,
    /// Relation predicates in the order received, unknown ones preserved.
    pub relations: Vec<Relation>,
    /// Fields outside the variant's schema, preserved verbatim.
    pub unknown: Vec<(String, JsonValue)>,
}

impl CommonFields {
    /// A common-field group with nothing present.
    pub fn empty() -> (r: CommonFields)
        ensures
            r.abstract_note is None,
            r.date is None,
            r.language is None,
            r.short_title is None,
            r.archive is None,
            r.archive_location is None,
            r.library_catalog is None,
            r.call_number is None,
            r.url is None,
            r.access_date is None,
            r.rights is None,
            r.extra is None,
            r.tags@ == Seq::<String>::empty(),
            r.collections@ == Seq::<CollectionId>::empty(),
            r.relations@ == Seq::<Relation>::empty(),
            r.unknown@ == Seq::<(String, JsonValue)>::empty(),
    {
        CommonFields {
            abstract_note: None,
            date: None,
            language: None,
            short_title: None,
            archive: None,
            archive_location: None,
            library_catalog: None,
            call_number: None,
            url: None,
            access_date: None,
            rights: None,
            extra: None,
            tags: Vec::new(),
            collections: Vec::new(),
            relations: Vec::new(),
            unknown: Vec::new(),
        }
    }
}

/// Fields specific to the book-like variants.
#[derive(Debug, Clone, PartialEq, Eq)]
pub struct BookishFields {
    pub series: Option<String>,
    pub series_number: Option<String>,
    pub volume: Option<String>,
    pub number_of_volumes: u16,
    pub edition: Option<String>,
    pub place: Option<String>,
    pub publisher: Option<String>,
    pub num_pages: Option<u16>,
    pub isbn: Option<Isbn>,
}

/// Payload of the Artwork variant.
#[derive(Debug, PartialEq, Eq)]
pub struct ArtworkFields {
    pub title: String,
    pub creators: Vec<Creator>,
    pub artwork_medium: Option<String>,
    pub artwork_size: Option<String>,
    pub common: CommonFields,
}

/// Payload of the Book variant.
#[derive(Debug, PartialEq, Eq)]
pub struct BookFields {
    pub title: String,
    pub creators: Vec<Creator>,
    pub bookish: BookishFields,
    pub common: CommonFields,
}

/// Payload of the BookSection variant.
#[derive(Debug, PartialEq, Eq)]
pub struct BookSectionFields {
    pub title: String,
    pub book_title: String,
    pub creators: Vec<Creator>,
    pub bookish: BookishFields,
    pub common: CommonFields,
}

/// Payload of the variants whose type-specific field set the service has
/// not fixed: the shared optional fields only.
#[derive(Debug, PartialEq, Eq)]
pub struct GenericFields {
    pub title: Option<String>,
    pub creators: Vec<Creator>,
    pub common: CommonFields,
}

/// The closed set of item-type variants.
#[derive(Debug, Clone, Copy, PartialEq, Eq, Structural)]
pub enum ItemType {
    Artwork,
    AudioRecording,
    Bill,
    BlogPost,
    Book,
    BookSection,
    Case,
    ComputerProgram,
    ConferencePaper,
    DictionaryEntry,
    Document,
    Email,
    EncyclopediaArticle,
    Film,
    ForumPost,
    Hearing,
    InstantMessage,
    Interview,
    JournalArticle,
    Letter,
    MagazineArticle,
    Manuscript,
    MapItem,
    NewspaperArticle,
    Note,
    Patent,
    Podcast,
    Presentation,
    RadioBroadcast,
    Report,
    Statute,
    TvBroadcast,
    Thesis,
    VideoRecording,
    Webpage,
}

/// The content of an item: exactly one variant is active, and the tag is
/// immutable once decoded.
#[derive(Debug, PartialEq, Eq)]
pub enum Content {
    Artwork(ArtworkFields),
    AudioRecording(GenericFields),
    Bill(GenericFields),
    BlogPost(GenericFields),
    Book(BookFields),
    BookSection(BookSectionFields),
    Case(GenericFields),
    ComputerProgram(GenericFields),
    ConferencePaper(GenericFields),
    DictionaryEntry(GenericFields),
    Document(GenericFields),
    Email(GenericFields),
    EncyclopediaArticle(GenericFields),
    Film(GenericFields),
    ForumPost(GenericFields),
    Hearing(GenericFields),
    InstantMessage(GenericFields),
    Interview(GenericFields),
    JournalArticle(GenericFields),
    Letter(GenericFields),
    MagazineArticle(GenericFields),
    Manuscript(GenericFields),
    MapItem(GenericFields),
    NewspaperArticle(GenericFields),
    Note(GenericFields),
    Patent(GenericFields),
    Podcast(GenericFields),
    Presentation(GenericFields),
    RadioBroadcast(GenericFields),
    Report(GenericFields),
    Statute(GenericFields),
    TvBroadcast(GenericFields),
    Thesis(GenericFields),
    VideoRecording(GenericFields),
    Webpage(GenericFields),
}

/// The item-type tag of a content value.
pub open spec fn spec_content_type(c: Content) -> ItemType {
    match c {
        Content::Artwork(_) => ItemType::Artwork,
        Content::AudioRecording(_) => ItemType::AudioRecording,
        Content::Bill(_) => ItemType::Bill,
        Content::BlogPost(_) => ItemType::BlogPost,
        Content::Book(_) => ItemType::Book,
        Content::BookSection(_) => ItemType::BookSection,
        Content::Case(_) => ItemType::Case,
        Content::ComputerProgram(_) => ItemType::ComputerProgram,
        Content::ConferencePaper(_) => ItemType::ConferencePaper,
        Content::DictionaryEntry(_) => ItemType::DictionaryEntry,
        Content::Document(_) => ItemType::Document,
        Content::Email(_) => ItemType::Email,
        Content::EncyclopediaArticle(_) => ItemType::EncyclopediaArticle,
        Content::Film(_) => ItemType::Film,
        Content::ForumPost(_) => ItemType::ForumPost,
        Content::Hearing(_) => ItemType::Hearing,
        Content::InstantMessage(_) => ItemType::InstantMessage,
        Content::Interview(_) => ItemType::Interview,
        Content::JournalArticle(_) => ItemType::JournalArticle,
        Content::Letter(_) => ItemType::Letter,
        Content::MagazineArticle(_) => ItemType::MagazineArticle,
        Content::Manuscript(_) => ItemType::Manuscript,
        Content::MapItem(_) => ItemType::MapItem,
        Content::NewspaperArticle(_) => ItemType::NewspaperArticle,
        Content::Note(_) => ItemType::Note,
        Content::Patent(_) => ItemType::Patent,
        Content::Podcast(_) => ItemType::Podcast,
        Content::Presentation(_) => ItemType::Presentation,
        Content::RadioBroadcast(_) => ItemType::RadioBroadcast,
        Content::Report(_) => ItemType::Report,
        Content::Statute(_) => ItemType::Statute,
        Content::TvBroadcast(_) => ItemType::TvBroadcast,
        Content::Thesis(_) => ItemType::Thesis,
        Content::VideoRecording(_) => ItemType::VideoRecording,
        Content::Webpage(_) => ItemType::Webpage,
    }
}

impl Content {
    /// Returns the item-type tag of this content.
    pub fn item_type(&self) -> (t: ItemType)
        ensures
            t == spec_content_type(*self),
    {
        match self {
            Content::Artwork(_) => ItemType::Artwork,
            Content::AudioRecording(_) => ItemType::AudioRecording,
            Content::Bill(_) => ItemType::Bill,
            Content::BlogPost(_) => ItemType::BlogPost,
            Content::Book(_) => ItemType::Book,
            Content::BookSection(_) => ItemType::BookSection,
            Content::Case(_) => ItemType::Case,
            Content::ComputerProgram(_) => ItemType::ComputerProgram,
            Content::ConferencePaper(_) => ItemType::ConferencePaper,
            Content::DictionaryEntry(_) => ItemType::DictionaryEntry,
            Content::Document(_) => ItemType::Document,
            Content::Email(_) => ItemType::Email,
            Content::EncyclopediaArticle(_) => ItemType::EncyclopediaArticle,
            Content::Film(_) => ItemType::Film,
            Content::ForumPost(_) => ItemType::ForumPost,
            Content::Hearing(_) => ItemType::Hearing,
            Content::InstantMessage(_) => ItemType::InstantMessage,
            Content::Interview(_) => ItemType::Interview,
            Content::JournalArticle(_) => ItemType::JournalArticle,
            Content::Letter(_) => ItemType::Letter,
            Content::MagazineArticle(_) => ItemType::MagazineArticle,
            Content::Manuscript(_) => ItemType::Manuscript,
            Content::MapItem(_) => ItemType::MapItem,
            Content::NewspaperArticle(_) => ItemType::NewspaperArticle,
            Content::Note(_) => ItemType::Note,
            Content::Patent(_) => ItemType::Patent,
            Content::Podcast(_) => ItemType::Podcast,
            Content::Presentation(_) => ItemType::Presentation,
            Content::RadioBroadcast(_) => ItemType::RadioBroadcast,
            Content::Report(_) => ItemType::Report,
            Content::Statute(_) => ItemType::Statute,
            Content::TvBroadcast(_) => ItemType::TvBroadcast,
            Content::Thesis(_) => ItemType::Thesis,
            Content::VideoRecording(_) => ItemType::VideoRecording,
            Content::Webpage(_) => ItemType::Webpage,
        }
    }
}

/// One item record: metadata and the active content variant.
#[derive(Debug, PartialEq, Eq)]
pub struct Item {
    /// The service's stable identifier for the item.
    pub key: String,
    /// The revision count of the item, assigned by the service.
    pub version: u64,
    /// The identifier of the library that owns the item.
    pub library_id: u64,
    /// The active item-type variant with its fields.
    pub content: Content,
}

/// Why a decode was refused. Every error is a returned value; decoding
/// never panics.
#[derive(Debug, Clone, PartialEq, Eq)]
pub enum DecodeError {
    /// The type discriminator names no registered item type.
    UnknownItemType,
    /// A field the variant's schema requires is absent (field name).
    MissingRequiredField(String),
    /// A field is present with the wrong shape (field name, reason).
    InvalidFieldValue(String, String),
}

} // verus!
