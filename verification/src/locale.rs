//! The localizer: a human-readable display name for each item-type
//! variant. An unsupported locale is never an error: the canonical
//! English label is the fallback.

use vstd::prelude::*;
use vstd::string::StringExecFns;
use crate::model::{Item, ItemType};
use crate::strutil::str_eq;

verus! {

/// The canonical English display label of each item type.
pub open spec fn spec_en_label(t: ItemType) -> Seq<char> {
    match t {
        ItemType::Artwork => "Artwork"@,
        ItemType::AudioRecording => "Audio Recording"@,
        ItemType::Bill => "Bill"@,
        ItemType::BlogPost => "Blog Post"@,
        ItemType::Book => "Book"@,
        ItemType::BookSection => "Book Section"@,
        ItemType::Case => "Case"@,
        ItemType::ComputerProgram => "Computer Program"@,
        ItemType::ConferencePaper => "Conference Paper"@,
        ItemType::DictionaryEntry => "Dictionary Entry"@,
        ItemType::Document => "Document"@,
        ItemType::Email => "E-mail"@,
        ItemType::EncyclopediaArticle => "Encyclopedia Article"@,
        ItemType::Film => "Film"@,
        ItemType::ForumPost => "Forum Post"@,
        ItemType::Hearing => "Hearing"@,
        ItemType::InstantMessage => "Instant Message"@,
        ItemType::Interview => "Interview"@,
        ItemType::JournalArticle => "Journal Article"@,
        ItemType::Letter => "Letter"@,
        ItemType::MagazineArticle => "Magazine Article"@,
        ItemType::Manuscript => "Manuscript"@,
        ItemType::MapItem => "Map"@,
        ItemType::NewspaperArticle => "Newspaper Article"@,
        ItemType::Note => "Note"@,
        ItemType::Patent => "Patent"@,
        ItemType::Podcast => "Podcast"@,
        ItemType::Presentation => "Presentation"@,
        ItemType::RadioBroadcast => "Radio Broadcast"@,
        ItemType::Report => "Report"@,
        ItemType::Statute => "Statute"@,
        ItemType::TvBroadcast => "TV Broadcast"@,
        ItemType::Thesis => "Thesis"@,
        ItemType::VideoRecording => "Video Recording"@,
        ItemType::Webpage => "Web Page"@,
    }
}

/// The French display label of each item type.
pub open spec fn spec_fr_label(t: ItemType) -> Seq<char> {
    match t {
        ItemType::Artwork => "Illustration"@,
        ItemType::AudioRecording => "Enregistrement audio"@,
        ItemType::Bill => "Projet de loi"@,
        ItemType::BlogPost => "Billet de blog"@,
        ItemType::Book => "Livre"@,
        ItemType::BookSection => "Chapitre de livre"@,
        ItemType::Case => "Affaire"@,
        ItemType::ComputerProgram => "Logiciel"@,
        ItemType::ConferencePaper => "Article de colloque"@,
        ItemType::DictionaryEntry => "Entree de dictionnaire"@,
        ItemType::Document => "Document"@,
        ItemType::Email => "Courriel"@,
        ItemType::EncyclopediaArticle => "Article d'encyclopedie"@,
        ItemType::Film => "Film"@,
        ItemType::ForumPost => "Message de forum"@,
        ItemType::Hearing => "Audience"@,
        ItemType::InstantMessage => "Message instantane"@,
        ItemType::Interview => "Entretien"@,
        ItemType::JournalArticle => "Article de revue"@,
        ItemType::Letter => "Lettre"@,
        ItemType::MagazineArticle => "Article de magazine"@,
        ItemType::Manuscript => "Manuscrit"@,
        ItemType::MapItem => "Carte"@,
        ItemType::NewspaperArticle => "Article de journal"@,
        ItemType::Note => "Note"@,
        ItemType::Patent => "Brevet"@,
        ItemType::Podcast => "Balado"@,
        ItemType::Presentation => "Presentation"@,
        ItemType::RadioBroadcast => "Emission de radio"@,
        ItemType::Report => "Rapport"@,
        ItemType::Statute => "Loi"@,
        ItemType::TvBroadcast => "Emission de television"@,
        ItemType::Thesis => "These"@,
        ItemType::VideoRecording => "Enregistrement video"@,
        ItemType::Webpage => "Page web"@,
    }
}

/// What the localizer shows: the French table when the locale asks for
/// it, the canonical English label for every other locale.
pub open spec fn spec_display_name(t: ItemType, locale: Seq<char>) -> Seq<char> {
    if locale == "fr"@ {
        spec_fr_label(t)
    } else {
        spec_en_label(t)
    }
}

/// Returns the display name of item type `t` for `locale`. An
/// unsupported locale falls back to the English label; there is no
/// error path.
pub fn display_name(t: ItemType, locale: &str) -> (r: String)
    ensures
        r@ == spec_display_name(t, locale@),
        locale@ == "fr"@ ==> r@ == spec_fr_label(t),
        locale@ != "fr"@ ==> r@ == spec_en_label(t),
{
    if str_eq(locale, "fr") {
        let s: &str = match t {
            ItemType::Artwork => "Illustration",
            ItemType::AudioRecording => "Enregistrement audio",
            ItemType::Bill => "Projet de loi",
            ItemType::BlogPost => "Billet de blog",
            ItemType::Book => "Livre",
            ItemType::BookSection => "Chapitre de livre",
            ItemType::Case => "Affaire",
            ItemType::ComputerProgram => "Logiciel",
            ItemType::ConferencePaper => "Article de colloque",
            ItemType::DictionaryEntry => "Entree de dictionnaire",
            ItemType::Document => "Document",
            ItemType::Email => "Courriel",
            ItemType::EncyclopediaArticle => "Article d'encyclopedie",
            ItemType::Film => "Film",
            ItemType::ForumPost => "Message de forum",
            ItemType::Hearing => "Audience",
            ItemType::InstantMessage => "Message instantane",
            ItemType::Interview => "Entretien",
            ItemType::JournalArticle => "Article de revue",
            ItemType::Letter => "Lettre",
            ItemType::MagazineArticle => "Article de magazine",
            ItemType::Manuscript => "Manuscrit",
            ItemType::MapItem => "Carte",
            ItemType::NewspaperArticle => "Article de journal",
            ItemType::Note => "Note",
            ItemType::Patent => "Brevet",
            ItemType::Podcast => "Balado",
            ItemType::Presentation => "Presentation",
            ItemType::RadioBroadcast => "Emission de radio",
            ItemType::Report => "Rapport",
            ItemType::Statute => "Loi",
            ItemType::TvBroadcast => "Emission de television",
            ItemType::Thesis => "These",
            ItemType::VideoRecording => "Enregistrement video",
            ItemType::Webpage => "Page web",
        };
        s.to_owned()
    } else {
        let s: &str = match t {
            ItemType::Artwork => "Artwork",
            ItemType::AudioRecording => "Audio Recording",
            ItemType::Bill => "Bill",
            ItemType::BlogPost => "Blog Post",
            ItemType::Book => "Book",
            ItemType::BookSection => "Book Section",
            ItemType::Case => "Case",
            ItemType::ComputerProgram => "Computer Program",
            ItemType::ConferencePaper => "Conference Paper",
            ItemType::DictionaryEntry => "Dictionary Entry",
            ItemType::Document => "Document",
            ItemType::Email => "E-mail",
            ItemType::EncyclopediaArticle => "Encyclopedia Article",
            ItemType::Film => "Film",
            ItemType::ForumPost => "Forum Post",
            ItemType::Hearing => "Hearing",
            ItemType::InstantMessage => "Instant Message",
            ItemType::Interview => "Interview",
            ItemType::JournalArticle => "Journal Article",
            ItemType::Letter => "Letter",
            ItemType::MagazineArticle => "Magazine Article",
            ItemType::Manuscript => "Manuscript",
            ItemType::MapItem => "Map",
            ItemType::NewspaperArticle => "Newspaper Article",
            ItemType::Note => "Note",
            ItemType::Patent => "Patent",
            ItemType::Podcast => "Podcast",
            ItemType::Presentation => "Presentation",
            ItemType::RadioBroadcast => "Radio Broadcast",
            ItemType::Report => "Report",
            ItemType::Statute => "Statute",
            ItemType::TvBroadcast => "TV Broadcast",
            ItemType::Thesis => "Thesis",
            ItemType::VideoRecording => "Video Recording",
            ItemType::Webpage => "Web Page",
        };
        s.to_owned()
    }
}

impl Item {
    /// Returns the display name of this item's type for `locale`,
    /// falling back to the English label when the locale has no table.
    pub fn localized(&self, locale: &str) -> (r: String)
        ensures
            r@ == spec_display_name(crate::model::spec_content_type(self.content), locale@),
    {
        display_name(self.content.item_type(), locale)
    }
}

} // verus!
