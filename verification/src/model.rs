use vstd::prelude::*;

verus! {

/// `chrono::NaiveDate`, the calendar day a link was submitted for. The
/// harvester never looks inside it.
#[verifier::external_type_specification]
#[verifier::external_body]
pub struct ExNaiveDate(chrono::NaiveDate);

/// `chrono::NaiveDateTime`, the UTC instant at which a change was observed.
/// The harvester never looks inside it.
#[verifier::external_type_specification]
#[verifier::external_body]
pub struct ExNaiveDateTime(chrono::NaiveDateTime);

/// The text of an optional string.
pub open spec fn text_of(value: Option<String>) -> Option<Seq<char>> {
    match value {
        Some(text) => Some(text@),
        None => None,
    }
}

/// A submitted link that waits for its metadata.
#[derive(Debug)]
pub struct PendingLinkRecord {
    pub id: i32,
    pub event_date: chrono::NaiveDate,
    pub raw_url: String,
    pub handled: bool,
}

/// Notice that a new pending record exists.
#[derive(Clone, Copy, Debug)]
pub struct ChangeEvent {
    pub id: i32,
    pub observed_at: chrono::NaiveDateTime,
}

/// The parts of an absolute URL that the harvester stores.
#[derive(Clone, Debug)]
pub struct ParsedUrl {
    pub scheme: String,
    pub host: String,
    pub path: String,
}

/// A `ParsedUrl` as texts.
pub struct ParsedUrlView {
    pub scheme: Seq<char>,
    pub host: Seq<char>,
    pub path: Seq<char>,
}

impl View for ParsedUrl {
    type V = ParsedUrlView;

    open spec fn view(&self) -> ParsedUrlView {
        ParsedUrlView { scheme: self.scheme@, host: self.host@, path: self.path@ }
    }
}

/// A pending record whose link is a well-formed absolute URL with a host.
#[derive(Clone, Debug)]
pub struct ParsedLink {
    pub id: i32,
    pub raw_url: String,
    pub parsed_url: ParsedUrl,
}

/// A `ParsedLink` as plain values.
pub struct ParsedLinkView {
    pub id: i32,
    pub raw_url: Seq<char>,
    pub parsed_url: ParsedUrlView,
}

impl View for ParsedLink {
    type V = ParsedLinkView;

    open spec fn view(&self) -> ParsedLinkView {
        ParsedLinkView { id: self.id, raw_url: self.raw_url@, parsed_url: self.parsed_url@ }
    }
}

/// What a page says about itself.
#[derive(Clone, Debug)]
pub struct PageMetadata {
    pub title: Option<String>,
    pub description: Option<String>,
}

/// A `PageMetadata` as texts.
pub struct PageMetadataView {
    pub title: Option<Seq<char>>,
    pub description: Option<Seq<char>>,
}

impl View for PageMetadata {
    type V = PageMetadataView;

    open spec fn view(&self) -> PageMetadataView {
        PageMetadataView { title: text_of(self.title), description: text_of(self.description) }
    }
}

/// The enriched record that closes the handling of one pending record.
#[derive(Clone, Debug)]
pub struct FinalizedLinkRecord {
    pub pending_id: i32,
    pub url: String,
    pub url_scheme: String,
    pub url_host: String,
    pub url_path: Option<String>,
    pub reachable: bool,
    pub title: Option<String>,
    pub description: Option<String>,
}

/// A `FinalizedLinkRecord` as plain values.
pub struct FinalizedLinkView {
    pub pending_id: i32,
    pub url: Seq<char>,
    pub url_scheme: Seq<char>,
    pub url_host: Seq<char>,
    pub url_path: Option<Seq<char>>,
    pub reachable: bool,
    pub title: Option<Seq<char>>,
    pub description: Option<Seq<char>>,
}

impl View for FinalizedLinkRecord {
    type V = FinalizedLinkView;

    open spec fn view(&self) -> FinalizedLinkView {
        FinalizedLinkView {
            pending_id: self.pending_id,
            url: self.url@,
            url_scheme: self.url_scheme@,
            url_host: self.url_host@,
            url_path: text_of(self.url_path),
            reachable: self.reachable,
            title: text_of(self.title),
            description: text_of(self.description),
        }
    }
}

} // verus!
