use crate::error::SystemError;
use crate::model::{text_of, PageMetadata, PageMetadataView};
use vstd::prelude::*;

verus! {

/// The client header that identifies the harvester on every request.
pub const USER_AGENT: &'static str =
    "Mozilla/5.0 (X11; Linux x86_64; rv:88.0) Gecko/20100101 Firefox/88.0";

/// How many times a request is sent before the fetch is given up.
pub const MAX_ATTEMPTS: usize = 3;

/// The pause between two attempts, in milliseconds. It does not grow.
pub const RETRY_DELAY_MS: u64 = 500;

/// Selects the document's `<title>` element.
pub const TITLE_SELECTOR: &'static str = "title";

/// Selects the Open Graph title tag.
pub const OG_TITLE_SELECTOR: &'static str = "meta[property='og:title']";

/// Selects the Open Graph description tag.
pub const OG_DESCRIPTION_SELECTOR: &'static str = "meta[property='og:description']";

/// Selects the standard description tag.
pub const DESCRIPTION_SELECTOR: &'static str = "meta[name='description']";

/// The attribute of a meta tag that holds its value.
pub const CONTENT_ATTRIBUTE: &'static str = "content";

/// What `scraper` finds when `body` is parsed as an HTML document and searched
/// with the CSS selector `selector`: the value of `attribute` on the first
/// matching element in document order, `None` inside `Ok` where no element
/// matches or the first match lacks the attribute, and the parser's message
/// inside `Err` where `selector` is not a selector.
pub uninterp spec fn first_attribute(
    body: Seq<char>,
    selector: Seq<char>,
    attribute: Seq<char>,
) -> Result<Option<Seq<char>>, Seq<char>>;

/// What `scraper` finds when `body` is parsed as an HTML document and searched
/// with the CSS selector `selector`: the first text node below the first
/// matching element, `None` inside `Ok` where nothing matches or the match
/// holds no text, and the parser's message inside `Err` where `selector` is
/// not a selector.
pub uninterp spec fn first_text(body: Seq<char>, selector: Seq<char>) -> Result<
    Option<Seq<char>>,
    Seq<char>,
>;

/// The view of the result of a search.
pub open spec fn found_view(found: Result<Option<String>, String>) -> Result<
    Option<Seq<char>>,
    Seq<char>,
> {
    match found {
        Ok(value) => Ok(text_of(value)),
        Err(message) => Err(message@),
    }
}

/// `scraper::Selector::parse` on `selector`, `scraper::Html::parse_document`
/// on `body`, then `Html::select`, the iterator's first element and
/// `Element::attr` on it. The result is a function of the three texts alone;
/// the contract gives it its name and claims nothing else.
#[verifier::external_body]
fn select_first_attribute(body: &str, selector: &str, attribute: &str) -> (found: Result<
    Option<String>,
    String,
>)
    ensures
        found_view(found) == first_attribute(body@, selector@, attribute@),
{
    let selector = match scraper::Selector::parse(selector) {
        Ok(selector) => selector,
        Err(error) => return Err(error.to_string()),
    };
    let document = scraper::Html::parse_document(body);
    let first = document.select(&selector).next();
    Ok(first.and_then(|element| element.value().attr(attribute)).map(String::from))
}

/// `scraper::Selector::parse` on `selector`, `scraper::Html::parse_document`
/// on `body`, then `Html::select`, the iterator's first element and the first
/// item of `ElementRef::text` on it. The result is a function of the two texts
/// alone; the contract gives it its name and claims nothing else.
#[verifier::external_body]
fn select_first_text(body: &str, selector: &str) -> (found: Result<Option<String>, String>)
    ensures
        found_view(found) == first_text(body@, selector@),
{
    let selector = match scraper::Selector::parse(selector) {
        Ok(selector) => selector,
        Err(error) => return Err(error.to_string()),
    };
    let document = scraper::Html::parse_document(body);
    let first = document.select(&selector).next();
    Ok(first.and_then(|element| element.text().next()).map(String::from))
}

/// The four pieces of markup from which a page's metadata is taken.
pub struct PageSignals {
    pub og_title: Option<String>,
    pub title: Option<String>,
    pub og_description: Option<String>,
    pub description: Option<String>,
}

/// A `PageSignals` as texts.
pub struct PageSignalsView {
    pub og_title: Option<Seq<char>>,
    pub title: Option<Seq<char>>,
    pub og_description: Option<Seq<char>>,
    pub description: Option<Seq<char>>,
}

impl View for PageSignals {
    type V = PageSignalsView;

    open spec fn view(&self) -> PageSignalsView {
        PageSignalsView {
            og_title: text_of(self.og_title),
            title: text_of(self.title),
            og_description: text_of(self.og_description),
            description: text_of(self.description),
        }
    }
}

/// The preferred value where there is one, else the fallback.
pub open spec fn preferred(first: Option<Seq<char>>, fallback: Option<Seq<char>>) -> Option<
    Seq<char>,
> {
    if first is Some {
        first
    } else {
        fallback
    }
}

/// The metadata that the signals amount to: nothing where all four are
/// absent; otherwise the Open Graph title before the `<title>` text, and the
/// Open Graph description before the standard one.
pub open spec fn metadata_of(signals: PageSignalsView) -> Option<PageMetadataView> {
    if signals.og_title is None && signals.title is None && signals.og_description is None
        && signals.description is None {
        None
    } else {
        Some(
            PageMetadataView {
                title: preferred(signals.og_title, signals.title),
                description: preferred(signals.og_description, signals.description),
            },
        )
    }
}

/// The view of metadata that may be absent.
pub open spec fn metadata_view(metadata: Option<PageMetadata>) -> Option<PageMetadataView> {
    match metadata {
        Some(found) => Some(found@),
        None => None,
    }
}

/// The signals of the document `body`, or the message of the first selector
/// that was rejected, in the order title, Open Graph title, Open Graph
/// description, description.
pub open spec fn page_signals(body: Seq<char>) -> Result<PageSignalsView, Seq<char>> {
    match first_text(body, TITLE_SELECTOR@) {
        Err(message) => Err(message),
        Ok(title) => match first_attribute(body, OG_TITLE_SELECTOR@, CONTENT_ATTRIBUTE@) {
            Err(message) => Err(message),
            Ok(og_title) => match first_attribute(
                body,
                OG_DESCRIPTION_SELECTOR@,
                CONTENT_ATTRIBUTE@,
            ) {
                Err(message) => Err(message),
                Ok(og_description) => match first_attribute(
                    body,
                    DESCRIPTION_SELECTOR@,
                    CONTENT_ATTRIBUTE@,
                ) {
                    Err(message) => Err(message),
                    Ok(description) => Ok(
                        PageSignalsView { og_title, title, og_description, description },
                    ),
                },
            },
        },
    }
}

/// What a fetch is expected to end with on the document `body`.
pub open spec fn parsed_as(
    body: Seq<char>,
    result: Result<Option<PageMetadata>, SystemError>,
) -> bool {
    match result {
        Ok(metadata) => page_signals(body) matches Ok(signals) && metadata_view(metadata)
            == metadata_of(signals),
        Err(error) => page_signals(body) matches Err(message) && error matches SystemError::Selector(
            text,
        ) && text@ == message,
    }
}

/// Combines the four signals into the page's metadata, by the precedence of
/// `metadata_of`.
pub fn extract_metadata(signals: PageSignals) -> (metadata: Option<PageMetadata>)
    ensures
        metadata_view(metadata) == metadata_of(signals@),
{
    if signals.og_title.is_none() && signals.title.is_none() && signals.og_description.is_none()
        && signals.description.is_none() {
        return None;
    }
    let title = match signals.og_title {
        Some(text) => Some(text),
        None => signals.title,
    };
    let description = match signals.og_description {
        Some(text) => Some(text),
        None => signals.description,
    };
    Some(PageMetadata { title, description })
}

/// What a search is expected to end with, given what `scraper` finds.
pub open spec fn found_as(
    found: Result<Option<Seq<char>>, Seq<char>>,
    result: Result<Option<String>, SystemError>,
) -> bool {
    match result {
        Ok(value) => found == Ok::<Option<Seq<char>>, Seq<char>>(text_of(value)),
        Err(error) => found matches Err(message) && error matches SystemError::Selector(text)
            && text@ == message,
    }
}

/// Searches the document `body` with `selector` and reads `attribute` off
/// the first match. A selector that does not parse gives `Selector` with the
/// parser's message.
pub fn find_attribute(body: &str, selector: &str, attribute: &str) -> (result: Result<
    Option<String>,
    SystemError,
>)
    ensures
        found_as(first_attribute(body@, selector@, attribute@), result),
{
    match select_first_attribute(body, selector, attribute) {
        Ok(value) => Ok(value),
        Err(message) => Err(SystemError::Selector(message)),
    }
}

/// Searches the document `body` with `selector` and reads the first text
/// below the first match. A selector that does not parse gives `Selector`
/// with the parser's message.
pub fn find_text(body: &str, selector: &str) -> (result: Result<Option<String>, SystemError>)
    ensures
        found_as(first_text(body@, selector@), result),
{
    match select_first_text(body, selector) {
        Ok(value) => Ok(value),
        Err(message) => Err(SystemError::Selector(message)),
    }
}

/// Reads the four signals out of the document `body`.
pub fn read_signals(body: &str) -> (signals: Result<PageSignals, SystemError>)
    ensures
        match signals {
            Ok(found) => page_signals(body@) == Ok::<PageSignalsView, Seq<char>>(found@),
            Err(error) => page_signals(body@) matches Err(message)
                && error matches SystemError::Selector(text) && text@ == message,
        },
{
    let title = match find_text(body, TITLE_SELECTOR) {
        Ok(found) => found,
        Err(error) => return Err(error),
    };
    let og_title = match find_attribute(body, OG_TITLE_SELECTOR, CONTENT_ATTRIBUTE) {
        Ok(found) => found,
        Err(error) => return Err(error),
    };
    let og_description = match find_attribute(body, OG_DESCRIPTION_SELECTOR, CONTENT_ATTRIBUTE) {
        Ok(found) => found,
        Err(error) => return Err(error),
    };
    let description = match find_attribute(body, DESCRIPTION_SELECTOR, CONTENT_ATTRIBUTE) {
        Ok(found) => found,
        Err(error) => return Err(error),
    };
    Ok(PageSignals { og_title, title, og_description, description })
}

/// Extracts the metadata of the HTML document `body`: `Ok(None)` where the
/// page carries none of the four signals, which is no error.
pub fn parse_html(body: &str) -> (result: Result<Option<PageMetadata>, SystemError>)
    ensures
        parsed_as(body@, result),
{
    match read_signals(body) {
        Ok(signals) => Ok(extract_metadata(signals)),
        Err(error) => Err(error),
    }
}

/// A page that carries an Open Graph title is given that title, whatever its
/// `<title>` element says.
pub proof fn open_graph_title_is_preferred(
    body: Seq<char>,
    result: Result<Option<PageMetadata>, SystemError>,
)
    requires
        parsed_as(body, result),
        page_signals(body) matches Ok(signals) && signals.og_title is Some,
    ensures
        result matches Ok(Some(metadata)) && text_of(metadata.title) == page_signals(
            body,
        )->Ok_0.og_title,
{
}

/// A page without an Open Graph title is given the text of its `<title>`
/// element, and a page that has neither has no title.
pub proof fn title_element_is_the_fallback(
    body: Seq<char>,
    result: Result<Option<PageMetadata>, SystemError>,
)
    requires
        parsed_as(body, result),
        page_signals(body) matches Ok(signals) && signals.og_title is None,
    ensures
        result matches Ok(found) && (match found {
            Some(metadata) => text_of(metadata.title) == page_signals(body)->Ok_0.title,
            None => page_signals(body)->Ok_0.title is None,
        }),
{
}

/// A page that carries an Open Graph description is given it; otherwise the
/// standard description tag decides.
pub proof fn open_graph_description_is_preferred(
    body: Seq<char>,
    result: Result<Option<PageMetadata>, SystemError>,
)
    requires
        parsed_as(body, result),
        page_signals(body) is Ok,
    ensures
        result matches Ok(found) && (match found {
            Some(metadata) => text_of(metadata.description) == preferred(
                page_signals(body)->Ok_0.og_description,
                page_signals(body)->Ok_0.description,
            ),
            None => page_signals(body)->Ok_0.og_description is None && page_signals(
                body,
            )->Ok_0.description is None,
        }),
{
}

/// Extraction is empty exactly for a page on which all four signals are
/// absent.
pub proof fn no_signal_means_no_metadata(
    body: Seq<char>,
    result: Result<Option<PageMetadata>, SystemError>,
)
    requires
        parsed_as(body, result),
        page_signals(body) is Ok,
    ensures
        result is Ok,
        result->Ok_0 is None <==> {
            let signals = page_signals(body)->Ok_0;
            signals.og_title is None && signals.title is None && signals.og_description is None
                && signals.description is None
        },
{
}

/// How one attempt to fetch a page ended.
pub enum AttemptOutcome {
    /// A response arrived and its body was read.
    Body(String),
    /// A response arrived but its body could not be read; the text says why.
    BodyUnreadable(String),
    /// The request failed in transit (connection error, timeout); the text
    /// says why.
    SendFailed(String),
    /// The request could not be duplicated for sending.
    NotRepeatable,
}

/// What a fetch ends with: the page's metadata, `None` for a page without
/// any, or the reason the page could not be had.
pub type FetchOutcome = Result<Option<PageMetadata>, SystemError>;

/// A fetch in progress: the number of attempts that failed in transit.
pub struct Fetch {
    failures: usize,
}

/// What the caller of a fetch does next.
pub enum FetchStep {
    /// Wait `delay_ms` milliseconds, send the request again and report to
    /// `fetch`.
    Retry { fetch: Fetch, delay_ms: u64 },
    /// The fetch is over.
    Done(FetchOutcome),
}

/// Whether a fetch that has already seen `failures` failed attempts ends on
/// the next one.
pub open spec fn is_last_attempt(failures: nat) -> bool {
    failures + 1 >= MAX_ATTEMPTS
}

impl Fetch {
    /// The number of attempts that have failed in transit so far.
    pub closed spec fn failures(&self) -> nat {
        self.failures as nat
    }

    /// Fewer attempts have failed than may be made.
    pub closed spec fn wf(&self) -> bool {
        self.failures < MAX_ATTEMPTS
    }

    /// A fetch of which no attempt has been made. The caller sends the first
    /// request at once.
    pub fn new() -> (fetch: Fetch)
        ensures
            fetch.wf(),
            fetch.failures() == 0,
    {
        Fetch { failures: 0 }
    }

    /// Exec form of `failures`.
    pub fn failed_attempts(&self) -> (count: usize)
        ensures
            count == self.failures(),
    {
        self.failures
    }

    /// Decides what follows an attempt. A body ends the fetch with what
    /// `parse_html` makes of it; an unreadable body and a request that cannot
    /// be repeated end it with their errors at once. A failure in transit is
    /// followed by another attempt after `RETRY_DELAY_MS`, unless it was the
    /// last of `MAX_ATTEMPTS`, which ends the fetch with `RequestError`.
    pub fn on_attempt(self, outcome: AttemptOutcome) -> (step: FetchStep)
        requires
            self.wf(),
        ensures
            match outcome {
                AttemptOutcome::Body(body) => step matches FetchStep::Done(result) && parsed_as(
                    body@,
                    result,
                ),
                AttemptOutcome::BodyUnreadable(reason) => step matches FetchStep::Done(
                    Err(SystemError::Reqwest(text)),
                ) && text@ == reason@,
                AttemptOutcome::NotRepeatable => step matches FetchStep::Done(
                    Err(SystemError::RetryError),
                ),
                AttemptOutcome::SendFailed(reason) => if is_last_attempt(self.failures()) {
                    step matches FetchStep::Done(Err(SystemError::RequestError(text))) && text@
                        == reason@
                } else {
                    step matches FetchStep::Retry { fetch, delay_ms } && fetch.wf()
                        && fetch.failures() == self.failures() + 1 && delay_ms == RETRY_DELAY_MS
                },
            },
    {
        match outcome {
            AttemptOutcome::Body(body) => FetchStep::Done(parse_html(body.as_str())),
            AttemptOutcome::BodyUnreadable(reason) => FetchStep::Done(
                Err(SystemError::Reqwest(reason)),
            ),
            AttemptOutcome::NotRepeatable => FetchStep::Done(Err(SystemError::RetryError)),
            AttemptOutcome::SendFailed(reason) => {
                if self.failures + 1 >= MAX_ATTEMPTS {
                    FetchStep::Done(Err(SystemError::RequestError(reason)))
                } else {
                    FetchStep::Retry {
                        fetch: Fetch { failures: self.failures + 1 },
                        delay_ms: RETRY_DELAY_MS,
                    }
                }
            },
        }
    }
}

/// A fetch whose attempts all fail in transit is retried twice and ends on
/// the third failure: the first two failures are followed by another attempt,
/// the third is the last.
pub proof fn third_failure_ends_the_fetch()
    ensures
        !is_last_attempt(0),
        !is_last_attempt(1),
        is_last_attempt(2),
        forall|failures: nat| is_last_attempt(failures) <==> failures >= 2,
{
}

} // verus!
