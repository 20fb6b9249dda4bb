use crate::error::SystemError;
use crate::http::FetchOutcome;
use crate::model::{
    text_of, FinalizedLinkRecord, FinalizedLinkView, ParsedLink, ParsedLinkView, ParsedUrl,
    ParsedUrlView, PendingLinkRecord,
};
use vstd::prelude::*;

verus! {

/// The components of a URL as the URL parser reports them.
pub struct UrlParts {
    pub scheme: String,
    pub host: Option<String>,
    pub path: String,
}

/// A `UrlParts` as texts.
pub struct UrlPartsView {
    pub scheme: Seq<char>,
    pub host: Option<Seq<char>>,
    pub path: Seq<char>,
}

impl View for UrlParts {
    type V = UrlPartsView;

    open spec fn view(&self) -> UrlPartsView {
        UrlPartsView { scheme: self.scheme@, host: text_of(self.host), path: self.path@ }
    }
}

/// What `url::Url::parse` makes of `raw`: `None` where it rejects the text as
/// an absolute URL, else the accepted URL's scheme, host and path as
/// `Url::scheme`, `Url::host_str` and `Url::path` give them.
pub uninterp spec fn url_parts(raw: Seq<char>) -> Option<UrlPartsView>;

/// `url::Url::parse` on `raw`, and `Url::scheme`, `Url::host_str` and
/// `Url::path` on what it accepts. The result is a function of the text alone;
/// the contract gives it its name and claims nothing else.
#[verifier::external_body]
fn parse_url(raw: &str) -> (parsed: Result<UrlParts, url::ParseError>)
    ensures
        match parsed {
            Ok(parts) => url_parts(raw@) == Some(parts@),
            Err(_) => url_parts(raw@) is None,
        },
{
    let url = url::Url::parse(raw)?;
    Ok(
        UrlParts {
            scheme: url.scheme().to_owned(),
            host: url.host_str().map(str::to_owned),
            path: url.path().to_owned(),
        },
    )
}

/// The link that the record `id` with the text `raw` stands for once the URL
/// parser has taken the text apart: there is one where the URL has a host.
pub open spec fn link_from(id: i32, raw: Seq<char>, parts: UrlPartsView) -> Option<
    ParsedLinkView,
> {
    match parts.host {
        Some(host) => Some(
            ParsedLinkView {
                id,
                raw_url: raw,
                parsed_url: ParsedUrlView { scheme: parts.scheme, host, path: parts.path },
            },
        ),
        None => None,
    }
}

/// The link that the record `id` with the text `raw` stands for, where the
/// text is an absolute URL with a host.
pub open spec fn link_of(id: i32, raw: Seq<char>) -> Option<ParsedLinkView> {
    match url_parts(raw) {
        Some(parts) => link_from(id, raw, parts),
        None => None,
    }
}

impl ParsedLink {
    /// Builds the link of the record `id` from the parts of its URL. A URL
    /// without a host gives `MissingHost`.
    pub fn from_parts(id: i32, raw_url: String, parts: UrlParts) -> (built: Result<
        ParsedLink,
        SystemError,
    >)
        ensures
            match built {
                Ok(link) => link_from(id, raw_url@, parts@) == Some(link@),
                Err(error) => parts.host is None && error is MissingHost,
            },
    {
        match parts.host {
            None => Err(SystemError::MissingHost),
            Some(host) => Ok(
                ParsedLink {
                    id,
                    raw_url,
                    parsed_url: ParsedUrl { scheme: parts.scheme, host, path: parts.path },
                },
            ),
        }
    }

    /// Parses the link of a pending record. A text that the URL parser
    /// rejects gives `UrlParse`, a URL without a host gives `MissingHost`;
    /// nothing is coerced.
    pub fn try_from(record: &PendingLinkRecord) -> (parsed: Result<ParsedLink, SystemError>)
        ensures
            match parsed {
                Ok(link) => link_of(record.id, record.raw_url@) == Some(link@),
                Err(error) => {
                    &&& link_of(record.id, record.raw_url@) is None
                    &&& error is UrlParse <==> url_parts(record.raw_url@) is None
                    &&& error is MissingHost <==> url_parts(record.raw_url@) is Some
                },
            },
    {
        match parse_url(record.raw_url.as_str()) {
            Err(error) => Err(SystemError::UrlParse(error)),
            Ok(parts) => ParsedLink::from_parts(record.id, record.raw_url.clone(), parts),
        }
    }
}

/// Whether a pass takes up the record: it is unhandled and its link parses.
pub open spec fn is_selected(record: PendingLinkRecord) -> bool {
    !record.handled && link_of(record.id, record.raw_url@) is Some
}

/// The links that a pass over `records` works on: those of the selected
/// records, in the order of the records.
pub open spec fn links_of(records: Seq<PendingLinkRecord>) -> Seq<ParsedLinkView>
    decreases records.len(),
{
    if records.len() == 0 {
        Seq::empty()
    } else if is_selected(records.last()) {
        links_of(records.drop_last()).push(
            link_of(records.last().id, records.last().raw_url@).unwrap(),
        )
    } else {
        links_of(records.drop_last())
    }
}

/// The views of a list of links.
pub open spec fn link_views(links: Seq<ParsedLink>) -> Seq<ParsedLinkView> {
    links.map_values(|link: ParsedLink| link@)
}

/// Chooses the records that a pass works on and parses their links. A record
/// that is already handled is not revisited; a record whose link does not
/// parse is left out of the pass, which goes on without it.
pub fn select_links(records: &Vec<PendingLinkRecord>) -> (links: Vec<ParsedLink>)
    ensures
        link_views(links@) == links_of(records@),
{
    let mut links: Vec<ParsedLink> = Vec::new();
    let mut index: usize = 0;
    while index < records.len()
        invariant
            index <= records.len(),
            link_views(links@) == links_of(records@.take(index as int)),
        decreases records.len() - index,
    {
        let record = &records[index];
        proof {
            assert(records@.take(index + 1).drop_last() == records@.take(index as int));
            assert(records@.take(index + 1).last() == records@[index as int]);
        }
        if !record.handled {
            match ParsedLink::try_from(record) {
                Ok(link) => {
                    proof {
                        assert(link_views(links@.push(link)) == link_views(links@).push(link@));
                    }
                    links.push(link);
                },
                Err(_) => {},
            }
        }
        index += 1;
    }
    proof {
        assert(records@.take(index as int) == records@);
    }
    links
}

/// The title that an outcome gives a record.
pub open spec fn title_from(outcome: FetchOutcome) -> Option<Seq<char>> {
    match outcome {
        Ok(Some(metadata)) => text_of(metadata.title),
        _ => None,
    }
}

/// The description that an outcome gives a record.
pub open spec fn description_from(outcome: FetchOutcome) -> Option<Seq<char>> {
    match outcome {
        Ok(Some(metadata)) => text_of(metadata.description),
        _ => None,
    }
}

/// The record that closes the handling of `link` once its fetch has ended
/// with `outcome`: reachable exactly where the fetch succeeded, and without
/// title and description where it failed or the page had none.
pub open spec fn finalized(link: ParsedLinkView, outcome: FetchOutcome) -> FinalizedLinkView {
    FinalizedLinkView {
        pending_id: link.id,
        url: link.raw_url,
        url_scheme: link.parsed_url.scheme,
        url_host: link.parsed_url.host,
        url_path: Some(link.parsed_url.path),
        reachable: outcome is Ok,
        title: title_from(outcome),
        description: description_from(outcome),
    }
}

fn copy_text(value: &Option<String>) -> (copy: Option<String>)
    ensures
        copy == *value,
{
    match value {
        Some(text) => Some(text.clone()),
        None => None,
    }
}

/// Builds the finalized record of `link` from the outcome of its fetch. A
/// failed fetch is no error here: it gives a record that says the page could
/// not be reached.
pub fn finalize(link: &ParsedLink, outcome: &FetchOutcome) -> (record: FinalizedLinkRecord)
    ensures
        record@ == finalized(link@, *outcome),
{
    let (reachable, title, description) = match outcome {
        Ok(Some(metadata)) => (true, copy_text(&metadata.title), copy_text(&metadata.description)),
        Ok(None) => (true, None, None),
        Err(_) => (false, None, None),
    };
    FinalizedLinkRecord {
        pending_id: link.id,
        url: link.raw_url.clone(),
        url_scheme: link.parsed_url.scheme.clone(),
        url_host: link.parsed_url.host.clone(),
        url_path: Some(link.parsed_url.path.clone()),
        reachable,
        title,
        description,
    }
}

/// How many of the first `upto` slots hold no outcome yet.
pub open spec fn waiting(outcomes: Seq<Option<FetchOutcome>>, upto: int) -> nat
    decreases upto,
{
    if upto <= 0 {
        0
    } else if outcomes[upto - 1] is None {
        waiting(outcomes, upto - 1) + 1
    } else {
        waiting(outcomes, upto - 1)
    }
}

proof fn lemma_waiting_after_report(
    outcomes: Seq<Option<FetchOutcome>>,
    slot: int,
    outcome: FetchOutcome,
    upto: int,
)
    requires
        0 <= slot < outcomes.len(),
        0 <= upto <= outcomes.len(),
        outcomes[slot] is None,
    ensures
        slot < upto ==> waiting(outcomes.update(slot, Some(outcome)), upto) + 1 == waiting(
            outcomes,
            upto,
        ),
        slot >= upto ==> waiting(outcomes.update(slot, Some(outcome)), upto) == waiting(
            outcomes,
            upto,
        ),
    decreases upto,
{
    if upto > 0 {
        lemma_waiting_after_report(outcomes, slot, outcome, upto - 1);
    }
}

proof fn lemma_none_waiting(outcomes: Seq<Option<FetchOutcome>>, upto: int)
    requires
        0 <= upto <= outcomes.len(),
    ensures
        waiting(outcomes, upto) == 0 <==> forall|slot: int|
            0 <= slot < upto ==> (#[trigger] outcomes[slot]) is Some,
    decreases upto,
{
    if upto > 0 {
        lemma_none_waiting(outcomes, upto - 1);
    }
}

/// One fetch that the dispatcher hands out.
pub struct FetchTask {
    /// The slot under which the outcome is reported.
    pub slot: usize,
    /// The link to fetch, as it was submitted.
    pub url: String,
}

/// The fan-out of one pass: one fetch per link, never more of them in flight
/// than the limit allows, and one slot per link for the outcome.
pub struct FanOut {
    links: Vec<ParsedLink>,
    outcomes: Vec<Option<FetchOutcome>>,
    dispatched: usize,
    in_flight: usize,
    limit: usize,
}

impl FanOut {
    /// The links of the pass, in slot order.
    pub closed spec fn links(&self) -> Seq<ParsedLinkView> {
        link_views(self.links@)
    }

    /// What has been reported so far, by slot.
    pub closed spec fn outcomes(&self) -> Seq<Option<FetchOutcome>> {
        self.outcomes@
    }

    /// How many fetches have been handed out.
    pub closed spec fn dispatched(&self) -> nat {
        self.dispatched as nat
    }

    /// How many fetches have been handed out and not reported.
    pub closed spec fn in_flight(&self) -> nat {
        self.in_flight as nat
    }

    /// The most fetches that may be in flight together.
    pub closed spec fn limit(&self) -> nat {
        self.limit as nat
    }

    /// Slots exist for exactly the links; fetches are handed out in slot
    /// order; only a dispatched slot can hold an outcome; the fetches in
    /// flight are the dispatched slots without one, and they respect the
    /// limit.
    pub open spec fn wf(&self) -> bool {
        &&& self.outcomes().len() == self.links().len()
        &&& self.dispatched() <= self.links().len()
        &&& self.in_flight() <= self.limit()
        &&& self.in_flight() == waiting(self.outcomes(), self.dispatched() as int)
        &&& forall|slot: int|
            self.dispatched() <= slot < self.outcomes().len() ==> (
            #[trigger] self.outcomes()[slot]) is None
    }

    /// Every link has been fetched and reported.
    pub open spec fn done(&self) -> bool {
        self.dispatched() == self.links().len() && self.in_flight() == 0
    }

    /// Prepares the fan-out over `links` with at most `limit` fetches in
    /// flight. With a limit of 0 nothing is ever handed out.
    pub fn new(links: Vec<ParsedLink>, limit: usize) -> (fan_out: FanOut)
        ensures
            fan_out.wf(),
            fan_out.links() == link_views(links@),
            fan_out.limit() == limit,
            fan_out.dispatched() == 0,
            fan_out.in_flight() == 0,
            forall|slot: int|
                0 <= slot < links.len() ==> (#[trigger] fan_out.outcomes()[slot]) is None,
    {
        let mut outcomes: Vec<Option<FetchOutcome>> = Vec::new();
        let mut index: usize = 0;
        while index < links.len()
            invariant
                index <= links.len(),
                outcomes.len() == index,
                forall|slot: int| 0 <= slot < index ==> (#[trigger] outcomes@[slot]) is None,
            decreases links.len() - index,
        {
            outcomes.push(None);
            index += 1;
        }
        FanOut { links, outcomes, dispatched: 0, in_flight: 0, limit }
    }

    /// How many fetches are in flight.
    pub fn fetches_in_flight(&self) -> (count: usize)
        ensures
            count == self.in_flight(),
    {
        self.in_flight
    }

    /// Hands out the next fetch, if a link is left and the limit allows one
    /// more in flight. Links are handed out in slot order, each once.
    pub fn next_task(&mut self) -> (task: Option<FetchTask>)
        requires
            old(self).wf(),
        ensures
            final(self).wf(),
            final(self).links() == old(self).links(),
            final(self).outcomes() == old(self).outcomes(),
            final(self).limit() == old(self).limit(),
            task is Some <==> old(self).dispatched() < old(self).links().len() && old(
                self,
            ).in_flight() < old(self).limit(),
            match task {
                Some(fetch) => {
                    &&& fetch.slot == old(self).dispatched()
                    &&& fetch.url@ == old(self).links()[fetch.slot as int].raw_url
                    &&& final(self).dispatched() == old(self).dispatched() + 1
                    &&& final(self).in_flight() == old(self).in_flight() + 1
                },
                None => {
                    &&& final(self).dispatched() == old(self).dispatched()
                    &&& final(self).in_flight() == old(self).in_flight()
                },
            },
    {
        if self.dispatched < self.links.len() && self.in_flight < self.limit {
            let slot = self.dispatched;
            let url = self.links[slot].raw_url.clone();
            self.dispatched = slot + 1;
            self.in_flight = self.in_flight + 1;
            Some(FetchTask { slot, url })
        } else {
            None
        }
    }

    /// Records the outcome of the fetch handed out under `slot`. A report for
    /// a slot that was not handed out, or that has its outcome already, is
    /// refused and changes nothing.
    pub fn complete(&mut self, slot: usize, outcome: FetchOutcome) -> (accepted: bool)
        requires
            old(self).wf(),
        ensures
            final(self).wf(),
            final(self).links() == old(self).links(),
            final(self).limit() == old(self).limit(),
            final(self).dispatched() == old(self).dispatched(),
            accepted <==> slot < old(self).dispatched() && old(self).outcomes()[slot as int] is None,
            accepted ==> final(self).outcomes() == old(self).outcomes().update(
                slot as int,
                Some(outcome),
            ) && final(self).in_flight() + 1 == old(self).in_flight(),
            !accepted ==> final(self).outcomes() == old(self).outcomes() && final(self).in_flight()
                == old(self).in_flight(),
    {
        if slot < self.dispatched && self.outcomes[slot].is_none() {
            proof {
                lemma_waiting_after_report(
                    self.outcomes@,
                    slot as int,
                    outcome,
                    self.dispatched as int,
                );
            }
            self.outcomes[slot] = Some(outcome);
            self.in_flight = self.in_flight - 1;
            true
        } else {
            false
        }
    }

    /// The fan-out is done exactly when every slot holds an outcome.
    pub proof fn done_means_all_reported(&self)
        requires
            self.wf(),
        ensures
            self.done() <==> forall|slot: int|
                0 <= slot < self.links().len() ==> (#[trigger] self.outcomes()[slot]) is Some,
    {
        lemma_none_waiting(self.outcomes@, self.dispatched as int);
        if self.dispatched < self.links@.len() {
            assert(self.outcomes@[self.dispatched as int] is None);
        }
    }

    /// Whether every link has been fetched and reported.
    pub fn is_done(&self) -> (done: bool)
        requires
            self.wf(),
        ensures
            done == self.done(),
    {
        self.dispatched == self.links.len() && self.in_flight == 0
    }

    /// Gathers the finalized records once the fan-out is done: one per link,
    /// in slot order, each built from the link and the outcome of its fetch.
    /// Before that there is nothing to gather.
    pub fn finish(&self) -> (records: Option<Vec<FinalizedLinkRecord>>)
        requires
            self.wf(),
        ensures
            records is Some <==> self.done(),
            records matches Some(gathered) ==> record_views(gathered@) == records_of(
                self.links(),
                self.outcomes(),
            ),
    {
        let mut gathered: Vec<FinalizedLinkRecord> = Vec::new();
        let mut slot: usize = 0;
        while slot < self.links.len()
            invariant
                self.wf(),
                slot <= self.links.len(),
                self.outcomes@.len() == self.links@.len(),
                gathered@.len() == slot,
                forall|other: int|
                    0 <= other < slot ==> (#[trigger] self.outcomes@[other]) is Some,
                forall|other: int|
                    0 <= other < slot ==> (#[trigger] gathered@[other])@ == finalized(
                        self.links@[other]@,
                        self.outcomes@[other]->Some_0,
                    ),
            decreases self.links.len() - slot,
        {
            match &self.outcomes[slot] {
                Some(outcome) => gathered.push(finalize(&self.links[slot], outcome)),
                None => {
                    proof {
                        self.done_means_all_reported();
                    }
                    return None;
                },
            }
            slot += 1;
        }
        proof {
            self.done_means_all_reported();
            assert(record_views(gathered@) =~= records_of(self.links(), self.outcomes()));
        }
        Some(gathered)
    }
}

/// A fan-out with a limit of at least one never stalls: while it is not done
/// and nothing is in flight, a link is left and `next_task` hands it out.
pub proof fn idle_fan_out_has_a_next_task(fan_out: FanOut)
    requires
        fan_out.wf(),
        fan_out.limit() >= 1,
        !fan_out.done(),
        fan_out.in_flight() == 0,
    ensures
        fan_out.dispatched() < fan_out.links().len(),
        fan_out.in_flight() < fan_out.limit(),
{
}

/// The views of a list of finalized records.
pub open spec fn record_views(records: Seq<FinalizedLinkRecord>) -> Seq<FinalizedLinkView> {
    records.map_values(|record: FinalizedLinkRecord| record@)
}

/// The finalized records of a pass whose fan-out is done: for each link, in
/// order, the record built from it and the outcome in its slot.
pub open spec fn records_of(
    links: Seq<ParsedLinkView>,
    outcomes: Seq<Option<FetchOutcome>>,
) -> Seq<FinalizedLinkView> {
    Seq::new(links.len(), |slot: int| finalized(links[slot], outcomes[slot]->Some_0))
}

} // verus!
