use chrono::NaiveDate;
use harvester::controller::{Controller, ControllerAction, ControllerState, PassOutcome};
use harvester::ctx::Ctx;
use harvester::error::SystemError;
use harvester::http::{
    extract_metadata, find_attribute, find_text, parse_html, read_signals, AttemptOutcome, Fetch,
    FetchOutcome, FetchStep, PageSignals, MAX_ATTEMPTS, RETRY_DELAY_MS, USER_AGENT,
};
use harvester::listener::{Listener, ListenerAction, ListenerEvent};
use harvester::model::{ChangeEvent, PageMetadata, ParsedLink, PendingLinkRecord};
use harvester::pass::{begin_pass, plan_pass};
use harvester::reconcile::{finalize, select_links, FanOut, UrlParts};
use harvester::store::{plan_persistence, MemoryStore};

fn day() -> NaiveDate {
    NaiveDate::from_ymd_opt(2024, 5, 17).unwrap()
}

fn event(id: i32) -> ChangeEvent {
    ChangeEvent { id, observed_at: day().and_hms_opt(12, 30, 0).unwrap() }
}

fn pending(id: i32, url: &str, handled: bool) -> PendingLinkRecord {
    PendingLinkRecord { id, event_date: day(), raw_url: url.to_string(), handled }
}

fn link(id: i32, url: &str) -> ParsedLink {
    ParsedLink::try_from(&pending(id, url, false)).unwrap()
}

fn run_fetch(attempts: Vec<AttemptOutcome>) -> (FetchOutcome, usize, Vec<u64>) {
    let mut fetch = Fetch::new();
    let mut made = 0;
    let mut delays = Vec::new();
    for attempt in attempts {
        made += 1;
        match fetch.on_attempt(attempt) {
            FetchStep::Done(outcome) => return (outcome, made, delays),
            FetchStep::Retry { fetch: next, delay_ms } => {
                delays.push(delay_ms);
                fetch = next;
            }
        }
    }
    panic!("the fetch did not end");
}

fn timeout() -> AttemptOutcome {
    AttemptOutcome::SendFailed("operation timed out".to_string())
}

#[test]
fn pass_over_valid_invalid_and_unreachable_links() {
    let mut store = MemoryStore::new();
    assert!(store.submit(1, day(), "https://a.test".to_string()));
    assert!(store.submit(2, day(), "not a url".to_string()));
    assert!(store.submit(3, day(), "https://b.test".to_string()));

    let mut fan_out = begin_pass(store.load_unhandled(), 4).unwrap();
    let mut tasks = Vec::new();
    while let Some(task) = fan_out.next_task() {
        tasks.push(task);
    }
    assert_eq!(tasks.len(), 2);
    assert_eq!(tasks[0].url, "https://a.test");
    assert_eq!(tasks[1].url, "https://b.test");
    for task in tasks {
        let attempts = if task.url == "https://a.test" {
            vec![AttemptOutcome::Body("<html><head><title>A</title></head></html>".to_string())]
        } else {
            vec![timeout(), timeout(), timeout(), timeout()]
        };
        let (outcome, _, _) = run_fetch(attempts);
        assert!(fan_out.complete(task.slot, outcome));
    }
    let plan = plan_pass(&fan_out).unwrap();
    assert_eq!(plan.handled_ids, vec![1, 3]);
    assert!(store.persist(plan).is_ok());

    let records = store.pending_records();
    assert_eq!(records.len(), 3);
    assert!(records[0].handled);
    assert!(!records[1].handled);
    assert!(records[2].handled);

    let finalized = store.finalized_records();
    assert_eq!(finalized.len(), 2);
    assert_eq!(finalized[0].pending_id, 1);
    assert!(finalized[0].reachable);
    assert_eq!(finalized[0].title.as_deref(), Some("A"));
    assert_eq!(finalized[0].url, "https://a.test");
    assert_eq!(finalized[0].url_scheme, "https");
    assert_eq!(finalized[0].url_host, "a.test");
    assert_eq!(finalized[0].url_path.as_deref(), Some("/"));
    assert_eq!(finalized[1].pending_id, 3);
    assert!(!finalized[1].reachable);
    assert_eq!(finalized[1].title, None);
    assert_eq!(finalized[1].description, None);

    let next = store.load_unhandled().unwrap();
    assert_eq!(next.len(), 1);
    assert_eq!(next[0].id, 2);
}

#[test]
fn committed_pass_handles_every_valid_record_once() {
    let mut store = MemoryStore::new();
    for id in 1..=5 {
        assert!(store.submit(id, day(), format!("https://site{id}.test/page")));
    }
    let mut fan_out = begin_pass(store.load_unhandled(), 2).unwrap();
    let mut open = Vec::new();
    while !fan_out.is_done() {
        while let Some(task) = fan_out.next_task() {
            open.push(task.slot);
        }
        assert!(fan_out.fetches_in_flight() <= 2);
        let slot = open.pop().unwrap();
        assert!(fan_out.complete(slot, Ok(None)));
    }
    assert!(store.persist(plan_pass(&fan_out).unwrap()).is_ok());
    for record in store.pending_records() {
        assert!(record.handled);
        let closing = store
            .finalized_records()
            .iter()
            .filter(|finalized| finalized.pending_id == record.id)
            .count();
        assert_eq!(closing, 1);
    }
    assert_eq!(store.load_unhandled().unwrap().len(), 0);
    let again = begin_pass(store.load_unhandled(), 2).unwrap();
    assert!(again.is_done());
    assert_eq!(plan_pass(&again).unwrap().records.len(), 0);
}

#[test]
fn unparsable_record_is_never_handled() {
    let mut store = MemoryStore::new();
    assert!(store.submit(7, day(), "::nonsense::".to_string()));
    for _ in 0..3 {
        let fan_out = begin_pass(store.load_unhandled(), 1).unwrap();
        assert!(fan_out.is_done());
        let plan = plan_pass(&fan_out).unwrap();
        assert!(plan.records.is_empty());
        assert!(plan.handled_ids.is_empty());
        assert!(store.persist(plan).is_ok());
        assert!(!store.pending_records()[0].handled);
        assert!(store.finalized_records().is_empty());
    }
}

#[test]
fn failed_transaction_changes_nothing() {
    let mut store = MemoryStore::new();
    assert!(store.submit(1, day(), "https://a.test".to_string()));
    assert!(store.submit(2, day(), "https://b.test".to_string()));
    let mut fan_out = begin_pass(store.load_unhandled(), 8).unwrap();
    while let Some(task) = fan_out.next_task() {
        assert!(fan_out.complete(task.slot, Ok(None)));
    }
    store.set_available(false);
    let failed = store.persist(plan_pass(&fan_out).unwrap());
    match failed {
        Err(error) => assert_eq!(error.message(), "SqlxError: record store unavailable"),
        Ok(()) => panic!("the transaction should fail"),
    }
    assert!(store.pending_records().iter().all(|record| !record.handled));
    assert!(store.finalized_records().is_empty());
    assert!(matches!(store.load_unhandled(), Err(SystemError::Sqlx(_))));
    assert!(matches!(begin_pass(store.load_unhandled(), 8), Err(SystemError::Sqlx(_))));

    store.set_available(true);
    assert_eq!(store.load_unhandled().unwrap().len(), 2);
    assert!(store.persist(plan_pass(&fan_out).unwrap()).is_ok());
    assert!(store.pending_records().iter().all(|record| record.handled));
    assert_eq!(store.finalized_records().len(), 2);
}

#[test]
fn store_refuses_a_taken_identifier() {
    let mut store = MemoryStore::new();
    assert!(store.submit(1, day(), "https://a.test".to_string()));
    assert!(!store.submit(1, day(), "https://other.test".to_string()));
    assert_eq!(store.pending_records().len(), 1);
    assert_eq!(store.pending_records()[0].raw_url, "https://a.test");
}

#[test]
fn open_graph_title_wins_over_title_element() {
    let body = "<html><head><title>Plain</title>\
        <meta property='og:title' content='Graph'></head><body></body></html>";
    let metadata = parse_html(body).unwrap().unwrap();
    assert_eq!(metadata.title.as_deref(), Some("Graph"));
    assert_eq!(metadata.description, None);
}

#[test]
fn title_element_is_used_without_open_graph_title() {
    let body = "<html><head><title>Plain</title></head><body><p>text</p></body></html>";
    let metadata = parse_html(body).unwrap().unwrap();
    assert_eq!(metadata.title.as_deref(), Some("Plain"));
}

#[test]
fn open_graph_description_wins_over_description() {
    let body = "<html><head><meta name='description' content='standard'>\
        <meta property='og:description' content='graph'></head></html>";
    let metadata = parse_html(body).unwrap().unwrap();
    assert_eq!(metadata.title, None);
    assert_eq!(metadata.description.as_deref(), Some("graph"));

    let body = "<html><head><meta name='description' content='standard'></head></html>";
    let metadata = parse_html(body).unwrap().unwrap();
    assert_eq!(metadata.description.as_deref(), Some("standard"));
}

#[test]
fn page_without_signals_has_no_metadata() {
    let body = "<html><head></head><body><p>nothing to see</p></body></html>";
    assert!(parse_html(body).unwrap().is_none());
    assert!(parse_html("").unwrap().is_none());
}

#[test]
fn first_match_decides() {
    let body = "<html><head><meta property='og:title' content='first'>\
        <meta property='og:title' content='second'></head></html>";
    let metadata = parse_html(body).unwrap().unwrap();
    assert_eq!(metadata.title.as_deref(), Some("first"));
    let body = "<html><head><meta property='og:title'><title>T</title></head></html>";
    let metadata = parse_html(body).unwrap().unwrap();
    assert_eq!(metadata.title.as_deref(), Some("T"));
}

#[test]
fn searches_read_the_first_match() {
    let body = "<html><head><title>One</title></head><body>\
        <a href='/first' class='x'>alpha<b>beta</b></a><a href='/second'>gamma</a>\
        <p><i></i>late</p></body></html>";
    assert_eq!(find_attribute(body, "a", "href").unwrap().as_deref(), Some("/first"));
    assert_eq!(find_attribute(body, "a", "class").unwrap().as_deref(), Some("x"));
    assert_eq!(find_attribute(body, "a", "id").unwrap(), None);
    assert_eq!(find_attribute(body, "table", "id").unwrap(), None);
    assert_eq!(find_text(body, "a").unwrap().as_deref(), Some("alpha"));
    assert_eq!(find_text(body, "b").unwrap().as_deref(), Some("beta"));
    assert_eq!(find_text(body, "p").unwrap().as_deref(), Some("late"));
    assert_eq!(find_text(body, "i").unwrap(), None);
    assert_eq!(find_text(body, "table").unwrap(), None);
}

#[test]
fn searches_reject_what_is_no_selector() {
    assert!(matches!(find_attribute("<p></p>", "p[", "id"), Err(SystemError::Selector(_))));
    match find_text("<p></p>", "") {
        Err(SystemError::Selector(message)) => assert!(!message.is_empty()),
        other => panic!("unexpected result {other:?}"),
    }
}

#[test]
fn signals_are_read_separately() {
    let body = "<html><head><title>Plain</title>\
        <meta property='og:title' content='Graph'>\
        <meta name='description' content='standard'></head></html>";
    let signals = read_signals(body).unwrap();
    assert_eq!(signals.og_title.as_deref(), Some("Graph"));
    assert_eq!(signals.title.as_deref(), Some("Plain"));
    assert_eq!(signals.og_description, None);
    assert_eq!(signals.description.as_deref(), Some("standard"));
}

#[test]
fn extract_metadata_follows_the_precedence() {
    let text = |value: &str| Some(value.to_string());
    let none = extract_metadata(PageSignals {
        og_title: None,
        title: None,
        og_description: None,
        description: None,
    });
    assert!(none.is_none());
    let both = extract_metadata(PageSignals {
        og_title: text("og"),
        title: text("t"),
        og_description: text("ogd"),
        description: text("d"),
    })
    .unwrap();
    assert_eq!(both.title, text("og"));
    assert_eq!(both.description, text("ogd"));
    let fallback = extract_metadata(PageSignals {
        og_title: None,
        title: text("t"),
        og_description: None,
        description: text("d"),
    })
    .unwrap();
    assert_eq!(fallback.title, text("t"));
    assert_eq!(fallback.description, text("d"));
    let only_description = extract_metadata(PageSignals {
        og_title: None,
        title: None,
        og_description: None,
        description: text("d"),
    })
    .unwrap();
    assert_eq!(only_description.title, None);
    assert_eq!(only_description.description, text("d"));
}

#[test]
fn fetch_gives_up_after_three_failed_attempts() {
    assert_eq!(MAX_ATTEMPTS, 3);
    assert_eq!(RETRY_DELAY_MS, 500);
    let (outcome, made, delays) = run_fetch(vec![timeout(), timeout(), timeout(), timeout()]);
    assert_eq!(made, 3);
    assert_eq!(delays, vec![500, 500]);
    match &outcome {
        Err(SystemError::RequestError(reason)) => assert_eq!(reason, "operation timed out"),
        other => panic!("unexpected outcome {other:?}"),
    }
    let record = finalize(&link(9, "https://down.test/x"), &outcome);
    assert!(!record.reachable);
    assert_eq!(record.title, None);
    assert_eq!(record.description, None);
    assert_eq!(record.pending_id, 9);
}

#[test]
fn fetch_recovers_on_a_later_attempt() {
    let body = AttemptOutcome::Body("<title>Late</title>".to_string());
    let (outcome, made, delays) = run_fetch(vec![timeout(), timeout(), body]);
    assert_eq!(made, 3);
    assert_eq!(delays, vec![500, 500]);
    assert_eq!(outcome.unwrap().unwrap().title.as_deref(), Some("Late"));
    let fetch = Fetch::new();
    assert_eq!(fetch.failed_attempts(), 0);
    match fetch.on_attempt(timeout()) {
        FetchStep::Retry { fetch, delay_ms } => {
            assert_eq!(fetch.failed_attempts(), 1);
            assert_eq!(delay_ms, 500);
        }
        FetchStep::Done(_) => panic!("gave up too early"),
    }
}

#[test]
fn fetch_ends_at_once_on_errors_that_are_not_retried() {
    let (outcome, made, _) =
        run_fetch(vec![AttemptOutcome::BodyUnreadable("bad encoding".to_string())]);
    assert_eq!(made, 1);
    match outcome {
        Err(SystemError::Reqwest(reason)) => assert_eq!(reason, "bad encoding"),
        other => panic!("unexpected outcome {other:?}"),
    }
    let (outcome, made, _) = run_fetch(vec![timeout(), AttemptOutcome::NotRepeatable]);
    assert_eq!(made, 2);
    assert!(matches!(outcome, Err(SystemError::RetryError)));
}

#[test]
fn user_agent_is_fixed() {
    assert_eq!(
        USER_AGENT,
        "Mozilla/5.0 (X11; Linux x86_64; rv:88.0) Gecko/20100101 Firefox/88.0"
    );
}

#[test]
fn link_parsing_reads_scheme_host_and_path() {
    let parsed = link(4, "https://Example.com/api/versions?page=2#top");
    assert_eq!(parsed.id, 4);
    assert_eq!(parsed.raw_url, "https://Example.com/api/versions?page=2#top");
    assert_eq!(parsed.parsed_url.scheme, "https");
    assert_eq!(parsed.parsed_url.host, "example.com");
    assert_eq!(parsed.parsed_url.path, "/api/versions");
}

#[test]
fn link_parsing_rejects_what_is_no_absolute_url_with_a_host() {
    let relative = ParsedLink::try_from(&pending(1, "not a url", false));
    assert!(matches!(relative, Err(SystemError::UrlParse(_))));
    let empty = ParsedLink::try_from(&pending(1, "", false));
    assert!(matches!(empty, Err(SystemError::UrlParse(_))));
    let hostless = ParsedLink::try_from(&pending(1, "mailto:someone@example.com", false));
    assert!(matches!(hostless, Err(SystemError::MissingHost)));
}

#[test]
fn link_is_built_from_the_parts_of_its_url() {
    let parts = UrlParts {
        scheme: "ftp".to_string(),
        host: Some("files.test".to_string()),
        path: "/pub".to_string(),
    };
    let built = ParsedLink::from_parts(12, "ftp://files.test/pub".to_string(), parts).unwrap();
    assert_eq!(built.id, 12);
    assert_eq!(built.raw_url, "ftp://files.test/pub");
    assert_eq!(built.parsed_url.scheme, "ftp");
    assert_eq!(built.parsed_url.host, "files.test");
    assert_eq!(built.parsed_url.path, "/pub");

    let hostless = UrlParts { scheme: "data".to_string(), host: None, path: "x".to_string() };
    let refused = ParsedLink::from_parts(13, "data:x".to_string(), hostless);
    assert!(matches!(refused, Err(SystemError::MissingHost)));
}

#[test]
fn selection_skips_handled_and_unparsable_records() {
    let records = vec![
        pending(1, "https://a.test", false),
        pending(2, "https://b.test", true),
        pending(3, "nope", false),
        pending(4, "http://c.test/x", false),
    ];
    let links = select_links(&records);
    assert_eq!(links.len(), 2);
    assert_eq!(links[0].id, 1);
    assert_eq!(links[1].id, 4);
    assert_eq!(links[1].parsed_url.scheme, "http");
    assert_eq!(links[1].parsed_url.path, "/x");
}

#[test]
fn finalize_copies_link_and_metadata() {
    let metadata = PageMetadata {
        title: Some("T".to_string()),
        description: Some("D".to_string()),
    };
    let record = finalize(&link(5, "https://a.test/p/q?x=1"), &Ok(Some(metadata)));
    assert_eq!(record.pending_id, 5);
    assert_eq!(record.url, "https://a.test/p/q?x=1");
    assert_eq!(record.url_scheme, "https");
    assert_eq!(record.url_host, "a.test");
    assert_eq!(record.url_path.as_deref(), Some("/p/q"));
    assert!(record.reachable);
    assert_eq!(record.title.as_deref(), Some("T"));
    assert_eq!(record.description.as_deref(), Some("D"));

    let empty = finalize(&link(6, "https://a.test"), &Ok(None));
    assert!(empty.reachable);
    assert_eq!(empty.title, None);
    assert_eq!(empty.description, None);

    let crashed = finalize(&link(6, "https://a.test"), &Err(SystemError::Join("panic".to_string())));
    assert!(!crashed.reachable);
    assert_eq!(crashed.title, None);
}

#[test]
fn fan_out_respects_its_limit() {
    let links = vec![
        link(1, "https://a.test"),
        link(2, "https://b.test"),
        link(3, "https://c.test"),
    ];
    let mut fan_out = FanOut::new(links, 2);
    let first = fan_out.next_task().unwrap();
    let second = fan_out.next_task().unwrap();
    assert_eq!((first.slot, second.slot), (0, 1));
    assert_eq!(first.url, "https://a.test");
    assert!(fan_out.next_task().is_none());
    assert_eq!(fan_out.fetches_in_flight(), 2);
    assert!(!fan_out.is_done());
    assert!(fan_out.finish().is_none());
    assert!(plan_pass(&fan_out).is_none());

    assert!(!fan_out.complete(2, Ok(None)));
    assert!(!fan_out.complete(17, Ok(None)));
    assert!(fan_out.complete(1, Ok(None)));
    assert!(!fan_out.complete(1, Ok(None)));
    assert_eq!(fan_out.fetches_in_flight(), 1);

    let third = fan_out.next_task().unwrap();
    assert_eq!(third.slot, 2);
    assert_eq!(third.url, "https://c.test");
    assert!(fan_out.next_task().is_none());
    assert!(fan_out.complete(0, Err(SystemError::RetryError)));
    assert!(!fan_out.is_done());
    assert!(fan_out.complete(2, Ok(None)));
    assert!(fan_out.is_done());

    let records = fan_out.finish().unwrap();
    assert_eq!(records.len(), 3);
    assert_eq!(records[0].pending_id, 1);
    assert!(!records[0].reachable);
    assert!(records[1].reachable);
    assert_eq!(records[2].pending_id, 3);
}

#[test]
fn fan_out_with_limit_zero_hands_out_nothing() {
    let mut fan_out = FanOut::new(vec![link(1, "https://a.test")], 0);
    assert!(fan_out.next_task().is_none());
    assert!(!fan_out.is_done());
    let empty = FanOut::new(Vec::new(), 0);
    assert!(empty.is_done());
}

#[test]
fn plan_marks_the_records_it_stores() {
    let records = vec![
        finalize(&link(8, "https://a.test"), &Ok(None)),
        finalize(&link(3, "https://b.test"), &Err(SystemError::RetryError)),
    ];
    let plan = plan_persistence(records);
    assert_eq!(plan.handled_ids, vec![8, 3]);
    assert_eq!(plan.records.len(), 2);
    assert_eq!(plan.records[1].pending_id, 3);
}

#[test]
fn controller_runs_one_pass_at_a_time() {
    let mut controller = Controller::new();
    assert_eq!(controller.current_state(), ControllerState::Idle);
    assert!(matches!(controller.next_action(), ControllerAction::Wait));

    let mut received = 0;
    let mut started = 0;
    for id in 1..=3 {
        controller.submit(event(id));
        received += 1;
    }
    match controller.next_action() {
        ControllerAction::RunPass(first) => {
            assert_eq!(first.id, 1);
            started += 1;
        }
        _ => panic!("a pass should start"),
    }
    assert_eq!(controller.current_state(), ControllerState::Processing);
    controller.submit(event(4));
    received += 1;
    for _ in 0..5 {
        assert!(matches!(controller.next_action(), ControllerAction::Wait));
    }
    assert_eq!(controller.waiting_events(), 3);

    controller.pass_finished(PassOutcome::Completed);
    assert_eq!(controller.current_state(), ControllerState::Idle);
    let mut order = Vec::new();
    while let ControllerAction::RunPass(next) = controller.next_action() {
        order.push(next.id);
        started += 1;
        controller.pass_finished(PassOutcome::Failed(SystemError::Sqlx("rollback".to_string())));
    }
    assert_eq!(order, vec![2, 3, 4]);
    assert!(started <= received);
    assert_eq!(controller.current_state(), ControllerState::Idle);
}

#[test]
fn controller_stops_when_the_store_is_lost() {
    let mut controller = Controller::new();
    controller.submit(event(1));
    controller.submit(event(2));
    assert!(matches!(controller.next_action(), ControllerAction::RunPass(_)));
    controller.pass_finished(PassOutcome::StoreLost(SystemError::Sqlx("closed".to_string())));
    assert_eq!(controller.current_state(), ControllerState::Terminated);
    assert!(matches!(controller.next_action(), ControllerAction::Stop));
    assert_eq!(controller.waiting_events(), 1);

    let mut idle = Controller::new();
    idle.pass_finished(PassOutcome::StoreLost(SystemError::Sqlx("closed".to_string())));
    assert_eq!(idle.current_state(), ControllerState::Idle);
}

#[test]
fn listener_forwards_drops_and_terminates() {
    let mut listener = Listener::new();
    assert!(listener.is_listening());
    match listener.on_event(ListenerEvent::Decoded(event(11))) {
        ListenerAction::Forward(change) => assert_eq!(change.id, 11),
        _ => panic!("a decoded notification is forwarded"),
    }
    match listener.on_event(ListenerEvent::Malformed("expected value".to_string())) {
        ListenerAction::Drop(reason) => assert_eq!(reason, "expected value"),
        _ => panic!("a malformed payload is dropped"),
    }
    assert!(listener.is_listening());
    match listener.on_event(ListenerEvent::ForwardFailed("channel closed".to_string())) {
        ListenerAction::Drop(reason) => assert_eq!(reason, "channel closed"),
        _ => panic!("a failed hand-over is dropped"),
    }
    assert!(listener.is_listening());
    assert!(matches!(listener.on_event(ListenerEvent::SubscriptionLost), ListenerAction::Terminate));
    assert!(!listener.is_listening());
    assert!(matches!(
        listener.on_event(ListenerEvent::Decoded(event(12))),
        ListenerAction::Terminate
    ));
}

#[test]
fn error_messages() {
    let text = |value: &str| value.to_string();
    assert_eq!(SystemError::Generic(text("x")).message(), "GenericError: x");
    assert_eq!(SystemError::Join(text("panicked")).message(), "JoinError: panicked");
    assert_eq!(SystemError::Sqlx(text("pool closed")).message(), "SqlxError: pool closed");
    assert_eq!(SystemError::Reqwest(text("decode")).message(), "ReqwestError: decode");
    assert_eq!(SystemError::RetryError.message(), "ReqwestError");
    assert_eq!(SystemError::RequestError(text("timeout")).message(), "RequestError; timeout");
    assert_eq!(SystemError::Selector(text("bad")).message(), "SelectorError: bad");
    assert_eq!(SystemError::MissingHost.message(), "UrlParseError: missing host");
    match ParsedLink::try_from(&pending(1, "not a url", false)) {
        Err(error) => assert_eq!(error.message(), "UrlParseError: relative URL without a base"),
        Ok(_) => panic!("the link should be rejected"),
    }
}

#[test]
fn ctx_keeps_the_user_id() {
    assert_eq!(Ctx::new(0).user_id(), 0);
    assert_eq!(Ctx::new(42).user_id(), 42);
    assert_eq!(Ctx::new(usize::MAX).clone().user_id(), usize::MAX);
}
