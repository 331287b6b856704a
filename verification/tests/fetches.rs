use contributed::calendar::ContributionDay;
use contributed::date::Date;
use contributed::error::{MalformedDetail, TransportCause, UpstreamError};
use contributed::fetcher::{FetchState, Request, Step};
use contributed::replay::{replay, Replay};
use contributed::retry::RetryPolicy;
use contributed::service::respond_with_error;
use contributed::transport::{
    interpret, RawDay, RawPage, RawResponse, RawUser, TransportEvent, TransportFailure,
};

fn raw(date: &str, count: i64) -> RawDay {
    RawDay { date: date.to_string(), count }
}

fn entry(year: u16, month: u8, day: u8, count: u64) -> ContributionDay {
    ContributionDay { date: Date { year, month, day }, count }
}

fn page(days: Vec<RawDay>, has_next_page: bool, end_cursor: Option<&str>) -> TransportEvent {
    TransportEvent::Answer(RawResponse {
        user: Some(RawUser {
            page: Some(RawPage {
                days,
                has_next_page,
                end_cursor: end_cursor.map(|c| c.to_string()),
            }),
        }),
    })
}

fn timeout() -> TransportEvent {
    TransportEvent::Failure(TransportFailure::Timeout)
}

fn reset() -> TransportEvent {
    TransportEvent::Failure(TransportFailure::ConnectionReset)
}

fn status(code: u16) -> TransportEvent {
    TransportEvent::Failure(TransportFailure::Status {
        code,
        rate_limited: false,
        retry_after: None,
    })
}

fn status_with(code: u16, rate_limited: bool, retry_after: Option<u64>) -> TransportEvent {
    TransportEvent::Failure(TransportFailure::Status { code, rate_limited, retry_after })
}

fn start(user: &str) -> FetchState {
    FetchState::start(user.to_string(), RetryPolicy::standard())
}

fn numbered_day(n: usize) -> String {
    let date = Date::new(2000 + (n / 28) as u16, 1, 1 + (n % 28) as u8).unwrap();
    date.to_iso_string()
}

fn finished(outcome: Replay) -> (Vec<ContributionDay>, usize) {
    match outcome {
        Replay::Finished { calendar, used } => (calendar.days().clone(), used),
        other => panic!("the fetch did not complete: {:?}", other),
    }
}

fn failed(outcome: Replay) -> (UpstreamError, usize) {
    match outcome {
        Replay::Failed { error, used } => (error, used),
        other => panic!("the fetch did not fail: {:?}", other),
    }
}

#[test]
fn first_request_starts_at_the_beginning() {
    let state = start("alice");
    assert_eq!(state.request(), Request { login: "alice".to_string(), cursor: None });
    assert_eq!(state.pages(), 0);
    assert_eq!(state.attempts(), 0);
}

#[test]
fn user_name_is_passed_through_unmodified() {
    let state = start("  Al ice-ü ");
    assert_eq!(state.request().login, "  Al ice-ü ");
    let step = state.on_event(&page(vec![raw("2024-01-01", 1)], true, Some("c1")));
    match step {
        Step::Continue { state, .. } => assert_eq!(state.request().login, "  Al ice-ü "),
        other => panic!("{:?}", other),
    }
}

#[test]
fn alice_with_two_pages() {
    let state = start("alice");
    let first = page(vec![raw("2024-01-01", 3), raw("2024-01-02", 0)], true, Some("c1"));
    let state = match state.on_event(&first) {
        Step::Continue { state, delay_ms } => {
            assert_eq!(delay_ms, 0);
            state
        }
        other => panic!("{:?}", other),
    };
    assert_eq!(
        state.request(),
        Request { login: "alice".to_string(), cursor: Some("c1".to_string()) }
    );
    assert_eq!(state.pages(), 1);
    let second = page(vec![raw("2024-01-03", 5)], false, None);
    match state.on_event(&second) {
        Step::Finished { calendar } => assert_eq!(
            calendar.days(),
            &vec![entry(2024, 1, 1, 3), entry(2024, 1, 2, 0), entry(2024, 1, 3, 5)]
        ),
        other => panic!("{:?}", other),
    }
}

#[test]
fn alice_replayed() {
    let events = vec![
        page(vec![raw("2024-01-01", 3), raw("2024-01-02", 0)], true, Some("c1")),
        page(vec![raw("2024-01-03", 5)], false, None),
    ];
    let (days, used) = finished(replay(start("alice"), &events));
    assert_eq!(days, vec![entry(2024, 1, 1, 3), entry(2024, 1, 2, 0), entry(2024, 1, 3, 5)]);
    assert_eq!(used, 2);
}

#[test]
fn ghost_is_not_found() {
    let event = TransportEvent::Answer(RawResponse { user: None });
    match start("ghost").on_event(&event) {
        Step::Failed { error } => {
            assert_eq!(error, UpstreamError::NotFound { user: "ghost".to_string() });
            assert_eq!(respond_with_error(&error).status, 404);
        }
        other => panic!("{:?}", other),
    }
}

#[test]
fn missing_page_is_malformed() {
    let event = TransportEvent::Answer(RawResponse { user: Some(RawUser { page: None }) });
    let (error, used) = failed(replay(start("alice"), &vec![event]));
    assert_eq!(error, UpstreamError::Malformed { detail: MalformedDetail::MissingPage });
    assert_eq!(used, 1);
}

#[test]
fn unreadable_payload_is_malformed() {
    let events = vec![
        page(vec![raw("2024-01-01", 3)], true, Some("c1")),
        TransportEvent::Unreadable,
        page(vec![raw("2024-01-02", 3)], false, None),
    ];
    let (error, used) = failed(replay(start("alice"), &events));
    assert_eq!(error, UpstreamError::Malformed { detail: MalformedDetail::Unreadable });
    assert_eq!(used, 2);
    assert_eq!(respond_with_error(&error).status, 502);
}

#[test]
fn requests_stay_within_the_budget_of_the_pages() {
    let mut events = Vec::new();
    for i in 0..6usize {
        events.push(timeout());
        events.push(reset());
        events.push(page(vec![raw(&numbered_day(i), 1)], true, Some(&format!("c{}", i))));
    }
    events.push(timeout());
    match replay(start("alice"), &events) {
        Replay::Pending { state } => {
            assert_eq!(state.pages(), 6);
            assert_eq!(state.attempts(), 1);
            assert!(events.len() <= state.pages() * 3 + state.attempts() as usize);
        }
        other => panic!("{:?}", other),
    }
}

#[test]
fn n_pages_then_the_last() {
    for n in [0usize, 1, 2, 7, 40] {
        let mut events = Vec::new();
        let mut expected = Vec::new();
        for i in 0..=n {
            let text = numbered_day(i);
            expected.push(ContributionDay { date: Date::parse(&text).unwrap(), count: i as u64 });
            let cursor = format!("cursor-{}", i);
            let more = i < n;
            events.push(page(vec![raw(&text, i as i64)], more, Some(&cursor)));
        }
        events.push(page(vec![raw("2999-01-01", 1)], true, Some("never requested")));
        let (days, used) = finished(replay(start("alice"), &events));
        assert_eq!(used, n + 1);
        assert_eq!(days, expected);
    }
}

#[test]
fn pending_while_pages_follow() {
    let events = vec![
        page(vec![raw("2024-01-01", 3)], true, Some("c1")),
        page(vec![raw("2024-01-02", 3)], true, Some("c2")),
    ];
    match replay(start("alice"), &events) {
        Replay::Pending { state } => {
            assert_eq!(state.request().cursor, Some("c2".to_string()));
            assert_eq!(state.pages(), 2);
        }
        other => panic!("{:?}", other),
    }
    match replay(start("alice"), &vec![]) {
        Replay::Pending { state } => assert_eq!(state.request().cursor, None),
        other => panic!("{:?}", other),
    }
}

#[test]
fn empty_page_ends_the_fetch() {
    let events = vec![
        page(vec![raw("2024-01-01", 3)], true, Some("c1")),
        page(vec![], true, Some("c2")),
        page(vec![raw("2024-01-02", 3)], false, None),
    ];
    let (days, used) = finished(replay(start("alice"), &events));
    assert_eq!(days, vec![entry(2024, 1, 1, 3)]);
    assert_eq!(used, 2);
}

#[test]
fn missing_cursor_ends_the_fetch() {
    let events = vec![page(vec![raw("2024-01-01", 3)], true, None), timeout()];
    let (days, used) = finished(replay(start("alice"), &events));
    assert_eq!(days, vec![entry(2024, 1, 1, 3)]);
    assert_eq!(used, 1);
}

#[test]
fn same_cursor_twice_ends_the_fetch() {
    let events = vec![
        page(vec![raw("2024-01-01", 1)], true, Some("c1")),
        page(vec![raw("2024-01-02", 2)], true, Some("c1")),
        page(vec![raw("2024-01-03", 3)], true, Some("c1")),
    ];
    let (days, used) = finished(replay(start("alice"), &events));
    assert_eq!(days, vec![entry(2024, 1, 1, 1), entry(2024, 1, 2, 2)]);
    assert_eq!(used, 2);
}

#[test]
fn cursor_cycle_ends_the_fetch() {
    let events = vec![
        page(vec![raw("2024-01-01", 1)], true, Some("a")),
        page(vec![raw("2024-01-02", 2)], true, Some("b")),
        page(vec![raw("2024-01-03", 3)], true, Some("c")),
        page(vec![raw("2024-01-04", 4)], true, Some("a")),
        page(vec![raw("2024-01-05", 5)], true, Some("d")),
    ];
    let (days, used) = finished(replay(start("alice"), &events));
    assert_eq!(used, 4);
    assert_eq!(days.len(), 4);
    assert_eq!(days[3], entry(2024, 1, 4, 4));
}

#[test]
fn out_of_order_page_is_malformed() {
    let events = vec![
        page(vec![raw("2024-01-05", 1)], true, Some("c1")),
        page(vec![raw("2024-01-04", 2)], false, None),
    ];
    let (error, used) = failed(replay(start("alice"), &events));
    assert_eq!(error, UpstreamError::Malformed { detail: MalformedDetail::OutOfOrder });
    assert_eq!(used, 2);
}

#[test]
fn repeated_date_is_malformed() {
    let events = vec![
        page(vec![raw("2024-01-05", 1)], true, Some("c1")),
        page(vec![raw("2024-01-05", 1)], false, None),
    ];
    let (error, _) = failed(replay(start("alice"), &events));
    assert_eq!(error, UpstreamError::Malformed { detail: MalformedDetail::DuplicateDate });
}

#[test]
fn negative_count_is_malformed() {
    let (error, _) =
        failed(replay(start("alice"), &vec![page(vec![raw("2024-01-05", -1)], false, None)]));
    assert_eq!(error, UpstreamError::Malformed { detail: MalformedDetail::NegativeCount });
}

#[test]
fn other_granularity_is_malformed() {
    let events = vec![
        page(vec![raw("2024-01-05", 1)], true, Some("c1")),
        page(vec![raw("2024-02", 9)], false, None),
    ];
    let (error, used) = failed(replay(start("alice"), &events));
    assert_eq!(error, UpstreamError::Malformed { detail: MalformedDetail::NotADay });
    assert_eq!(used, 2);
}

#[test]
fn two_transient_failures_then_success() {
    let events = vec![timeout(), reset(), page(vec![raw("2024-01-01", 3)], false, None)];
    let (days, used) = finished(replay(start("alice"), &events));
    assert_eq!(days, vec![entry(2024, 1, 1, 3)]);
    assert_eq!(used, 3);
}

#[test]
fn retries_wait_longer_each_time() {
    let state = start("alice");
    let state = match state.on_event(&timeout()) {
        Step::Continue { state, delay_ms } => {
            assert_eq!(delay_ms, 200);
            assert_eq!(state.attempts(), 1);
            assert_eq!(state.request().cursor, None);
            state
        }
        other => panic!("{:?}", other),
    };
    let state = match state.on_event(&reset()) {
        Step::Continue { state, delay_ms } => {
            assert_eq!(delay_ms, 400);
            assert_eq!(state.attempts(), 2);
            state
        }
        other => panic!("{:?}", other),
    };
    match state.on_event(&timeout()) {
        Step::Failed { error } => {
            assert_eq!(error, UpstreamError::Transport { cause: TransportCause::Timeout })
        }
        other => panic!("{:?}", other),
    }
}

#[test]
fn always_failing_transport_uses_exactly_the_budget() {
    for budget in [1u32, 2, 3, 5] {
        let policy = RetryPolicy::new(budget, 10, 1000).unwrap();
        let events: Vec<TransportEvent> = (0..20).map(|_| reset()).collect();
        let outcome = replay(FetchState::start("alice".to_string(), policy), &events);
        let (error, used) = failed(outcome);
        assert_eq!(error, UpstreamError::Transport { cause: TransportCause::ConnectionReset });
        assert_eq!(used, budget as usize);
    }
}

#[test]
fn budget_is_per_page() {
    let events = vec![
        timeout(),
        timeout(),
        page(vec![raw("2024-01-01", 3)], true, Some("c1")),
        timeout(),
        timeout(),
        page(vec![raw("2024-01-02", 4)], true, Some("c2")),
        timeout(),
        timeout(),
        timeout(),
    ];
    let (error, used) = failed(replay(start("alice"), &events));
    assert_eq!(error, UpstreamError::Transport { cause: TransportCause::Timeout });
    assert_eq!(used, 9);
}

#[test]
fn retry_resumes_from_the_same_cursor() {
    let state = start("alice");
    let state = match state.on_event(&page(vec![raw("2024-01-01", 3)], true, Some("c1"))) {
        Step::Continue { state, .. } => state,
        other => panic!("{:?}", other),
    };
    match state.on_event(&timeout()) {
        Step::Continue { state, .. } => {
            assert_eq!(state.request().cursor, Some("c1".to_string()));
            assert_eq!(state.pages(), 1);
        }
        other => panic!("{:?}", other),
    }
}

#[test]
fn zero_attempts_still_means_one_request() {
    let policy = RetryPolicy { max_attempts: 0, base_delay_ms: 1, max_delay_ms: 1 };
    let outcome = replay(FetchState::start("alice".to_string(), policy), &vec![timeout()]);
    let (error, used) = failed(outcome);
    assert_eq!(error, UpstreamError::Transport { cause: TransportCause::Timeout });
    assert_eq!(used, 1);
}

#[test]
fn other_failures_are_not_retried() {
    for (event, expected) in [
        (status(401), UpstreamError::Unauthorized),
        (status(403), UpstreamError::Unauthorized),
        (status(429), UpstreamError::RateLimited { retry_after: None }),
        (
            status(500),
            UpstreamError::Transport { cause: TransportCause::Status { code: 500 } },
        ),
        (
            TransportEvent::Failure(TransportFailure::Other),
            UpstreamError::Transport { cause: TransportCause::Other },
        ),
    ] {
        let (error, used) = failed(replay(start("alice"), &vec![event, timeout()]));
        assert_eq!(error, expected);
        assert_eq!(used, 1);
    }
}

#[test]
fn classifies_failures() {
    let limited = TransportFailure::Status { code: 429, rate_limited: false, retry_after: Some(17) };
    assert_eq!(limited.classify(), UpstreamError::RateLimited { retry_after: Some(17) });
    let signalled = TransportFailure::Status { code: 200, rate_limited: true, retry_after: None };
    assert_eq!(signalled.classify(), UpstreamError::RateLimited { retry_after: None });
    let refused = TransportFailure::Status { code: 403, rate_limited: true, retry_after: Some(5) };
    assert_eq!(refused.classify(), UpstreamError::Unauthorized);
    let missing = TransportFailure::Status { code: 404, rate_limited: false, retry_after: None };
    assert_eq!(
        missing.classify(),
        UpstreamError::Transport { cause: TransportCause::Status { code: 404 } }
    );
    assert_eq!(
        TransportFailure::Timeout.classify(),
        UpstreamError::Transport { cause: TransportCause::Timeout }
    );
    assert!(TransportFailure::Timeout.transient());
    assert!(TransportFailure::ConnectionReset.transient());
    assert!(!TransportFailure::Other.transient());
    assert!(!limited.transient());
}

#[test]
fn failure_keeps_earlier_pages_out_of_the_result() {
    let events = vec![page(vec![raw("2024-01-01", 3)], true, Some("c1")), status(500)];
    let (error, used) = failed(replay(start("alice"), &events));
    assert_eq!(error, UpstreamError::Transport { cause: TransportCause::Status { code: 500 } });
    assert_eq!(used, 2);
}

#[test]
fn interprets_responses() {
    let answer = RawResponse { user: None };
    assert_eq!(
        interpret(200, false, None, Some(answer.clone())),
        TransportEvent::Answer(answer.clone())
    );
    assert_eq!(
        interpret(299, false, Some("5"), Some(answer.clone())),
        TransportEvent::Answer(answer.clone())
    );
    assert_eq!(interpret(200, false, None, None), TransportEvent::Unreadable);
    assert_eq!(
        interpret(200, true, Some("30"), Some(answer.clone())),
        status_with(200, true, Some(30))
    );
    assert_eq!(interpret(199, false, None, Some(answer.clone())), status_with(199, false, None));
    assert_eq!(interpret(300, false, None, Some(answer.clone())), status_with(300, false, None));
    assert_eq!(interpret(404, false, None, None), status_with(404, false, None));
    assert_eq!(interpret(429, false, Some("17"), None), status_with(429, false, Some(17)));
    assert_eq!(
        interpret(429, false, Some("Wed, 21 Oct 2015 07:28:00 GMT"), None),
        status_with(429, false, None)
    );
    assert_eq!(interpret(503, false, Some(""), None), status_with(503, false, None));
}

#[test]
fn retry_after_header_reaches_the_response() {
    let event = interpret(429, false, Some("1234"), None);
    let (error, used) = failed(replay(start("alice"), &vec![event]));
    assert_eq!(error, UpstreamError::RateLimited { retry_after: Some(1234) });
    assert_eq!(used, 1);
    let response = respond_with_error(&error);
    assert_eq!(response.status, 503);
    assert_eq!(response.retry_after, Some(1234));
}

#[test]
fn http_404_is_a_transport_error() {
    let event = interpret(404, false, None, None);
    let (error, used) = failed(replay(start("alice"), &vec![event]));
    assert_eq!(error, UpstreamError::Transport { cause: TransportCause::Status { code: 404 } });
    assert_eq!(used, 1);
    assert_eq!(respond_with_error(&error).status, 502);
}
