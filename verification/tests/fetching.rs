use daygrid::calendar::Calendar;
use daygrid::clock::TimeWindow;
use daygrid::event::{EventData, EventModel};
use daygrid::fetch::{
    deliver, gather, is_success, is_unauthorized, request, AuthenticatedFetcher, FetchAction,
    FetchError, FetchEvent, FetchState,
};
use daygrid::token::{Phase, Token};

const BODY: &str = r#"{
  "kind": "calendar#events",
  "items": [
    {
      "summary": "Standup",
      "start": { "dateTime": "2023-10-01T09:00:00+09:00" },
      "end": { "dateTime": "2023-10-01T09:30:00+09:00" }
    },
    {
      "summary": "Holiday",
      "start": { "date": "2023-10-02" },
      "end": { "date": "2023-10-03" }
    },
    {
      "start": { "dateTime": "2023-10-01T15:00:00Z" }
    }
  ]
}"#;

fn window() -> TimeWindow {
    TimeWindow {
        time_min: "2023-09-30T15:00:00+00:00".to_string(),
        time_max: "2023-10-01T14:59:59+00:00".to_string(),
    }
}

fn token(access: &str) -> Token {
    Token {
        access_token: access.to_string(),
        refresh_token: "refresh".to_string(),
        client_id: "id".to_string(),
        client_secret: "secret".to_string(),
        phase: Phase::Ready,
    }
}

fn response(status: u16, body: &str) -> FetchEvent {
    FetchEvent::Response { status, body: body.to_string() }
}

fn sent(action: FetchAction) -> daygrid::fetch::FetchRequest {
    match action {
        FetchAction::Send(request) => request,
        other => panic!("expected a request, got {:?}", other),
    }
}

fn failure(action: FetchAction) -> FetchError {
    match action {
        FetchAction::Fail(e) => e,
        other => panic!("expected a failure, got {:?}", other),
    }
}

fn delivered(action: FetchAction) -> Vec<EventModel> {
    match action {
        FetchAction::Deliver(events) => events,
        other => panic!("expected events, got {:?}", other),
    }
}

#[test]
fn statuses() {
    assert!(is_unauthorized(401));
    assert!(!is_unauthorized(403));
    assert!(!is_unauthorized(200));
    assert!(is_success(200));
    assert!(is_success(204));
    assert!(is_success(299));
    assert!(!is_success(199));
    assert!(!is_success(300));
    assert!(!is_success(401));
}

#[test]
fn request_for_a_calendar() {
    let req = request(Calendar::Private, &window(), "token-1");
    assert_eq!(
        req.url,
        "https://www.googleapis.com/calendar/v3/calendars/6cm3jsuvlmq0jkvml9bd5l272k@group.calendar.google.com/events"
    );
    assert_eq!(
        req.query,
        vec![
            ("timeMin".to_string(), "2023-09-30T15:00:00+00:00".to_string()),
            ("timeMax".to_string(), "2023-10-01T14:59:59+00:00".to_string()),
            ("orderBy".to_string(), "startTime".to_string()),
            ("singleEvents".to_string(), "true".to_string()),
        ]
    );
    assert_eq!(req.bearer, "token-1");
    assert_eq!(
        request(Calendar::Primary, &window(), "t").url,
        "https://www.googleapis.com/calendar/v3/calendars/primary/events"
    );
}

#[test]
fn success_on_the_first_answer() {
    let mut fetcher = AuthenticatedFetcher::new(Calendar::University, window());
    assert_eq!(fetcher.state, FetchState::Idle);
    let req = sent(fetcher.step(FetchEvent::Start, &token("a1")));
    assert_eq!(req.bearer, "a1");
    assert_eq!(fetcher.state, FetchState::AwaitingResponse);

    let events = delivered(fetcher.step(response(200, BODY), &token("a1")));
    assert_eq!(fetcher.state, FetchState::Finished);
    assert_eq!(events.len(), 3);
    assert_eq!(events[0].data.summary.as_deref(), Some("Standup"));
    assert_eq!(events[0].data.start, Some(1696118400));
    assert_eq!(events[0].data.end, Some(1696120200));
    assert_eq!(events[0].calendar_id, Calendar::University);
    assert_eq!(events[1].data.summary.as_deref(), Some("Holiday"));
    assert_eq!(events[1].data.start, None);
    assert_eq!(events[1].data.end, None);
    assert_eq!(events[2].data.summary, None);
    assert_eq!(events[2].data.start, Some(1696172400));
    assert_eq!(events[2].data.end, None);
    assert_eq!(events[2].calendar_id, Calendar::University);
}

#[test]
fn refresh_then_retry() {
    let mut fetcher = AuthenticatedFetcher::new(Calendar::Primary, window());
    let mut refreshes = 0;

    let first = sent(fetcher.step(FetchEvent::Start, &token("stale")));
    assert_eq!(first.bearer, "stale");

    match fetcher.step(response(401, "unauthorized"), &token("stale")) {
        FetchAction::Refresh => refreshes += 1,
        other => panic!("expected a refresh, got {:?}", other),
    }
    assert_eq!(fetcher.state, FetchState::AwaitingRefresh);

    let second = sent(fetcher.step(FetchEvent::Refreshed, &token("fresh")));
    assert_eq!(second.bearer, "fresh");
    assert_eq!(second.url, first.url);
    assert_eq!(second.query, first.query);
    assert_eq!(fetcher.state, FetchState::AwaitingRetry);

    let events = delivered(fetcher.step(response(200, BODY), &token("fresh")));
    assert_eq!(events.len(), 3);
    assert_eq!(events[0].data.summary.as_deref(), Some("Standup"));
    assert_eq!(fetcher.state, FetchState::Finished);
    assert_eq!(refreshes, 1);
}

#[test]
fn double_unauthorized() {
    let mut fetcher = AuthenticatedFetcher::new(Calendar::Primary, window());
    sent(fetcher.step(FetchEvent::Start, &token("stale")));
    assert!(matches!(fetcher.step(response(401, ""), &token("stale")), FetchAction::Refresh));
    sent(fetcher.step(FetchEvent::Refreshed, &token("fresh")));
    let end = fetcher.step(response(401, ""), &token("fresh"));
    assert_eq!(failure(end), FetchError::Status(401));
    assert_eq!(fetcher.state, FetchState::Finished);

    // No second refresh, whatever follows.
    assert_eq!(failure(fetcher.step(response(401, ""), &token("fresh"))), FetchError::UnexpectedEvent);
    assert_eq!(failure(fetcher.step(FetchEvent::Refreshed, &token("fresh"))), FetchError::UnexpectedEvent);
    assert_eq!(failure(fetcher.step(FetchEvent::Start, &token("fresh"))), FetchError::UnexpectedEvent);
    assert_eq!(fetcher.state, FetchState::Finished);
}

#[test]
fn failed_refresh_ends_the_fetch() {
    let mut fetcher = AuthenticatedFetcher::new(Calendar::Primary, window());
    sent(fetcher.step(FetchEvent::Start, &token("stale")));
    assert!(matches!(fetcher.step(response(401, ""), &token("stale")), FetchAction::Refresh));
    assert_eq!(failure(fetcher.step(FetchEvent::RefreshFailed, &token("stale"))), FetchError::RefreshFailed);
    assert_eq!(fetcher.state, FetchState::Finished);
}

#[test]
fn other_statuses_fail_without_a_refresh() {
    for status in [199u16, 301, 400, 403, 404, 500, 503] {
        let mut fetcher = AuthenticatedFetcher::new(Calendar::Primary, window());
        sent(fetcher.step(FetchEvent::Start, &token("a")));
        assert_eq!(failure(fetcher.step(response(status, BODY), &token("a"))), FetchError::Status(status));
        assert_eq!(fetcher.state, FetchState::Finished);
    }
}

#[test]
fn network_errors_end_the_fetch() {
    let mut first = AuthenticatedFetcher::new(Calendar::Primary, window());
    sent(first.step(FetchEvent::Start, &token("a")));
    assert_eq!(failure(first.step(FetchEvent::NetworkError, &token("a"))), FetchError::Network);
    assert_eq!(first.state, FetchState::Finished);

    let mut retried = AuthenticatedFetcher::new(Calendar::Primary, window());
    sent(retried.step(FetchEvent::Start, &token("a")));
    retried.step(response(401, ""), &token("a"));
    sent(retried.step(FetchEvent::Refreshed, &token("b")));
    assert_eq!(failure(retried.step(FetchEvent::NetworkError, &token("b"))), FetchError::Network);
    assert_eq!(retried.state, FetchState::Finished);
}

#[test]
fn malformed_payload() {
    for body in ["", "not json", "[1, 2", r#"{"items": 5}"#, r#"{"items": [{"start": {"dateTime": "soon"}}]}"#] {
        let mut fetcher = AuthenticatedFetcher::new(Calendar::Primary, window());
        sent(fetcher.step(FetchEvent::Start, &token("a")));
        assert_eq!(failure(fetcher.step(response(200, body), &token("a"))), FetchError::MalformedPayload);
    }
}

#[test]
fn payload_without_items_is_empty() {
    let mut fetcher = AuthenticatedFetcher::new(Calendar::Primary, window());
    sent(fetcher.step(FetchEvent::Start, &token("a")));
    assert!(delivered(fetcher.step(response(200, "{}"), &token("a"))).is_empty());
}

#[test]
fn fetch_events_out_of_turn_change_nothing() {
    let mut fetcher = AuthenticatedFetcher::new(Calendar::Primary, window());
    assert_eq!(failure(fetcher.step(response(200, BODY), &token("a"))), FetchError::UnexpectedEvent);
    assert_eq!(failure(fetcher.step(FetchEvent::Refreshed, &token("a"))), FetchError::UnexpectedEvent);
    assert_eq!(failure(fetcher.step(FetchEvent::NetworkError, &token("a"))), FetchError::UnexpectedEvent);
    assert_eq!(fetcher.state, FetchState::Idle);
    sent(fetcher.step(FetchEvent::Start, &token("a")));
    assert_eq!(failure(fetcher.step(FetchEvent::Start, &token("a"))), FetchError::UnexpectedEvent);
    assert_eq!(failure(fetcher.step(FetchEvent::Refreshed, &token("a"))), FetchError::UnexpectedEvent);
    assert_eq!(fetcher.state, FetchState::AwaitingResponse);
}

#[test]
fn deliver_ties_each_item_to_the_calendar() {
    let items = vec![
        EventData { summary: Some("a".to_string()), start: Some(1), end: Some(2) },
        EventData { summary: None, start: None, end: Some(3) },
    ];
    let events = delivered(deliver(Calendar::Private, Some(items)));
    assert_eq!(events.len(), 2);
    assert_eq!(events[0].data.summary.as_deref(), Some("a"));
    assert_eq!(events[0].data.start, Some(1));
    assert_eq!(events[0].calendar_id, Calendar::Private);
    assert_eq!(events[1].data.end, Some(3));
    assert_eq!(events[1].calendar_id, Calendar::Private);
    assert_eq!(failure(deliver(Calendar::Private, None)), FetchError::MalformedPayload);
}

#[test]
fn gather_keeps_what_succeeded() {
    let one = EventModel::new(EventData { summary: Some("one".to_string()), start: None, end: None }, Calendar::Primary);
    let two = EventModel::new(EventData { summary: Some("two".to_string()), start: None, end: None }, Calendar::Primary);
    let three = EventModel::new(EventData { summary: Some("three".to_string()), start: None, end: None }, Calendar::University);
    let gathered = gather(vec![
        Ok(vec![one, two]),
        Err(FetchError::Status(500)),
        Ok(vec![three]),
        Err(FetchError::Network),
        Ok(Vec::new()),
    ]);
    let names: Vec<&str> = gathered.events.iter().map(|e| e.data.summary.as_deref().unwrap()).collect();
    assert_eq!(names, vec!["one", "two", "three"]);
    assert_eq!(gathered.failed, 2);

    let nothing = gather(Vec::new());
    assert!(nothing.events.is_empty());
    assert_eq!(nothing.failed, 0);
}
