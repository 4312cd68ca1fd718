//! Fetching one calendar's events for a time window: the request, the
//! reading of the answer, and the single retry after a token refresh.

use vstd::prelude::*;

use crate::calendar::Calendar;
use crate::clock::{TimeWindow, TimeWindowView};
use crate::event::{EventData, EventDataView, EventModel, EventModelView};
use crate::token::Token;

verus! {

/// Why a fetch produced no events.
#[derive(Debug, Clone, Copy, PartialEq, Eq, Structural)]
pub enum FetchError {
    /// The request could not be sent, or no answer came back.
    Network,
    /// The answer carried this status: neither success nor, on the first
    /// attempt, unauthorized.
    Status(u16),
    /// The access token was refused and could not be refreshed.
    RefreshFailed,
    /// The body of a successful answer is not an event list.
    MalformedPayload,
    /// The fetcher was told of something it had not asked for.
    UnexpectedEvent,
}

/// One request to the provider's events endpoint: a GET of `url` with the
/// parameters `query`, authorized by the bearer token `bearer`.
#[derive(Debug, Clone)]
pub struct FetchRequest {
    pub url: String,
    pub query: Vec<(String, String)>,
    pub bearer: String,
}

/// The mathematical value of a [`FetchRequest`].
pub struct FetchRequestView {
    pub url: Seq<char>,
    pub query: Seq<(Seq<char>, Seq<char>)>,
    pub bearer: Seq<char>,
}

impl View for FetchRequest {
    type V = FetchRequestView;

    open spec fn view(&self) -> FetchRequestView {
        FetchRequestView {
            url: self.url@,
            query: self.query.deep_view(),
            bearer: self.bearer@,
        }
    }
}

/// The request for the events of `calendar` within `window`, authorized by
/// `access_token`: single events only, ordered by their start.
pub open spec fn spec_request(
    calendar: Calendar,
    window: TimeWindowView,
    access_token: Seq<char>,
) -> FetchRequestView {
    FetchRequestView {
        url: "https://www.googleapis.com/calendar/v3/calendars/"@ + calendar.spec_id()
            + "/events"@,
        query: seq![
            ("timeMin"@, window.time_min),
            ("timeMax"@, window.time_max),
            ("orderBy"@, "startTime"@),
            ("singleEvents"@, "true"@),
        ],
        bearer: access_token,
    }
}

fn query_pair(key: &str, value: &str) -> (pair: (String, String))
    ensures
        pair.deep_view() == (key@, value@),
{
    (String::from_str(key), String::from_str(value))
}

/// The request for the events of `calendar` within `window`, authorized by
/// `access_token`.
pub fn request(calendar: Calendar, window: &TimeWindow, access_token: &str) -> (req: FetchRequest)
    ensures
        req@ == spec_request(calendar, window@, access_token@),
{
    let mut url: String = String::from_str("https://www.googleapis.com/calendar/v3/calendars/");
    let id: String = calendar.id();
    url.append(id.as_str());
    url.append("/events");
    let mut query: Vec<(String, String)> = Vec::new();
    query.push(query_pair("timeMin", window.time_min.as_str()));
    query.push(query_pair("timeMax", window.time_max.as_str()));
    query.push(query_pair("orderBy", "startTime"));
    query.push(query_pair("singleEvents", "true"));
    let req = FetchRequest { url, query, bearer: String::from_str(access_token) };
    assert(req@.query =~= spec_request(calendar, window@, access_token@).query);
    req
}

/// Whether `status` says that the access token was not accepted.
pub open spec fn spec_is_unauthorized(status: u16) -> bool {
    status == 401
}

/// Whether `status` is one of the success statuses, 200 to 299.
pub open spec fn spec_is_success(status: u16) -> bool {
    200 <= status <= 299
}

/// Whether `status` says that the access token was not accepted.
pub fn is_unauthorized(status: u16) -> (b: bool)
    ensures
        b == spec_is_unauthorized(status),
{
    status == 401
}

/// Whether `status` is one of the success statuses.
pub fn is_success(status: u16) -> (b: bool)
    ensures
        b == spec_is_success(status),
{
    200 <= status && status <= 299
}

/// The event list that the body of an answer holds, as the provider's schema
/// and the JSON reader take it; `None` where they do not accept the body.
pub uninterp spec fn events_payload(body: Seq<char>) -> Option<Seq<EventDataView>>;

/// Reads `body` as the provider's event list with
/// `serde_json::from_str::<google_calendar3::api::Events>` and keeps of
/// each item the summary and the two date-times, as seconds since the Unix
/// epoch. The result is that of the reader on this text and on nothing
/// else; a list without items is the empty list.
#[verifier::external_body]
fn parse_events(body: &str) -> (parsed: Option<Vec<EventData>>)
    ensures
        parsed.deep_view() == events_payload(body@),
{
    let events = serde_json::from_str::<google_calendar3::api::Events>(body).ok()?;
    let items = events.items.unwrap_or_default().into_iter();
    Some(items.map(|item| EventData {
        summary: item.summary,
        start: item.start.and_then(|t| t.date_time).map(|t| t.timestamp()),
        end: item.end.and_then(|t| t.date_time).map(|t| t.timestamp()),
    }).collect())
}

/// What a fetcher is waiting for.
#[derive(Debug, Clone, Copy, PartialEq, Eq, Structural)]
pub enum FetchState {
    /// Nothing has been sent.
    Idle,
    /// The first request is under way.
    AwaitingResponse,
    /// The first answer was unauthorized and a refresh has been asked for.
    AwaitingRefresh,
    /// The request is under way again, with the refreshed token.
    AwaitingRetry,
    /// The events were delivered or the fetch failed.
    Finished,
}

/// What a fetcher is told.
#[derive(Debug)]
pub enum FetchEvent {
    /// The fetch is to begin.
    Start,
    /// An answer to the request arrived.
    Response { status: u16, body: String },
    /// The request could not be sent, or no answer arrived.
    NetworkError,
    /// The token manager has a new access token.
    Refreshed,
    /// The token manager could not refresh.
    RefreshFailed,
}

/// The mathematical value of a [`FetchEvent`].
pub enum FetchEventView {
    Start,
    Response { status: u16, body: Seq<char> },
    NetworkError,
    Refreshed,
    RefreshFailed,
}

impl View for FetchEvent {
    type V = FetchEventView;

    open spec fn view(&self) -> FetchEventView {
        match *self {
            FetchEvent::Start => FetchEventView::Start,
            FetchEvent::Response { status, body } => FetchEventView::Response {
                status,
                body: body@,
            },
            FetchEvent::NetworkError => FetchEventView::NetworkError,
            FetchEvent::Refreshed => FetchEventView::Refreshed,
            FetchEvent::RefreshFailed => FetchEventView::RefreshFailed,
        }
    }
}

/// What a fetcher wants done next.
#[derive(Debug)]
pub enum FetchAction {
    /// Send this request and report the answer.
    Send(FetchRequest),
    /// Have the token manager refresh, and report how it went.
    Refresh,
    /// The fetch is over: these are the calendar's events.
    Deliver(Vec<EventModel>),
    /// The fetch is over, or the event was refused: no events.
    Fail(FetchError),
}

/// The mathematical value of a [`FetchAction`].
pub enum FetchActionView {
    Send(FetchRequestView),
    Refresh,
    Deliver(Seq<EventModelView>),
    Fail(FetchError),
}

impl View for FetchAction {
    type V = FetchActionView;

    open spec fn view(&self) -> FetchActionView {
        match *self {
            FetchAction::Send(req) => FetchActionView::Send(req@),
            FetchAction::Refresh => FetchActionView::Refresh,
            FetchAction::Deliver(events) => FetchActionView::Deliver(events.deep_view()),
            FetchAction::Fail(e) => FetchActionView::Fail(e),
        }
    }
}

/// The end of a fetch whose answer was a success: the items of the event
/// list, each tied to `calendar`, or a failure where the body held none.
pub open spec fn spec_deliver(
    calendar: Calendar,
    parsed: Option<Seq<EventDataView>>,
) -> FetchActionView {
    match parsed {
        Some(items) => FetchActionView::Deliver(
            Seq::new(
                items.len(),
                |i: int| EventModelView { data: items[i], calendar_id: calendar },
            ),
        ),
        None => FetchActionView::Fail(FetchError::MalformedPayload),
    }
}

/// Ends a fetch whose answer was a success, on the event list that was
/// read from its body, or on `None` where none could be read.
pub fn deliver(calendar: Calendar, parsed: Option<Vec<EventData>>) -> (action: FetchAction)
    ensures
        action@ == spec_deliver(calendar, parsed.deep_view()),
{
    match parsed {
        None => FetchAction::Fail(FetchError::MalformedPayload),
        Some(items) => {
            let ghost source = items.deep_view();
            let mut events: Vec<EventModel> = Vec::new();
            for item in iter: items
                invariant
                    iter.seq().len() == source.len(),
                    forall|k: int| 0 <= k < source.len() ==> (#[trigger] iter.seq()[k])@ == source[k],
                    events.len() == iter.index(),
                    forall|k: int|
                        0 <= k < events.len() ==> (#[trigger] events[k])@ == (EventModelView {
                            data: source[k],
                            calendar_id: calendar,
                        }),
            {
                events.push(EventModel::new(item, calendar));
            }
            assert(events.deep_view() =~= spec_deliver(calendar, Some(source))->Deliver_0);
            FetchAction::Deliver(events)
        },
    }
}

/// The end of a fetch on an answer with `status` that is not taken as a call
/// for a refresh: the events on success, a failure on any other status.
pub open spec fn spec_conclude(
    calendar: Calendar,
    status: u16,
    parsed: Option<Seq<EventDataView>>,
) -> FetchActionView {
    if spec_is_success(status) {
        spec_deliver(calendar, parsed)
    } else {
        FetchActionView::Fail(FetchError::Status(status))
    }
}

/// Fetches the events of one calendar within one time window.
#[derive(Debug)]
pub struct AuthenticatedFetcher {
    pub calendar: Calendar,
    pub window: TimeWindow,
    pub state: FetchState,
}

/// The mathematical value of an [`AuthenticatedFetcher`].
pub struct FetcherView {
    pub calendar: Calendar,
    pub window: TimeWindowView,
    pub state: FetchState,
}

impl View for AuthenticatedFetcher {
    type V = FetcherView;

    open spec fn view(&self) -> FetcherView {
        FetcherView { calendar: self.calendar, window: self.window@, state: self.state }
    }
}

/// The state that follows `event` and the action that answers it, where the
/// token manager's access token is `access_token` at that moment.
///
/// Only the first answer can call for a refresh. After the refresh the same
/// request goes out once more, and whatever comes back ends the fetch. An
/// event that the state does not wait for changes nothing and is refused.
pub open spec fn spec_step(
    fetcher: FetcherView,
    event: FetchEventView,
    access_token: Seq<char>,
) -> (FetchState, FetchActionView) {
    match (fetcher.state, event) {
        (FetchState::Idle, FetchEventView::Start) => (
            FetchState::AwaitingResponse,
            FetchActionView::Send(spec_request(fetcher.calendar, fetcher.window, access_token)),
        ),
        (FetchState::AwaitingResponse, FetchEventView::Response { status, body }) => {
            if spec_is_unauthorized(status) {
                (FetchState::AwaitingRefresh, FetchActionView::Refresh)
            } else {
                (
                    FetchState::Finished,
                    spec_conclude(fetcher.calendar, status, events_payload(body)),
                )
            }
        },
        (FetchState::AwaitingRefresh, FetchEventView::Refreshed) => (
            FetchState::AwaitingRetry,
            FetchActionView::Send(spec_request(fetcher.calendar, fetcher.window, access_token)),
        ),
        (FetchState::AwaitingRefresh, FetchEventView::RefreshFailed) => (
            FetchState::Finished,
            FetchActionView::Fail(FetchError::RefreshFailed),
        ),
        (FetchState::AwaitingRetry, FetchEventView::Response { status, body }) => (
            FetchState::Finished,
            spec_conclude(fetcher.calendar, status, events_payload(body)),
        ),
        (FetchState::AwaitingResponse, FetchEventView::NetworkError) => (
            FetchState::Finished,
            FetchActionView::Fail(FetchError::Network),
        ),
        (FetchState::AwaitingRetry, FetchEventView::NetworkError) => (
            FetchState::Finished,
            FetchActionView::Fail(FetchError::Network),
        ),
        _ => (fetcher.state, FetchActionView::Fail(FetchError::UnexpectedEvent)),
    }
}

impl AuthenticatedFetcher {
    /// A fetcher for the events of `calendar` within `window` that has
    /// sent nothing yet.
    pub fn new(calendar: Calendar, window: TimeWindow) -> (fetcher: Self)
        ensures
            fetcher@ == (FetcherView { calendar, window: window@, state: FetchState::Idle }),
    {
        AuthenticatedFetcher { calendar, window, state: FetchState::Idle }
    }

    /// Ends the fetch on an answer that does not call for a refresh.
    fn conclude(&self, status: u16, body: &str) -> (action: FetchAction)
        ensures
            action@ == spec_conclude(self.calendar, status, events_payload(body@)),
    {
        if is_success(status) {
            deliver(self.calendar, parse_events(body))
        } else {
            FetchAction::Fail(FetchError::Status(status))
        }
    }

    /// Takes `event` and says what is to be done next. `token` is the token
    /// manager as it stands when the event arrives: after a refresh, the
    /// manager with its new access token.
    pub fn step(&mut self, event: FetchEvent, token: &Token) -> (action: FetchAction)
        ensures
            (final(self).state, action@) == spec_step(old(self)@, event@, token@.access_token),
            final(self).calendar == old(self).calendar,
            final(self).window == old(self).window,
    {
        match (self.state, event) {
            (FetchState::Idle, FetchEvent::Start) => {
                self.state = FetchState::AwaitingResponse;
                FetchAction::Send(request(self.calendar, &self.window, token.access_token.as_str()))
            },
            (FetchState::AwaitingResponse, FetchEvent::Response { status, body }) => {
                if is_unauthorized(status) {
                    self.state = FetchState::AwaitingRefresh;
                    FetchAction::Refresh
                } else {
                    self.state = FetchState::Finished;
                    self.conclude(status, body.as_str())
                }
            },
            (FetchState::AwaitingRefresh, FetchEvent::Refreshed) => {
                self.state = FetchState::AwaitingRetry;
                FetchAction::Send(request(self.calendar, &self.window, token.access_token.as_str()))
            },
            (FetchState::AwaitingRefresh, FetchEvent::RefreshFailed) => {
                self.state = FetchState::Finished;
                FetchAction::Fail(FetchError::RefreshFailed)
            },
            (FetchState::AwaitingRetry, FetchEvent::Response { status, body }) => {
                self.state = FetchState::Finished;
                self.conclude(status, body.as_str())
            },
            (FetchState::AwaitingResponse, FetchEvent::NetworkError) => {
                self.state = FetchState::Finished;
                FetchAction::Fail(FetchError::Network)
            },
            (FetchState::AwaitingRetry, FetchEvent::NetworkError) => {
                self.state = FetchState::Finished;
                FetchAction::Fail(FetchError::Network)
            },
            _ => FetchAction::Fail(FetchError::UnexpectedEvent),
        }
    }
}

/// One step of a run: what the fetcher is told, and the access token that
/// the token manager holds at that moment.
pub struct FetchStep {
    pub event: FetchEventView,
    pub access_token: Seq<char>,
}

/// The state in which a fetcher is after `steps`, taken in order.
pub open spec fn spec_run_state(fetcher: FetcherView, steps: Seq<FetchStep>) -> FetchState
    decreases steps.len(),
{
    if steps.len() == 0 {
        fetcher.state
    } else {
        let before = FetcherView {
            state: spec_run_state(fetcher, steps.drop_last()),
            ..fetcher
        };
        spec_step(before, steps.last().event, steps.last().access_token).0
    }
}

/// The actions with which a fetcher answers `steps`, taken in order.
pub open spec fn spec_run_actions(fetcher: FetcherView, steps: Seq<FetchStep>) -> Seq<
    FetchActionView,
>
    decreases steps.len(),
{
    if steps.len() == 0 {
        Seq::empty()
    } else {
        let before = FetcherView {
            state: spec_run_state(fetcher, steps.drop_last()),
            ..fetcher
        };
        spec_run_actions(fetcher, steps.drop_last()).push(
            spec_step(before, steps.last().event, steps.last().access_token).1,
        )
    }
}

/// How many of `actions` ask for a refresh.
pub open spec fn spec_refreshes(actions: Seq<FetchActionView>) -> nat
    decreases actions.len(),
{
    if actions.len() == 0 {
        0
    } else {
        spec_refreshes(actions.drop_last()) + if actions.last() is Refresh {
            1nat
        } else {
            0nat
        }
    }
}

/// How many refreshes a fetcher in `state` may still ask for.
pub open spec fn spec_refreshes_left(state: FetchState) -> nat {
    match state {
        FetchState::Idle => 1,
        FetchState::AwaitingResponse => 1,
        _ => 0,
    }
}

/// Whatever a fetcher is told, and in whatever order, it asks for a refresh
/// no more often than its state allows; with every request for one, what
/// its state allows goes down.
pub proof fn lemma_refreshes_bounded(fetcher: FetcherView, steps: Seq<FetchStep>)
    ensures
        spec_refreshes(spec_run_actions(fetcher, steps)) + spec_refreshes_left(
            spec_run_state(fetcher, steps),
        ) <= spec_refreshes_left(fetcher.state),
    decreases steps.len(),
{
    if steps.len() > 0 {
        lemma_refreshes_bounded(fetcher, steps.drop_last());
        let actions = spec_run_actions(fetcher, steps);
        assert(actions.drop_last() =~= spec_run_actions(fetcher, steps.drop_last()));
    }
}

/// Over any run of a fetcher, from any state and on any events, at most one
/// refresh is asked for.
pub proof fn law_at_most_one_refresh(fetcher: FetcherView, steps: Seq<FetchStep>)
    ensures
        spec_refreshes(spec_run_actions(fetcher, steps)) <= 1,
{
    lemma_refreshes_bounded(fetcher, steps);
}

/// The steps of a fetch whose first answer is `first` and whose second
/// answer, after a refresh that changed the access token from `stale` to
/// `fresh`, is `second`.
pub open spec fn spec_retried_fetch(
    stale: Seq<char>,
    fresh: Seq<char>,
    first: FetchEventView,
    second: FetchEventView,
) -> Seq<FetchStep> {
    seq![
        FetchStep { event: FetchEventView::Start, access_token: stale },
        FetchStep { event: first, access_token: stale },
        FetchStep { event: FetchEventView::Refreshed, access_token: fresh },
        FetchStep { event: second, access_token: fresh },
    ]
}

/// Refresh, then retry. Where the first answer is unauthorized and the
/// answer to the retried request is a success, the fetch sends the request,
/// asks for one refresh, sends the same request with the new access token,
/// and delivers the events of the second answer. Exactly one refresh is
/// asked for.
pub proof fn law_refresh_then_retry(
    fetcher: FetcherView,
    stale: Seq<char>,
    fresh: Seq<char>,
    first_status: u16,
    first_body: Seq<char>,
    status: u16,
    body: Seq<char>,
)
    requires
        fetcher.state == FetchState::Idle,
        spec_is_unauthorized(first_status),
        spec_is_success(status),
    ensures
        ({
            let steps = spec_retried_fetch(
                stale,
                fresh,
                FetchEventView::Response { status: first_status, body: first_body },
                FetchEventView::Response { status, body },
            );
            &&& spec_run_actions(fetcher, steps) == seq![
                FetchActionView::Send(spec_request(fetcher.calendar, fetcher.window, stale)),
                FetchActionView::Refresh,
                FetchActionView::Send(spec_request(fetcher.calendar, fetcher.window, fresh)),
                spec_deliver(fetcher.calendar, events_payload(body)),
            ]
            &&& spec_run_state(fetcher, steps) == FetchState::Finished
            &&& spec_refreshes(spec_run_actions(fetcher, steps)) == 1
        }),
{
    let steps = spec_retried_fetch(
        stale,
        fresh,
        FetchEventView::Response { status: first_status, body: first_body },
        FetchEventView::Response { status, body },
    );
    lemma_run_of_four(fetcher, steps);
    let actions = spec_run_actions(fetcher, steps);
    lemma_refreshes_of_four(actions);
}

/// The second refusal is final. Where the answer to the retried request is
/// unauthorized as well, the fetch fails with that status, is over, and has
/// asked for one refresh only; whatever it is told afterwards is refused and
/// brings no further refresh.
pub proof fn law_second_refusal_is_final(
    fetcher: FetcherView,
    stale: Seq<char>,
    fresh: Seq<char>,
    first_status: u16,
    first_body: Seq<char>,
    status: u16,
    body: Seq<char>,
    later: FetchStep,
)
    requires
        fetcher.state == FetchState::Idle,
        spec_is_unauthorized(first_status),
        spec_is_unauthorized(status),
    ensures
        ({
            let steps = spec_retried_fetch(
                stale,
                fresh,
                FetchEventView::Response { status: first_status, body: first_body },
                FetchEventView::Response { status, body },
            );
            &&& spec_run_actions(fetcher, steps).last() == FetchActionView::Fail(
                FetchError::Status(status),
            )
            &&& spec_run_state(fetcher, steps) == FetchState::Finished
            &&& spec_refreshes(spec_run_actions(fetcher, steps)) == 1
            &&& spec_run_actions(fetcher, steps.push(later)).last() == FetchActionView::Fail(
                FetchError::UnexpectedEvent,
            )
        }),
{
    let steps = spec_retried_fetch(
        stale,
        fresh,
        FetchEventView::Response { status: first_status, body: first_body },
        FetchEventView::Response { status, body },
    );
    lemma_run_of_four(fetcher, steps);
    let actions = spec_run_actions(fetcher, steps);
    lemma_refreshes_of_four(actions);
    assert(steps.push(later).drop_last() =~= steps);
}

/// A run of four steps, written out step by step.
proof fn lemma_run_of_four(fetcher: FetcherView, steps: Seq<FetchStep>)
    requires
        steps.len() == 4,
    ensures
        ({
            let s0 = fetcher;
            let r0 = spec_step(s0, steps[0].event, steps[0].access_token);
            let s1 = FetcherView { state: r0.0, ..fetcher };
            let r1 = spec_step(s1, steps[1].event, steps[1].access_token);
            let s2 = FetcherView { state: r1.0, ..fetcher };
            let r2 = spec_step(s2, steps[2].event, steps[2].access_token);
            let s3 = FetcherView { state: r2.0, ..fetcher };
            let r3 = spec_step(s3, steps[3].event, steps[3].access_token);
            &&& spec_run_actions(fetcher, steps) == seq![r0.1, r1.1, r2.1, r3.1]
            &&& spec_run_state(fetcher, steps) == r3.0
        }),
{
    let upto3 = steps.drop_last();
    let upto2 = upto3.drop_last();
    let upto1 = upto2.drop_last();
    let upto0 = upto1.drop_last();
    assert(upto0.len() == 0);
    assert(spec_run_state(fetcher, upto0) == fetcher.state);
    assert(spec_run_actions(fetcher, upto0) =~= Seq::empty());
    assert(FetcherView { state: fetcher.state, ..fetcher } == fetcher);
    assert(upto1.last() == steps[0]);
    assert(upto2.last() == steps[1]);
    assert(upto3.last() == steps[2]);
    assert(steps.last() == steps[3]);
    let r0 = spec_step(fetcher, steps[0].event, steps[0].access_token);
    assert(spec_run_state(fetcher, upto1) == r0.0);
    assert(spec_run_actions(fetcher, upto1) =~= seq![r0.1]);
    let s1 = FetcherView { state: r0.0, ..fetcher };
    let r1 = spec_step(s1, steps[1].event, steps[1].access_token);
    assert(spec_run_state(fetcher, upto2) == r1.0);
    assert(spec_run_actions(fetcher, upto2) =~= seq![r0.1, r1.1]);
    let s2 = FetcherView { state: r1.0, ..fetcher };
    let r2 = spec_step(s2, steps[2].event, steps[2].access_token);
    assert(spec_run_state(fetcher, upto3) == r2.0);
    assert(spec_run_actions(fetcher, upto3) =~= seq![r0.1, r1.1, r2.1]);
    let s3 = FetcherView { state: r2.0, ..fetcher };
    let r3 = spec_step(s3, steps[3].event, steps[3].access_token);
    assert(spec_run_actions(fetcher, steps) =~= seq![r0.1, r1.1, r2.1, r3.1]);
}

/// Among four actions of which the second alone asks for a refresh, one
/// refresh is asked for.
proof fn lemma_refreshes_of_four(actions: Seq<FetchActionView>)
    requires
        actions.len() == 4,
        !(actions[0] is Refresh),
        actions[1] is Refresh,
        !(actions[2] is Refresh),
        !(actions[3] is Refresh),
    ensures
        spec_refreshes(actions) == 1,
{
    let a3 = actions.drop_last();
    let a2 = a3.drop_last();
    let a1 = a2.drop_last();
    let a0 = a1.drop_last();
    assert(a0.len() == 0);
    assert(spec_refreshes(a0) == 0);
    assert(a1.last() == actions[0]);
    assert(spec_refreshes(a1) == 0);
    assert(a2.last() == actions[1]);
    assert(spec_refreshes(a2) == 1);
    assert(a3.last() == actions[2]);
    assert(spec_refreshes(a3) == 1);
}

/// How the fetch of one calendar ended.
pub type FetchOutcome = Result<Vec<EventModel>, FetchError>;

/// The events of every fetch that succeeded, and the number that failed.
#[derive(Debug)]
pub struct Gathered {
    pub events: Vec<EventModel>,
    pub failed: usize,
}

/// The events among the first `n` of `outcomes`: those of each fetch that
/// succeeded, one calendar after the other. A failed fetch adds nothing and
/// takes nothing away.
pub open spec fn spec_gathered_events(outcomes: Seq<FetchOutcome>, n: int) -> Seq<EventModelView>
    decreases n,
{
    if n <= 0 {
        Seq::empty()
    } else {
        spec_gathered_events(outcomes, n - 1) + match outcomes[n - 1] {
            Ok(events) => events.deep_view(),
            Err(_) => Seq::empty(),
        }
    }
}

/// The number of failed fetches among the first `n` of `outcomes`.
pub open spec fn spec_failures(outcomes: Seq<FetchOutcome>, n: int) -> nat
    decreases n,
{
    if n <= 0 {
        0
    } else {
        spec_failures(outcomes, n - 1) + if outcomes[n - 1] is Err {
            1nat
        } else {
            0nat
        }
    }
}

proof fn lemma_failures_bounded(outcomes: Seq<FetchOutcome>, n: int)
    requires
        0 <= n,
    ensures
        spec_failures(outcomes, n) <= n,
    decreases n,
{
    if n > 0 {
        lemma_failures_bounded(outcomes, n - 1);
    }
}

/// Puts the outcomes of the calendars' fetches together, in their order.
pub fn gather(outcomes: Vec<FetchOutcome>) -> (gathered: Gathered)
    ensures
        gathered.events.deep_view() == spec_gathered_events(outcomes@, outcomes.len() as int),
        gathered.failed == spec_failures(outcomes@, outcomes.len() as int),
{
    let ghost all = outcomes@;
    assert(all.len() == outcomes.len());
    let mut events: Vec<EventModel> = Vec::new();
    let mut failed: usize = 0;
    assert(events.deep_view() =~= spec_gathered_events(all, 0));
    for outcome in iter: outcomes
        invariant
            iter.seq() == all,
            all.len() <= usize::MAX,
            events.deep_view() == spec_gathered_events(all, iter.index() as int),
            failed == spec_failures(all, iter.index() as int),
    {
        proof {
            lemma_failures_bounded(all, iter.index() as int);
        }
        match outcome {
            Ok(mut found) => {
                let ghost before = events.deep_view();
                let ghost added = found.deep_view();
                events.append(&mut found);
                assert(events.deep_view() =~= before + added);
            },
            Err(_) => {
                failed = failed + 1;
                assert(events.deep_view() + Seq::<EventModelView>::empty()
                    =~= events.deep_view());
            },
        }
    }
    Gathered { events, failed }
}

} // verus!
