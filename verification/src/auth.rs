//! The interactive authorization: the redirect that comes back from the
//! browser, the check of its state token, and the exchange that follows.

use vstd::prelude::*;

use crate::text::{first_value, push_decimal, spec_decimal, spec_first_value, to_chars};

verus! {

/// Why an authorization attempt produced no token pair.
#[derive(Debug, Clone, Copy, PartialEq, Eq, Structural)]
pub enum AuthorizationFlowError {
    /// The redirect carries no authorization code.
    MissingCode,
    /// The redirect carries no state token.
    MissingState,
    /// The state token of the redirect is not the one this flow gave out.
    CsrfMismatch,
    /// The provider refused the exchange, or its answer lacks a token.
    ExchangeFailed,
    /// The flow was told of something it had not asked for.
    UnexpectedEvent,
}

/// Whether `c` separates the parts of a request line.
pub open spec fn spec_is_blank(c: char) -> bool {
    c == ' ' || c == '\t' || c == '\r' || c == '\n'
}

/// The first position at or after `from` whose character is not blank, if
/// `blank` holds, or is blank, if it does not; the length of `line` where
/// there is no such position.
pub open spec fn spec_skip(line: Seq<char>, from: int, blank: bool) -> int
    decreases line.len() - from,
{
    if 0 <= from < line.len() && spec_is_blank(line[from]) == blank {
        spec_skip(line, from + 1, blank)
    } else {
        from
    }
}

/// The request target of a request line: its second run of characters that
/// are not blank. `None` where the line has no second run.
pub open spec fn spec_request_target(line: Seq<char>) -> Option<Seq<char>> {
    let method_start = spec_skip(line, 0, true);
    let method_end = spec_skip(line, method_start, false);
    let target_start = spec_skip(line, method_end, true);
    let target_end = spec_skip(line, target_start, false);
    if target_start < line.len() {
        Some(line.subrange(target_start, target_end))
    } else {
        None
    }
}

/// Whether `c` separates the parts of a request line.
pub fn is_blank(c: char) -> (b: bool)
    ensures
        b == spec_is_blank(c),
{
    c == ' ' || c == '\t' || c == '\r' || c == '\n'
}

fn skip(line: &Vec<char>, from: usize, blank: bool) -> (to: usize)
    requires
        from <= line.len(),
    ensures
        to == spec_skip(line@, from as int, blank),
        from <= to <= line.len(),
{
    let mut at: usize = from;
    while at < line.len() && is_blank(line[at]) == blank
        invariant
            from <= at <= line.len(),
            spec_skip(line@, at as int, blank) == spec_skip(line@, from as int, blank),
        decreases line.len() - at,
    {
        at = at + 1;
    }
    at
}

/// The request target of the request line `line`, where it has one.
pub fn request_target(line: &str) -> (target: Option<String>)
    ensures
        target.deep_view() == spec_request_target(line@),
{
    let chars: Vec<char> = to_chars(line);
    let method_start: usize = skip(&chars, 0, true);
    let method_end: usize = skip(&chars, method_start, false);
    let target_start: usize = skip(&chars, method_end, true);
    let target_end: usize = skip(&chars, target_start, false);
    if target_start < chars.len() {
        Some(String::from_str(line.substring_char(target_start, target_end)))
    } else {
        None
    }
}

/// The pairs of key and value in the query of the URL that `url` is,
/// decoded and in the order in which they stand there; `None` where `url` is
/// no absolute URL.
pub uninterp spec fn url_query_pairs(url: Seq<char>) -> Option<Seq<(Seq<char>, Seq<char>)>>;

/// Parses `url` with `oauth2::url::Url::parse` and collects what
/// `Url::query_pairs` hands out. The result is that of the two on this text
/// and on nothing else.
#[verifier::external_body]
fn query_pairs(url: &str) -> (pairs: Option<Vec<(String, String)>>)
    ensures
        pairs.deep_view() == url_query_pairs(url@),
{
    let parsed = oauth2::url::Url::parse(url).ok()?;
    Some(parsed.query_pairs().into_owned().collect())
}

/// The two values that a redirect brings back.
#[derive(Debug)]
pub struct Redirect {
    pub code: String,
    pub state: String,
}

/// The mathematical value of a [`Redirect`].
pub struct RedirectView {
    pub code: Seq<char>,
    pub state: Seq<char>,
}

impl View for Redirect {
    type V = RedirectView;

    open spec fn view(&self) -> RedirectView {
        RedirectView { code: self.code@, state: self.state@ }
    }
}

/// The mathematical value of a redirect that was read, or of the failure to
/// read one.
pub open spec fn spec_redirect_result(
    result: Result<Redirect, AuthorizationFlowError>,
) -> Result<RedirectView, AuthorizationFlowError> {
    match result {
        Ok(redirect) => Ok(redirect@),
        Err(e) => Err(e),
    }
}

/// What the query of a redirect holds: the first `code` and the first
/// `state`. The code is looked for first, so where both are absent the code
/// is reported missing; so it is where there is no query to look in.
pub open spec fn spec_read_redirect(pairs: Option<Seq<(Seq<char>, Seq<char>)>>) -> Result<
    RedirectView,
    AuthorizationFlowError,
> {
    match pairs {
        None => Err(AuthorizationFlowError::MissingCode),
        Some(pairs) => match spec_first_value(pairs, "code"@) {
            None => Err(AuthorizationFlowError::MissingCode),
            Some(code) => match spec_first_value(pairs, "state"@) {
                None => Err(AuthorizationFlowError::MissingState),
                Some(state) => Ok(RedirectView { code, state }),
            },
        },
    }
}

/// The URL whose query is that of the request target `target`.
pub open spec fn spec_redirect_url(target: Seq<char>) -> Seq<char> {
    "http://localhost"@ + target
}

/// What the first line of the redirect's request holds.
pub open spec fn spec_parse_redirect(line: Seq<char>) -> Result<
    RedirectView,
    AuthorizationFlowError,
> {
    match spec_request_target(line) {
        None => Err(AuthorizationFlowError::MissingCode),
        Some(target) => spec_read_redirect(url_query_pairs(spec_redirect_url(target))),
    }
}

/// Reads the code and the state token out of the pairs of a redirect's
/// query, where there is a query.
pub fn read_redirect(pairs: Option<Vec<(String, String)>>) -> (result: Result<
    Redirect,
    AuthorizationFlowError,
>)
    ensures
        spec_redirect_result(result) == spec_read_redirect(pairs.deep_view()),
{
    match pairs {
        None => Err(AuthorizationFlowError::MissingCode),
        Some(pairs) => match first_value(&pairs, "code") {
            None => Err(AuthorizationFlowError::MissingCode),
            Some(code) => match first_value(&pairs, "state") {
                None => Err(AuthorizationFlowError::MissingState),
                Some(state) => Ok(Redirect { code, state }),
            },
        },
    }
}

/// Reads the code and the state token out of the first line of the
/// redirect's request.
pub fn parse_redirect(line: &str) -> (result: Result<Redirect, AuthorizationFlowError>)
    ensures
        spec_redirect_result(result) == spec_parse_redirect(line@),
{
    match request_target(line) {
        None => Err(AuthorizationFlowError::MissingCode),
        Some(target) => {
            let mut url: String = String::from_str("http://localhost");
            url.append(target.as_str());
            read_redirect(query_pairs(url.as_str()))
        },
    }
}

/// The answer that is written back to the browser: a success status, the
/// length of `message` in bytes, and `message`.
pub open spec fn spec_reply(message: Seq<char>) -> Seq<char> {
    "HTTP/1.1 200 OK\r\ncontent-length: "@ + spec_decimal(vstd::utf8::encode_utf8(message).len())
        + "\r\n\r\n"@ + message
}

/// The answer to the browser that carries `message`.
pub fn reply(message: &str) -> (text: String)
    ensures
        text@ == spec_reply(message@),
{
    let mut text: String = String::from_str("HTTP/1.1 200 OK\r\ncontent-length: ");
    push_decimal(&mut text, message.as_bytes().len());
    text.append("\r\n\r\n");
    text.append(message);
    text
}

/// The answer to the one redirect that a flow accepts.
pub fn redirect_reply() -> (text: String)
    ensures
        text@ == spec_reply("Go back to your terminal :)"@),
        text@ == "HTTP/1.1 200 OK\r\ncontent-length: 27\r\n\r\nGo back to your terminal :)"@,
{
    let message: &str = "Go back to your terminal :)";
    let text: String = reply(message);
    proof {
        reveal_strlit("Go back to your terminal :)");
        reveal_strlit("HTTP/1.1 200 OK\r\ncontent-length: ");
        reveal_strlit("\r\n\r\n");
        reveal_strlit("HTTP/1.1 200 OK\r\ncontent-length: 27\r\n\r\nGo back to your terminal :)");
        assert(vstd::string::is_ascii(message));
        vstd::string::is_ascii_spec_bytes(message);
        assert(vstd::utf8::encode_utf8(message@).len() == 27);
        reveal_with_fuel(spec_decimal, 2);
        assert(spec_decimal(27) =~= seq!['2', '7']);
        assert(text@ =~= "HTTP/1.1 200 OK\r\ncontent-length: 27\r\n\r\nGo back to your terminal :)"@);
    }
    text
}

/// The provider's authorization endpoint.
pub const AUTH_ENDPOINT: &'static str = "https://accounts.google.com/o/oauth2/v2/auth";

/// The provider's token endpoint.
pub const TOKEN_ENDPOINT: &'static str = "https://www.googleapis.com/oauth2/v3/token";

/// The provider's revocation endpoint.
pub const REVOCATION_ENDPOINT: &'static str = "https://oauth2.googleapis.com/revoke";

/// The registered redirect URI.
pub const REDIRECT_URI: &'static str = "http://localhost:8080";

/// The address on which the redirect is waited for.
pub const LISTEN_ADDRESS: &'static str = "127.0.0.1:8080";

/// The scope that is asked for: reading calendars.
pub const SCOPE: &'static str = "https://www.googleapis.com/auth/calendar.readonly";

/// What one authorization attempt keeps to itself until the redirect has
/// come back: the code verifier and the state token.
#[derive(Debug)]
pub struct AuthorizationState {
    pub pkce_verifier: String,
    pub csrf_token: String,
}

/// The mathematical value of an [`AuthorizationState`].
pub struct AuthorizationStateView {
    pub pkce_verifier: Seq<char>,
    pub csrf_token: Seq<char>,
}

impl View for AuthorizationState {
    type V = AuthorizationStateView;

    open spec fn view(&self) -> AuthorizationStateView {
        AuthorizationStateView {
            pkce_verifier: self.pkce_verifier@,
            csrf_token: self.csrf_token@,
        }
    }
}

/// What a flow is waiting for.
#[derive(Debug, Clone, Copy, PartialEq, Eq, Structural)]
pub enum FlowPhase {
    /// The authorization URL was given out; the redirect has not come back.
    AwaitingRedirect,
    /// The redirect was accepted and the code is being exchanged.
    AwaitingExchange,
    /// The pair was minted or the attempt failed.
    Finished,
}

/// What a flow is told.
#[derive(Debug)]
pub enum FlowEvent {
    /// The first line of the request on the one connection that was accepted.
    Redirect { request_line: String },
    /// The provider answered the exchange with these tokens.
    Exchanged { access_token: String, refresh_token: Option<String> },
    /// The provider refused the exchange, or could not be reached.
    ExchangeRefused,
}

/// The mathematical value of a [`FlowEvent`].
pub enum FlowEventView {
    Redirect { request_line: Seq<char> },
    Exchanged { access_token: Seq<char>, refresh_token: Option<Seq<char>> },
    ExchangeRefused,
}

impl View for FlowEvent {
    type V = FlowEventView;

    open spec fn view(&self) -> FlowEventView {
        match *self {
            FlowEvent::Redirect { request_line } => FlowEventView::Redirect {
                request_line: request_line@,
            },
            FlowEvent::Exchanged { access_token, refresh_token } => FlowEventView::Exchanged {
                access_token: access_token@,
                refresh_token: refresh_token.deep_view(),
            },
            FlowEvent::ExchangeRefused => FlowEventView::ExchangeRefused,
        }
    }
}

/// What a flow wants done next.
#[derive(Debug)]
pub enum FlowAction {
    /// Write `reply` back on the connection and close it, then exchange
    /// `code` together with `pkce_verifier` for a token pair.
    Exchange { reply: String, code: String, pkce_verifier: String },
    /// The attempt is over: this is the new pair.
    Done { access_token: String, refresh_token: String },
    /// The attempt is over, or the event was refused: no pair.
    Fail(AuthorizationFlowError),
}

/// The mathematical value of a [`FlowAction`].
pub enum FlowActionView {
    Exchange { reply: Seq<char>, code: Seq<char>, pkce_verifier: Seq<char> },
    Done { access_token: Seq<char>, refresh_token: Seq<char> },
    Fail(AuthorizationFlowError),
}

impl View for FlowAction {
    type V = FlowActionView;

    open spec fn view(&self) -> FlowActionView {
        match *self {
            FlowAction::Exchange { reply, code, pkce_verifier } => FlowActionView::Exchange {
                reply: reply@,
                code: code@,
                pkce_verifier: pkce_verifier@,
            },
            FlowAction::Done { access_token, refresh_token } => FlowActionView::Done {
                access_token: access_token@,
                refresh_token: refresh_token@,
            },
            FlowAction::Fail(e) => FlowActionView::Fail(e),
        }
    }
}

/// One interactive authorization attempt.
#[derive(Debug)]
pub struct AuthorizationFlow {
    pub state: AuthorizationState,
    pub phase: FlowPhase,
}

/// The mathematical value of an [`AuthorizationFlow`].
pub struct FlowView {
    pub state: AuthorizationStateView,
    pub phase: FlowPhase,
}

impl View for AuthorizationFlow {
    type V = FlowView;

    open spec fn view(&self) -> FlowView {
        FlowView { state: self.state@, phase: self.phase }
    }
}

/// What follows a redirect that was read, or could not be. A flow that
/// waits for its redirect moves on to the exchange where the state token of
/// the redirect is its own, and fails where it is not or nothing was read.
/// Any other flow refuses the redirect and stays as it is.
pub open spec fn spec_accept_redirect(
    flow: FlowView,
    redirect: Result<RedirectView, AuthorizationFlowError>,
) -> (FlowPhase, FlowActionView) {
    if flow.phase != FlowPhase::AwaitingRedirect {
        (flow.phase, FlowActionView::Fail(AuthorizationFlowError::UnexpectedEvent))
    } else {
        match redirect {
            Err(e) => (FlowPhase::Finished, FlowActionView::Fail(e)),
            Ok(redirect) => if redirect.state == flow.state.csrf_token {
                (
                    FlowPhase::AwaitingExchange,
                    FlowActionView::Exchange {
                        reply: spec_reply("Go back to your terminal :)"@),
                        code: redirect.code,
                        pkce_verifier: flow.state.pkce_verifier,
                    },
                )
            } else {
                (FlowPhase::Finished, FlowActionView::Fail(AuthorizationFlowError::CsrfMismatch))
            },
        }
    }
}

/// What follows the provider's answer to the exchange: the pair, where both
/// tokens are there and neither is empty, and a failure otherwise.
pub open spec fn spec_accept_exchange(
    access_token: Seq<char>,
    refresh_token: Option<Seq<char>>,
) -> FlowActionView {
    match refresh_token {
        Some(refresh_token) => if access_token.len() > 0 && refresh_token.len() > 0 {
            FlowActionView::Done { access_token, refresh_token }
        } else {
            FlowActionView::Fail(AuthorizationFlowError::ExchangeFailed)
        },
        None => FlowActionView::Fail(AuthorizationFlowError::ExchangeFailed),
    }
}

/// The phase that follows `event` and the action that answers it. A flow
/// accepts one redirect and one answer to its exchange. An event that the
/// phase does not wait for changes nothing and is refused.
pub open spec fn spec_flow_step(flow: FlowView, event: FlowEventView) -> (
    FlowPhase,
    FlowActionView,
) {
    match (flow.phase, event) {
        (_, FlowEventView::Redirect { request_line }) => {
            spec_accept_redirect(flow, spec_parse_redirect(request_line))
        },
        (FlowPhase::AwaitingExchange, FlowEventView::Exchanged { access_token, refresh_token }) => (
            FlowPhase::Finished,
            spec_accept_exchange(access_token, refresh_token),
        ),
        (FlowPhase::AwaitingExchange, FlowEventView::ExchangeRefused) => (
            FlowPhase::Finished,
            FlowActionView::Fail(AuthorizationFlowError::ExchangeFailed),
        ),
        _ => (flow.phase, FlowActionView::Fail(AuthorizationFlowError::UnexpectedEvent)),
    }
}

/// A state token from `oauth2::CsrfToken::new_random`: 128 random bits in
/// base64. It differs from call to call; of every outcome no more is held
/// than that it is not empty.
#[verifier::external_body]
fn fresh_state_token() -> (token: String)
    ensures
        token@.len() > 0,
{
    oauth2::CsrfToken::new_random().secret().clone()
}

/// A code verifier from `oauth2::PkceCodeChallenge::new_random_sha256`. It
/// differs from call to call; of every outcome no more is held than its
/// length, which the crate itself insists on before it hands the pair out.
#[verifier::external_body]
fn fresh_code_verifier() -> (verifier: String)
    ensures
        spec_verifier_usable(verifier@),
{
    oauth2::PkceCodeChallenge::new_random_sha256().1.secret().clone()
}

impl AuthorizationFlow {
    /// A flow that waits for the redirect to the authorization URL `url`,
    /// with `csrf_token` as its state token and `pkce_verifier` as its code
    /// verifier. There is none where a secret is empty: an empty state token
    /// would be matched by a redirect that was never asked for.
    pub fn with_secrets(url: String, csrf_token: String, pkce_verifier: String) -> (started:
        Option<(AuthorizationFlow, String)>)
        ensures
            started is Some <==> csrf_token@.len() > 0 && pkce_verifier@.len() > 0,
            started matches Some((flow, shown)) ==> {
                &&& flow@ == (FlowView {
                    state: AuthorizationStateView {
                        pkce_verifier: pkce_verifier@,
                        csrf_token: csrf_token@,
                    },
                    phase: FlowPhase::AwaitingRedirect,
                })
                &&& shown@ == url@
            },
    {
        if csrf_token.as_str().is_empty() || pkce_verifier.as_str().is_empty() {
            None
        } else {
            let state = AuthorizationState { pkce_verifier, csrf_token };
            Some((AuthorizationFlow { state, phase: FlowPhase::AwaitingRedirect }, url))
        }
    }

    /// Starts an attempt for `client_id` with a fresh state token and code
    /// verifier, and shows its URL; none where an address is no URL.
    pub fn begin(client_id: &str) -> (started: Option<(AuthorizationFlow, String)>)
        ensures
            started is Some <==> spec_endpoints_usable(),
            started matches Some((flow, shown)) ==> {
                &&& flow@.phase == FlowPhase::AwaitingRedirect
                &&& flow@.state.csrf_token.len() > 0
                &&& spec_verifier_usable(flow@.state.pkce_verifier)
                &&& Some(shown@) == spec_authorization_url(
                    client_id@,
                    flow@.state.csrf_token,
                    flow@.state.pkce_verifier,
                )
            },
    {
        let csrf_token: String = fresh_state_token();
        let pkce_verifier: String = fresh_code_verifier();
        AuthorizationFlow::start(client_id, csrf_token, pkce_verifier)
    }

    /// Starts an attempt for the client `client_id` with the state token
    /// `csrf_token` and the code verifier `pkce_verifier`. There is none
    /// where the state token is empty, the code verifier has not the length
    /// of one, or one of the provider's two addresses is no URL.
    pub fn start(client_id: &str, csrf_token: String, pkce_verifier: String) -> (started: Option<
        (AuthorizationFlow, String),
    >)
        ensures
            spec_started(started) == spec_start(client_id@, csrf_token@, pkce_verifier@),
            started is Some <==> csrf_token@.len() > 0 && spec_verifier_usable(pkce_verifier@)
                && spec_endpoints_usable(),
    {
        let length: usize = pkce_verifier.as_str().as_bytes().len();
        if csrf_token.as_str().is_empty() || length < 43 || length > 128 {
            return None;
        }
        let url = authorization_url(
            AUTH_ENDPOINT,
            client_id,
            REDIRECT_URI,
            SCOPE,
            pkce_verifier.as_str(),
            csrf_token.as_str(),
        );
        match url {
            Some(url) => AuthorizationFlow::with_secrets(url, csrf_token, pkce_verifier),
            None => None,
        }
    }

    /// Decides on a redirect that was read, or could not be.
    pub fn accept_redirect(&mut self, redirect: Result<Redirect, AuthorizationFlowError>) -> (action:
        FlowAction)
        ensures
            (final(self).phase, action@) == spec_accept_redirect(
                old(self)@,
                spec_redirect_result(redirect),
            ),
            final(self).state == old(self).state,
    {
        if self.phase != FlowPhase::AwaitingRedirect {
            return FlowAction::Fail(AuthorizationFlowError::UnexpectedEvent);
        }
        match redirect {
            Err(e) => {
                self.phase = FlowPhase::Finished;
                FlowAction::Fail(e)
            },
            Ok(redirect) => {
                if redirect.state == self.state.csrf_token {
                    self.phase = FlowPhase::AwaitingExchange;
                    FlowAction::Exchange {
                        reply: redirect_reply(),
                        code: redirect.code,
                        pkce_verifier: self.state.pkce_verifier.clone(),
                    }
                } else {
                    self.phase = FlowPhase::Finished;
                    FlowAction::Fail(AuthorizationFlowError::CsrfMismatch)
                }
            },
        }
    }

    /// Decides on the provider's answer to the exchange.
    pub fn accept_exchange(access_token: String, refresh_token: Option<String>) -> (action:
        FlowAction)
        ensures
            action@ == spec_accept_exchange(access_token@, refresh_token.deep_view()),
    {
        match refresh_token {
            Some(refresh_token) => {
                if access_token.as_str().is_empty() || refresh_token.as_str().is_empty() {
                    FlowAction::Fail(AuthorizationFlowError::ExchangeFailed)
                } else {
                    FlowAction::Done { access_token, refresh_token }
                }
            },
            None => FlowAction::Fail(AuthorizationFlowError::ExchangeFailed),
        }
    }

    /// Takes `event` and says what is to be done next.
    pub fn step(&mut self, event: FlowEvent) -> (action: FlowAction)
        ensures
            (final(self).phase, action@) == spec_flow_step(old(self)@, event@),
            final(self).state == old(self).state,
    {
        match (self.phase, event) {
            (FlowPhase::AwaitingRedirect, FlowEvent::Redirect { request_line }) => {
                self.accept_redirect(parse_redirect(request_line.as_str()))
            },
            (_, FlowEvent::Redirect { .. }) => FlowAction::Fail(
                AuthorizationFlowError::UnexpectedEvent,
            ),
            (FlowPhase::AwaitingExchange, FlowEvent::Exchanged { access_token, refresh_token }) => {
                self.phase = FlowPhase::Finished;
                AuthorizationFlow::accept_exchange(access_token, refresh_token)
            },
            (FlowPhase::AwaitingExchange, FlowEvent::ExchangeRefused) => {
                self.phase = FlowPhase::Finished;
                FlowAction::Fail(AuthorizationFlowError::ExchangeFailed)
            },
            _ => FlowAction::Fail(AuthorizationFlowError::UnexpectedEvent),
        }
    }
}

/// Whether `verifier` has the length of a code verifier: 43 to 128 bytes.
pub open spec fn spec_verifier_usable(verifier: Seq<char>) -> bool {
    43 <= vstd::utf8::encode_utf8(verifier).len() <= 128
}

/// Whether both `first` and `second` are absolute URLs.
pub open spec fn spec_both_urls(first: Seq<char>, second: Seq<char>) -> bool {
    url_query_pairs(first) is Some && url_query_pairs(second) is Some
}

/// Whether the provider's authorization endpoint and the registered redirect
/// address are URLs.
pub open spec fn spec_endpoints_usable() -> bool {
    spec_both_urls(AUTH_ENDPOINT@, REDIRECT_URI@)
}

/// The text of the authorization URL for the client `client_id` that carries
/// the state token `csrf_token`, the scope `scope` and the SHA-256 challenge
/// of the code verifier `pkce_verifier`, and names `redirect_uri` as the
/// address to come back to; `None` where an address is no URL.
pub uninterp spec fn oauth_authorization_url(
    auth_endpoint: Seq<char>,
    client_id: Seq<char>,
    redirect_uri: Seq<char>,
    scope: Seq<char>,
    pkce_verifier: Seq<char>,
    csrf_token: Seq<char>,
) -> Option<Seq<char>>;

/// The authorization URL that a flow of this library shows: against the
/// provider's authorization endpoint, with the registered redirect address
/// and the scope of reading calendars.
pub open spec fn spec_authorization_url(
    client_id: Seq<char>,
    csrf_token: Seq<char>,
    pkce_verifier: Seq<char>,
) -> Option<Seq<char>> {
    oauth_authorization_url(
        AUTH_ENDPOINT@,
        client_id,
        REDIRECT_URI@,
        SCOPE@,
        pkce_verifier,
        csrf_token,
    )
}

/// The flow that starts with the given secrets, and the URL it shows.
pub open spec fn spec_start(
    client_id: Seq<char>,
    csrf_token: Seq<char>,
    pkce_verifier: Seq<char>,
) -> Option<(FlowView, Seq<char>)> {
    if csrf_token.len() > 0 && spec_verifier_usable(pkce_verifier) {
        match spec_authorization_url(client_id, csrf_token, pkce_verifier) {
            Some(url) => Some(
                (
                    FlowView {
                        state: AuthorizationStateView { pkce_verifier, csrf_token },
                        phase: FlowPhase::AwaitingRedirect,
                    },
                    url,
                ),
            ),
            None => None,
        }
    } else {
        None
    }
}

/// The mathematical value of a flow that was started, or of none.
pub open spec fn spec_started(started: Option<(AuthorizationFlow, String)>) -> Option<
    (FlowView, Seq<char>),
> {
    match started {
        Some((flow, url)) => Some((flow@, url@)),
        None => None,
    }
}

/// Builds the authorization URL with the `oauth2` crate: a `BasicClient`
/// with the given client, endpoint and redirect address, and
/// `Client::authorize_url` with the state token, the scope and the challenge
/// that `PkceCodeChallenge::from_code_verifier_sha256` makes of the code
/// verifier; the text is that of `AuthorizationRequest::url`. It is a
/// function of the six texts alone. There is none exactly where
/// `AuthUrl::new` or `RedirectUrl::new` refuses its address, which each does
/// where `Url::parse` does. A code verifier of another length makes the
/// crate panic and is left out.
#[verifier::external_body]
fn authorization_url(
    auth_endpoint: &str,
    client_id: &str,
    redirect_uri: &str,
    scope: &str,
    pkce_verifier: &str,
    csrf_token: &str,
) -> (url: Option<String>)
    requires
        spec_verifier_usable(pkce_verifier@),
    ensures
        url.deep_view() == oauth_authorization_url(
            auth_endpoint@,
            client_id@,
            redirect_uri@,
            scope@,
            pkce_verifier@,
            csrf_token@,
        ),
        url is Some <==> spec_both_urls(auth_endpoint@, redirect_uri@),
{
    let auth = oauth2::AuthUrl::new(auth_endpoint.to_string()).ok()?;
    let redirect = oauth2::RedirectUrl::new(redirect_uri.to_string()).ok()?;
    let client = oauth2::basic::BasicClient::new(oauth2::ClientId::new(client_id.to_string()))
        .set_auth_uri(auth)
        .set_redirect_uri(redirect);
    let verifier = oauth2::PkceCodeVerifier::new(pkce_verifier.to_string());
    let challenge = oauth2::PkceCodeChallenge::from_code_verifier_sha256(&verifier);
    let state = oauth2::CsrfToken::new(csrf_token.to_string());
    let request = client.authorize_url(move || state);
    let scoped = request.add_scope(oauth2::Scope::new(scope.to_string()));
    Some(scoped.set_pkce_challenge(challenge).url().0.to_string())
}

/// A redirect whose state token is not the one this flow gave out ends the
/// flow with `CsrfMismatch`. No exchange is asked for then, nor at any later
/// time: whatever the flow is told afterwards is refused.
pub proof fn law_csrf_mismatch_stops_flow(
    flow: FlowView,
    request_line: Seq<char>,
    later: FlowEventView,
)
    requires
        flow.phase == FlowPhase::AwaitingRedirect,
        spec_parse_redirect(request_line) matches Ok(redirect) && redirect.state
            != flow.state.csrf_token,
    ensures
        spec_flow_step(flow, FlowEventView::Redirect { request_line }) == (
            FlowPhase::Finished,
            FlowActionView::Fail(AuthorizationFlowError::CsrfMismatch),
        ),
        spec_flow_step(FlowView { phase: FlowPhase::Finished, ..flow }, later) == (
            FlowPhase::Finished,
            FlowActionView::Fail(AuthorizationFlowError::UnexpectedEvent),
        ),
{
}

/// A flow asks for an exchange in one case only: it was waiting for the
/// redirect, and the redirect brought a code together with the state token
/// that the flow gave out. The code that goes to the exchange is the code of
/// that redirect, and the verifier is the flow's own.
pub proof fn law_exchange_needs_matching_state(flow: FlowView, event: FlowEventView)
    requires
        spec_flow_step(flow, event).1 is Exchange,
    ensures
        flow.phase == FlowPhase::AwaitingRedirect,
        ({
            &&& event matches FlowEventView::Redirect { request_line }
            &&& spec_parse_redirect(request_line) matches Ok(redirect)
            &&& spec_flow_step(flow, event).1 matches FlowActionView::Exchange {
                code,
                pkce_verifier,
                ..
            }
            &&& redirect.state == flow.state.csrf_token
            &&& code == redirect.code
            &&& pkce_verifier == flow.state.pkce_verifier
        }),
{
}

} // verus!
