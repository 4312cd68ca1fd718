//! The credential lifecycle: the token pair, its stored record, the refresh
//! of the access token, and the steps that make a manager ready for use.

use vstd::prelude::*;

use crate::auth::AuthorizationFlowError;
use crate::text::{first_value, spec_first_value};

verus! {

/// Where a token manager stands in its life.
#[derive(Debug, Clone, Copy, PartialEq, Eq, Structural)]
pub enum Phase {
    /// Made, and nothing asked for yet.
    Created,
    /// The stored record has been asked for.
    Loading,
    /// A stored pair was found and its refresh token is being tried.
    Refreshing,
    /// No stored pair exists and the interactive authorization is running.
    Authorizing,
    /// The pair is being written to the store.
    Saving,
    /// The pair is live and stored.
    Ready,
    /// Bootstrapping failed.
    Failed,
}

/// The token manager: the live access and refresh token of one client.
#[derive(Debug)]
pub struct Token {
    pub access_token: String,
    pub refresh_token: String,
    pub client_id: String,
    pub client_secret: String,
    pub phase: Phase,
}

/// The mathematical value of a [`Token`].
pub struct TokenView {
    pub access_token: Seq<char>,
    pub refresh_token: Seq<char>,
    pub client_id: Seq<char>,
    pub client_secret: Seq<char>,
    pub phase: Phase,
}

impl View for Token {
    type V = TokenView;

    open spec fn view(&self) -> TokenView {
        TokenView {
            access_token: self.access_token@,
            refresh_token: self.refresh_token@,
            client_id: self.client_id@,
            client_secret: self.client_secret@,
            phase: self.phase,
        }
    }
}

/// An access token together with the refresh token that renews it.
#[derive(Debug)]
pub struct TokenPair {
    pub access_token: String,
    pub refresh_token: String,
}

/// The mathematical value of a [`TokenPair`].
pub struct TokenPairView {
    pub access_token: Seq<char>,
    pub refresh_token: Seq<char>,
}

impl View for TokenPair {
    type V = TokenPairView;

    open spec fn view(&self) -> TokenPairView {
        TokenPairView { access_token: self.access_token@, refresh_token: self.refresh_token@ }
    }
}

impl TokenPairView {
    /// Whether neither token is empty.
    pub open spec fn complete(self) -> bool {
        self.access_token.len() > 0 && self.refresh_token.len() > 0
    }
}

/// Why the stored record gave no pair, or took none.
#[derive(Debug, Clone, Copy, PartialEq, Eq, Structural)]
pub enum StoreError {
    /// There is no stored record.
    NotFound,
    /// The stored record does not hold the two tokens.
    Corrupt,
    /// The store could not be read or written.
    Io,
}

/// Why a refresh left the access token as it was.
#[derive(Debug, Clone, Copy, PartialEq, Eq, Structural)]
pub enum RefreshError {
    /// The provider refused the refresh token, could not be reached, or
    /// answered without an access token.
    RefreshFailed,
    /// The manager has no live pair to refresh.
    NotReady,
}

/// Why a manager did not become ready.
#[derive(Debug, Clone, Copy, PartialEq, Eq, Structural)]
pub enum BootstrapError {
    /// The store failed, on reading or on writing.
    Store(StoreError),
    /// The stored refresh token is no longer good.
    Refresh,
    /// The interactive authorization failed.
    Authorization(AuthorizationFlowError),
    /// The manager was told of something it had not asked for.
    UnexpectedEvent,
}

/// The members of the JSON object that `text` is, each with its value, in
/// the order of their keys; `None` where `text` is no JSON object whose
/// values are all strings.
pub uninterp spec fn json_string_map(text: Seq<char>) -> Option<Seq<(Seq<char>, Seq<char>)>>;

/// The JSON text of the object that has `fields` as its members, each value
/// a string.
pub uninterp spec fn json_object_text(fields: Seq<(Seq<char>, Seq<char>)>) -> Seq<char>;

/// Reads `text` with `serde_json::from_str` as a map from strings to strings
/// and hands out its entries. The result is that of the reader on this text
/// and on nothing else; the map is an ordered one, so that the entries come
/// in one order only.
#[verifier::external_body]
fn parse_string_map(text: &str) -> (fields: Option<Vec<(String, String)>>)
    ensures
        fields.deep_view() == json_string_map(text@),
{
    let map = serde_json::from_str::<std::collections::BTreeMap<String, String>>(text).ok()?;
    Some(map.into_iter().collect())
}

/// Makes a `serde_json::Value` object of `fields`, each value a JSON string,
/// and writes it out with the value's `to_string`. The result is that of the
/// writer on these fields and on nothing else.
#[verifier::external_body]
fn object_text(fields: &Vec<(String, String)>) -> (text: String)
    ensures
        text@ == json_object_text(fields.deep_view()),
{
    let members = fields.iter().map(|f| (f.0.clone(), serde_json::Value::String(f.1.clone())));
    serde_json::Value::Object(members.collect()).to_string()
}

/// The members of the stored record of a pair.
pub open spec fn spec_record_fields(pair: TokenPairView) -> Seq<(Seq<char>, Seq<char>)> {
    seq![("access_token"@, pair.access_token), ("refresh_token"@, pair.refresh_token)]
}

/// The text of the stored record of a pair.
pub open spec fn spec_save_tokens(pair: TokenPairView) -> Seq<char> {
    json_object_text(spec_record_fields(pair))
}

/// The pair that the members of a stored record hold. The record is corrupt
/// where it could not be read, where a token is absent, and where one is
/// empty.
pub open spec fn spec_read_record(fields: Option<Seq<(Seq<char>, Seq<char>)>>) -> Result<
    TokenPairView,
    StoreError,
> {
    match fields {
        None => Err(StoreError::Corrupt),
        Some(fields) => match (
            spec_first_value(fields, "access_token"@),
            spec_first_value(fields, "refresh_token"@),
        ) {
            (Some(access_token), Some(refresh_token)) => {
                let pair = TokenPairView { access_token, refresh_token };
                if pair.complete() {
                    Ok(pair)
                } else {
                    Err(StoreError::Corrupt)
                }
            },
            _ => Err(StoreError::Corrupt),
        },
    }
}

/// The pair that the text of a stored record holds.
pub open spec fn spec_load_tokens(text: Seq<char>) -> Result<TokenPairView, StoreError> {
    spec_read_record(json_string_map(text))
}

/// The mathematical value of a pair that was read, or of the failure to
/// read one.
pub open spec fn spec_pair_result(result: Result<TokenPair, StoreError>) -> Result<
    TokenPairView,
    StoreError,
> {
    match result {
        Ok(pair) => Ok(pair@),
        Err(e) => Err(e),
    }
}

/// What is written is read back: the members of the record of a pair in
/// which neither token is empty hold that pair.
pub proof fn law_record_fields_hold_pair(pair: TokenPairView)
    requires
        pair.complete(),
    ensures
        spec_read_record(Some(spec_record_fields(pair))) == Ok::<TokenPairView, StoreError>(pair),
{
    reveal_strlit("access_token");
    reveal_strlit("refresh_token");
    let fields = spec_record_fields(pair);
    assert("access_token"@[0] == 'a');
    assert("refresh_token"@[0] == 'r');
    assert(fields[0].0 == "access_token"@);
    assert(fields[0].0 != "refresh_token"@);
    assert(spec_first_value(fields, "access_token"@) == Some(pair.access_token));
    assert(fields.drop_first()[0] == fields[1]);
    assert(spec_first_value(fields.drop_first(), "refresh_token"@) == Some(pair.refresh_token));
    assert(spec_first_value(fields, "refresh_token"@) == Some(pair.refresh_token));
}

/// Reads the pair out of the members of a stored record.
pub fn read_record(fields: Option<Vec<(String, String)>>) -> (result: Result<
    TokenPair,
    StoreError,
>)
    ensures
        spec_pair_result(result) == spec_read_record(fields.deep_view()),
{
    match fields {
        None => Err(StoreError::Corrupt),
        Some(fields) => {
            let access_token = first_value(&fields, "access_token");
            let refresh_token = first_value(&fields, "refresh_token");
            match (access_token, refresh_token) {
                (Some(access_token), Some(refresh_token)) => {
                    if access_token.as_str().is_empty() || refresh_token.as_str().is_empty() {
                        Err(StoreError::Corrupt)
                    } else {
                        Ok(TokenPair { access_token, refresh_token })
                    }
                },
                _ => Err(StoreError::Corrupt),
            }
        },
    }
}

/// How the provider answered a request for a refresh.
#[derive(Debug)]
pub enum RefreshOutcome {
    /// A new access token, and a new refresh token where one was issued.
    Granted { access_token: String, refresh_token: Option<String> },
    /// The provider refused, or could not be reached.
    Refused,
}

/// The mathematical value of a [`RefreshOutcome`].
pub enum RefreshOutcomeView {
    Granted { access_token: Seq<char>, refresh_token: Option<Seq<char>> },
    Refused,
}

impl View for RefreshOutcome {
    type V = RefreshOutcomeView;

    open spec fn view(&self) -> RefreshOutcomeView {
        match *self {
            RefreshOutcome::Granted { access_token, refresh_token } => RefreshOutcomeView::Granted {
                access_token: access_token@,
                refresh_token: refresh_token.deep_view(),
            },
            RefreshOutcome::Refused => RefreshOutcomeView::Refused,
        }
    }
}

/// The pair that a refresh leaves behind where the refresh token was
/// `current`, or `None` where it failed. The access token is always
/// replaced. The refresh token stays unless the provider issued a new one;
/// an empty one counts as none. An answer without an access token is a
/// failure.
pub open spec fn spec_refreshed_pair(
    current: Seq<char>,
    outcome: RefreshOutcomeView,
) -> Option<TokenPairView> {
    match outcome {
        RefreshOutcomeView::Refused => None,
        RefreshOutcomeView::Granted { access_token, refresh_token } => {
            if access_token.len() == 0 {
                None
            } else {
                Some(
                    TokenPairView {
                        access_token,
                        refresh_token: match refresh_token {
                            Some(issued) => if issued.len() > 0 {
                                issued
                            } else {
                                current
                            },
                            None => current,
                        },
                    },
                )
            }
        },
    }
}

/// What a manager is told while it is made ready.
#[derive(Debug)]
pub enum BootstrapEvent {
    /// Bootstrapping is to begin.
    Begin,
    /// The stored record was read; this is its text.
    Loaded { text: String },
    /// The stored record could not be read.
    LoadFailed(StoreError),
    /// The provider answered the refresh of the stored pair.
    Refreshed(RefreshOutcome),
    /// The interactive authorization minted this pair.
    Authorized { access_token: String, refresh_token: String },
    /// The interactive authorization failed.
    AuthorizationFailed(AuthorizationFlowError),
    /// The record was written.
    Saved,
    /// The record could not be written.
    SaveFailed,
}

/// The mathematical value of a [`BootstrapEvent`].
pub enum BootstrapEventView {
    Begin,
    Loaded { text: Seq<char> },
    LoadFailed(StoreError),
    Refreshed(RefreshOutcomeView),
    Authorized { access_token: Seq<char>, refresh_token: Seq<char> },
    AuthorizationFailed(AuthorizationFlowError),
    Saved,
    SaveFailed,
}

impl View for BootstrapEvent {
    type V = BootstrapEventView;

    open spec fn view(&self) -> BootstrapEventView {
        match *self {
            BootstrapEvent::Begin => BootstrapEventView::Begin,
            BootstrapEvent::Loaded { text } => BootstrapEventView::Loaded { text: text@ },
            BootstrapEvent::LoadFailed(e) => BootstrapEventView::LoadFailed(e),
            BootstrapEvent::Refreshed(outcome) => BootstrapEventView::Refreshed(outcome@),
            BootstrapEvent::Authorized { access_token, refresh_token } => {
                BootstrapEventView::Authorized {
                    access_token: access_token@,
                    refresh_token: refresh_token@,
                }
            },
            BootstrapEvent::AuthorizationFailed(e) => BootstrapEventView::AuthorizationFailed(e),
            BootstrapEvent::Saved => BootstrapEventView::Saved,
            BootstrapEvent::SaveFailed => BootstrapEventView::SaveFailed,
        }
    }
}

/// What a manager wants done next while it is made ready.
#[derive(Debug)]
pub enum BootstrapAction {
    /// Read the stored record and report its text, or why there is none.
    Load,
    /// Exchange this refresh token for a new access token and report the
    /// provider's answer.
    Refresh { refresh_token: String },
    /// Run the interactive authorization and report how it ended.
    Authorize,
    /// Write this text as the stored record and report whether it was.
    Save { record: String },
    /// The manager is ready.
    Done,
    /// The manager did not become ready, or the event was refused.
    Fail(BootstrapError),
}

/// The mathematical value of a [`BootstrapAction`].
pub enum BootstrapActionView {
    Load,
    Refresh { refresh_token: Seq<char> },
    Authorize,
    Save { record: Seq<char> },
    Done,
    Fail(BootstrapError),
}

impl View for BootstrapAction {
    type V = BootstrapActionView;

    open spec fn view(&self) -> BootstrapActionView {
        match *self {
            BootstrapAction::Load => BootstrapActionView::Load,
            BootstrapAction::Refresh { refresh_token } => BootstrapActionView::Refresh {
                refresh_token: refresh_token@,
            },
            BootstrapAction::Authorize => BootstrapActionView::Authorize,
            BootstrapAction::Save { record } => BootstrapActionView::Save { record: record@ },
            BootstrapAction::Done => BootstrapActionView::Done,
            BootstrapAction::Fail(e) => BootstrapActionView::Fail(e),
        }
    }
}

impl TokenView {
    /// The pair that the manager holds.
    pub open spec fn pair(self) -> TokenPairView {
        TokenPairView { access_token: self.access_token, refresh_token: self.refresh_token }
    }

    /// The manager with `pair` in place of its own and in phase `phase`.
    pub open spec fn with(self, pair: TokenPairView, phase: Phase) -> TokenView {
        TokenView {
            access_token: pair.access_token,
            refresh_token: pair.refresh_token,
            phase,
            ..self
        }
    }

    /// The manager in phase `phase`, its pair untouched.
    pub open spec fn in_phase(self, phase: Phase) -> TokenView {
        TokenView { phase, ..self }
    }

    /// The invariant of a manager: once its pair is being stored, and from
    /// then on, neither token is empty.
    pub open spec fn well_formed(self) -> bool {
        (self.phase == Phase::Saving || self.phase == Phase::Ready) ==> self.pair().complete()
    }
}

/// What a manager that waits for its stored record does with the pair that
/// was read, or with the failure to read one: a pair is tried by a refresh,
/// and a record that is corrupt ends the bootstrap.
pub open spec fn spec_accept_record(
    token: TokenView,
    loaded: Result<TokenPairView, StoreError>,
) -> (TokenView, BootstrapActionView) {
    match loaded {
        Ok(pair) => (
            token.with(pair, Phase::Refreshing),
            BootstrapActionView::Refresh { refresh_token: pair.refresh_token },
        ),
        Err(e) => (
            token.in_phase(Phase::Failed),
            BootstrapActionView::Fail(BootstrapError::Store(e)),
        ),
    }
}

/// What a manager does with a pair that is to become its live pair: where
/// neither token is empty it takes the pair and has it stored, with
/// `record` as the text; otherwise the bootstrap fails with `error`.
pub open spec fn spec_adopt(
    token: TokenView,
    pair: Option<TokenPairView>,
    error: BootstrapError,
) -> (TokenView, BootstrapActionView) {
    match pair {
        Some(pair) => if pair.complete() {
            (
                token.with(pair, Phase::Saving),
                BootstrapActionView::Save { record: spec_save_tokens(pair) },
            )
        } else {
            (token.in_phase(Phase::Failed), BootstrapActionView::Fail(error))
        },
        None => (token.in_phase(Phase::Failed), BootstrapActionView::Fail(error)),
    }
}

/// The manager that follows `event` and the action that answers it.
///
/// A stored pair is loaded and at once tried by a refresh. Where no record
/// exists the interactive authorization mints a pair; any other failure of
/// the store ends the bootstrap. On either path the pair is written to the
/// store before the manager is ready. An event that the phase does not wait
/// for changes nothing and is refused.
pub open spec fn spec_bootstrap(token: TokenView, event: BootstrapEventView) -> (
    TokenView,
    BootstrapActionView,
) {
    match (token.phase, event) {
        (Phase::Created, BootstrapEventView::Begin) => (
            token.in_phase(Phase::Loading),
            BootstrapActionView::Load,
        ),
        (Phase::Loading, BootstrapEventView::Loaded { text }) => spec_accept_record(
            token,
            spec_load_tokens(text),
        ),
        (Phase::Loading, BootstrapEventView::LoadFailed(e)) => if e == StoreError::NotFound {
            (token.in_phase(Phase::Authorizing), BootstrapActionView::Authorize)
        } else {
            (token.in_phase(Phase::Failed), BootstrapActionView::Fail(BootstrapError::Store(e)))
        },
        (Phase::Refreshing, BootstrapEventView::Refreshed(outcome)) => spec_adopt(
            token,
            spec_refreshed_pair(token.refresh_token, outcome),
            BootstrapError::Refresh,
        ),
        (Phase::Authorizing, BootstrapEventView::Authorized { access_token, refresh_token }) => {
            spec_adopt(
                token,
                Some(TokenPairView { access_token, refresh_token }),
                BootstrapError::Authorization(AuthorizationFlowError::ExchangeFailed),
            )
        },
        (Phase::Authorizing, BootstrapEventView::AuthorizationFailed(e)) => (
            token.in_phase(Phase::Failed),
            BootstrapActionView::Fail(BootstrapError::Authorization(e)),
        ),
        (Phase::Saving, BootstrapEventView::Saved) => (
            token.in_phase(Phase::Ready),
            BootstrapActionView::Done,
        ),
        (Phase::Saving, BootstrapEventView::SaveFailed) => (
            token.in_phase(Phase::Failed),
            BootstrapActionView::Fail(BootstrapError::Store(StoreError::Io)),
        ),
        _ => (token, BootstrapActionView::Fail(BootstrapError::UnexpectedEvent)),
    }
}

/// A manager becomes ready in one way only: it was storing its pair and
/// was told that the pair is stored. So the pair of a ready manager has
/// been written, whether it was loaded and refreshed or newly minted.
pub proof fn law_ready_only_after_save(token: TokenView, event: BootstrapEventView)
    requires
        token.phase != Phase::Ready,
        spec_bootstrap(token, event).0.phase == Phase::Ready,
    ensures
        token.phase == Phase::Saving,
        event == BootstrapEventView::Saved,
        spec_bootstrap(token, event) == (token.in_phase(Phase::Ready), BootstrapActionView::Done),
{
}

/// The invariant of a manager holds at every step of its bootstrap and
/// across every refresh: once the pair is being stored, neither token is
/// empty.
pub proof fn law_pair_stays_complete(
    token: TokenView,
    event: BootstrapEventView,
    outcome: RefreshOutcomeView,
)
    requires
        token.well_formed(),
    ensures
        spec_bootstrap(token, event).0.well_formed(),
        spec_refresh(token, outcome).0.well_formed(),
{
}

/// What a refresh makes of a manager and what it returns: on success the
/// refreshed pair in the manager and the text of its record, to be stored;
/// on failure the manager as it was.
pub open spec fn spec_refresh(token: TokenView, outcome: RefreshOutcomeView) -> (
    TokenView,
    Result<Seq<char>, RefreshError>,
) {
    if token.phase != Phase::Ready {
        (token, Err(RefreshError::NotReady))
    } else {
        match spec_refreshed_pair(token.refresh_token, outcome) {
            Some(pair) => (token.with(pair, Phase::Ready), Ok(spec_save_tokens(pair))),
            None => (token, Err(RefreshError::RefreshFailed)),
        }
    }
}

/// The mathematical value of what a refresh returns.
pub open spec fn spec_record_result(result: Result<String, RefreshError>) -> Result<
    Seq<char>,
    RefreshError,
> {
    match result {
        Ok(record) => Ok(record@),
        Err(e) => Err(e),
    }
}

/// The mathematical value of a pair that may be absent.
pub open spec fn spec_pair_option(pair: Option<TokenPair>) -> Option<TokenPairView> {
    match pair {
        Some(pair) => Some(pair@),
        None => None,
    }
}

/// The pair that `outcome` leaves behind where the refresh token was
/// `current`.
pub fn refreshed_pair(current: &str, outcome: RefreshOutcome) -> (pair: Option<TokenPair>)
    ensures
        spec_pair_option(pair) == spec_refreshed_pair(current@, outcome@),
{
    match outcome {
        RefreshOutcome::Refused => None,
        RefreshOutcome::Granted { access_token, refresh_token } => {
            if access_token.as_str().is_empty() {
                None
            } else {
                let kept: String = match refresh_token {
                    Some(issued) => if issued.as_str().is_empty() {
                        String::from_str(current)
                    } else {
                        issued
                    },
                    None => String::from_str(current),
                };
                Some(TokenPair { access_token, refresh_token: kept })
            }
        },
    }
}

impl Token {
    /// A manager for the client `client_id`, not yet bootstrapped: it holds
    /// no tokens.
    pub fn new(client_id: String, client_secret: String) -> (token: Self)
        ensures
            token@ == (TokenView {
                access_token: Seq::empty(),
                refresh_token: Seq::empty(),
                client_id: client_id@,
                client_secret: client_secret@,
                phase: Phase::Created,
            }),
            token@.well_formed(),
    {
        Token {
            access_token: String::new(),
            refresh_token: String::new(),
            client_id,
            client_secret,
            phase: Phase::Created,
        }
    }

    /// The text of the stored record of a pair.
    pub fn save_tokens(access_token: &str, refresh_token: &str) -> (record: String)
        ensures
            record@ == spec_save_tokens(
                TokenPairView { access_token: access_token@, refresh_token: refresh_token@ },
            ),
    {
        let mut fields: Vec<(String, String)> = Vec::new();
        fields.push((String::from_str("access_token"), String::from_str(access_token)));
        fields.push((String::from_str("refresh_token"), String::from_str(refresh_token)));
        assert(fields.deep_view() =~= spec_record_fields(
            TokenPairView { access_token: access_token@, refresh_token: refresh_token@ },
        ));
        object_text(&fields)
    }

    /// The pair that the text of a stored record holds.
    pub fn load_tokens(text: &str) -> (result: Result<TokenPair, StoreError>)
        ensures
            spec_pair_result(result) == spec_load_tokens(text@),
    {
        read_record(parse_string_map(text))
    }

    /// Takes `pair` as the manager's own and enters `phase`.
    fn set(&mut self, pair: TokenPair, phase: Phase)
        ensures
            final(self)@ == old(self)@.with(pair@, phase),
    {
        self.access_token = pair.access_token;
        self.refresh_token = pair.refresh_token;
        self.phase = phase;
    }

    /// Takes `pair` as the live pair and has it stored, or fails with
    /// `error` where there is no pair or a token is empty.
    fn adopt(&mut self, pair: Option<TokenPair>, error: BootstrapError) -> (action: BootstrapAction)
        ensures
            (final(self)@, action@) == spec_adopt(old(self)@, spec_pair_option(pair), error),
    {
        match pair {
            Some(pair) => {
                if pair.access_token.as_str().is_empty() || pair.refresh_token.as_str().is_empty() {
                    self.phase = Phase::Failed;
                    BootstrapAction::Fail(error)
                } else {
                    let record: String = Token::save_tokens(
                        pair.access_token.as_str(),
                        pair.refresh_token.as_str(),
                    );
                    self.set(pair, Phase::Saving);
                    BootstrapAction::Save { record }
                }
            },
            None => {
                self.phase = Phase::Failed;
                BootstrapAction::Fail(error)
            },
        }
    }

    /// Decides on the stored pair that was read, or could not be.
    fn accept_record(&mut self, loaded: Result<TokenPair, StoreError>) -> (action: BootstrapAction)
        ensures
            (final(self)@, action@) == spec_accept_record(old(self)@, spec_pair_result(loaded)),
    {
        match loaded {
            Ok(pair) => {
                let refresh_token: String = pair.refresh_token.clone();
                self.set(pair, Phase::Refreshing);
                BootstrapAction::Refresh { refresh_token }
            },
            Err(e) => {
                self.phase = Phase::Failed;
                BootstrapAction::Fail(BootstrapError::Store(e))
            },
        }
    }

    /// Takes `event` and says what is to be done next to make the manager
    /// ready.
    pub fn bootstrap(&mut self, event: BootstrapEvent) -> (action: BootstrapAction)
        ensures
            (final(self)@, action@) == spec_bootstrap(old(self)@, event@),
            old(self)@.well_formed() ==> final(self)@.well_formed(),
    {
        match (self.phase, event) {
            (Phase::Created, BootstrapEvent::Begin) => {
                self.phase = Phase::Loading;
                BootstrapAction::Load
            },
            (Phase::Loading, BootstrapEvent::Loaded { text }) => {
                self.accept_record(Token::load_tokens(text.as_str()))
            },
            (Phase::Loading, BootstrapEvent::LoadFailed(e)) => {
                if e == StoreError::NotFound {
                    self.phase = Phase::Authorizing;
                    BootstrapAction::Authorize
                } else {
                    self.phase = Phase::Failed;
                    BootstrapAction::Fail(BootstrapError::Store(e))
                }
            },
            (Phase::Refreshing, BootstrapEvent::Refreshed(outcome)) => {
                let pair = refreshed_pair(self.refresh_token.as_str(), outcome);
                self.adopt(pair, BootstrapError::Refresh)
            },
            (Phase::Authorizing, BootstrapEvent::Authorized { access_token, refresh_token }) => {
                self.adopt(
                    Some(TokenPair { access_token, refresh_token }),
                    BootstrapError::Authorization(AuthorizationFlowError::ExchangeFailed),
                )
            },
            (Phase::Authorizing, BootstrapEvent::AuthorizationFailed(e)) => {
                self.phase = Phase::Failed;
                BootstrapAction::Fail(BootstrapError::Authorization(e))
            },
            (Phase::Saving, BootstrapEvent::Saved) => {
                self.phase = Phase::Ready;
                BootstrapAction::Done
            },
            (Phase::Saving, BootstrapEvent::SaveFailed) => {
                self.phase = Phase::Failed;
                BootstrapAction::Fail(BootstrapError::Store(StoreError::Io))
            },
            _ => BootstrapAction::Fail(BootstrapError::UnexpectedEvent),
        }
    }

    /// Takes the provider's answer to a refresh. On success the access
    /// token is replaced, and the refresh token where a new one was issued;
    /// the text of the record is returned, to be stored. On failure the
    /// manager stays as it was.
    pub fn refresh(&mut self, outcome: RefreshOutcome) -> (result: Result<String, RefreshError>)
        ensures
            (final(self)@, spec_record_result(result)) == spec_refresh(old(self)@, outcome@),
            old(self)@.well_formed() ==> final(self)@.well_formed(),
    {
        if self.phase != Phase::Ready {
            return Err(RefreshError::NotReady);
        }
        match refreshed_pair(self.refresh_token.as_str(), outcome) {
            Some(pair) => {
                let record: String = Token::save_tokens(
                    pair.access_token.as_str(),
                    pair.refresh_token.as_str(),
                );
                self.set(pair, Phase::Ready);
                Ok(record)
            },
            None => Err(RefreshError::RefreshFailed),
        }
    }
}

} // verus!
