use daygrid::auth::AuthorizationFlowError;
use daygrid::token::{
    read_record, refreshed_pair, BootstrapAction, BootstrapError, BootstrapEvent, Phase,
    RefreshError, RefreshOutcome, StoreError, Token,
};

fn ready(access: &str, refresh: &str) -> Token {
    Token {
        access_token: access.to_string(),
        refresh_token: refresh.to_string(),
        client_id: "id".to_string(),
        client_secret: "secret".to_string(),
        phase: Phase::Ready,
    }
}

fn granted(access: &str, refresh: Option<&str>) -> RefreshOutcome {
    RefreshOutcome::Granted {
        access_token: access.to_string(),
        refresh_token: refresh.map(|r| r.to_string()),
    }
}

fn failure(action: BootstrapAction) -> BootstrapError {
    match action {
        BootstrapAction::Fail(e) => e,
        other => panic!("expected a failure, got {:?}", other),
    }
}

fn record(action: BootstrapAction) -> String {
    match action {
        BootstrapAction::Save { record } => record,
        other => panic!("expected a record to save, got {:?}", other),
    }
}

#[test]
fn record_text() {
    assert_eq!(
        Token::save_tokens("ya29.a0", "1//0g"),
        r#"{"access_token":"ya29.a0","refresh_token":"1//0g"}"#
    );
    assert_eq!(
        Token::save_tokens("a\"b", "c\\d\n"),
        r#"{"access_token":"a\"b","refresh_token":"c\\d\n"}"#
    );
}

#[test]
fn record_round_trip() {
    for (access, refresh) in [
        ("ya29.a0AfH6SMB", "1//0gLxyz"),
        ("a", "b"),
        ("with \"quotes\" and \\ and \n newline", "tab\there"),
        ("\u{3042}\u{3044}\u{3046}", "\u{1f600}"),
        ("{\"access_token\":\"x\"}", "refresh_token"),
    ] {
        let text = Token::save_tokens(access, refresh);
        let pair = Token::load_tokens(&text).unwrap();
        assert_eq!(pair.access_token, access);
        assert_eq!(pair.refresh_token, refresh);
    }
}

#[test]
fn load_reads_the_two_fields() {
    let pair = Token::load_tokens(r#" { "refresh_token" : "r", "other": "x", "access_token" : "a" } "#).unwrap();
    assert_eq!(pair.access_token, "a");
    assert_eq!(pair.refresh_token, "r");
}

#[test]
fn load_refuses_a_corrupt_record() {
    for text in [
        "",
        "not json",
        "[]",
        r#"{"access_token":"a"}"#,
        r#"{"refresh_token":"r"}"#,
        r#"{"access_token":"a","refresh_token":5}"#,
        r#"{"access_token":"a","refresh_token":"r","expires":3600}"#,
        r#"{"access_token":"","refresh_token":"r"}"#,
        r#"{"access_token":"a","refresh_token":""}"#,
        r#"{"access_token":"a","refresh_token":"r""#,
    ] {
        assert_eq!(Token::load_tokens(text).err(), Some(StoreError::Corrupt));
    }
}

#[test]
fn read_record_on_given_fields() {
    let fields = vec![
        ("access_token".to_string(), "a".to_string()),
        ("refresh_token".to_string(), "r".to_string()),
    ];
    let pair = read_record(Some(fields)).unwrap();
    assert_eq!(pair.access_token, "a");
    assert_eq!(pair.refresh_token, "r");
    assert_eq!(read_record(None).err(), Some(StoreError::Corrupt));
    assert_eq!(read_record(Some(Vec::new())).err(), Some(StoreError::Corrupt));
}

#[test]
fn new_manager_holds_nothing() {
    let token = Token::new("id".to_string(), "secret".to_string());
    assert_eq!(token.access_token, "");
    assert_eq!(token.refresh_token, "");
    assert_eq!(token.client_id, "id");
    assert_eq!(token.client_secret, "secret");
    assert_eq!(token.phase, Phase::Created);
}

#[test]
fn refresh_replaces_the_access_token() {
    let mut token = ready("old", "keep");
    let record = token.refresh(granted("new", None)).unwrap();
    assert_eq!(token.access_token, "new");
    assert_eq!(token.refresh_token, "keep");
    assert_eq!(token.phase, Phase::Ready);
    assert_eq!(record, r#"{"access_token":"new","refresh_token":"keep"}"#);
}

#[test]
fn refresh_takes_a_new_refresh_token() {
    let mut token = ready("old", "keep");
    let record = token.refresh(granted("new", Some("rotated"))).unwrap();
    assert_eq!(token.access_token, "new");
    assert_eq!(token.refresh_token, "rotated");
    assert_eq!(record, r#"{"access_token":"new","refresh_token":"rotated"}"#);

    let mut other = ready("old", "keep");
    other.refresh(granted("new", Some(""))).unwrap();
    assert_eq!(other.refresh_token, "keep");
}

#[test]
fn failed_refresh_leaves_the_pair() {
    let mut token = ready("old", "keep");
    assert_eq!(token.refresh(RefreshOutcome::Refused).err(), Some(RefreshError::RefreshFailed));
    assert_eq!(token.access_token, "old");
    assert_eq!(token.refresh_token, "keep");
    assert_eq!(token.phase, Phase::Ready);
    assert_eq!(token.refresh(granted("", Some("x"))).err(), Some(RefreshError::RefreshFailed));
    assert_eq!(token.access_token, "old");
    assert_eq!(token.refresh_token, "keep");
}

#[test]
fn refresh_needs_a_ready_manager() {
    let mut token = Token::new("id".to_string(), "secret".to_string());
    assert_eq!(token.refresh(granted("new", None)).err(), Some(RefreshError::NotReady));
    assert_eq!(token.access_token, "");
    assert_eq!(token.phase, Phase::Created);
}

#[test]
fn refreshed_pair_of_each_outcome() {
    let pair = refreshed_pair("current", granted("a", None)).unwrap();
    assert_eq!(pair.access_token, "a");
    assert_eq!(pair.refresh_token, "current");
    let rotated = refreshed_pair("current", granted("a", Some("next"))).unwrap();
    assert_eq!(rotated.refresh_token, "next");
    assert!(refreshed_pair("current", granted("", None)).is_none());
    assert!(refreshed_pair("current", RefreshOutcome::Refused).is_none());
}

#[test]
fn bootstrap_with_a_stored_pair() {
    let mut token = Token::new("id".to_string(), "secret".to_string());
    assert!(matches!(token.bootstrap(BootstrapEvent::Begin), BootstrapAction::Load));
    assert_eq!(token.phase, Phase::Loading);

    let stored = r#"{"access_token":"stale","refresh_token":"rt"}"#.to_string();
    match token.bootstrap(BootstrapEvent::Loaded { text: stored }) {
        BootstrapAction::Refresh { refresh_token } => assert_eq!(refresh_token, "rt"),
        other => panic!("expected a refresh, got {:?}", other),
    }
    assert_eq!(token.phase, Phase::Refreshing);
    assert_eq!(token.access_token, "stale");

    let text = record(token.bootstrap(BootstrapEvent::Refreshed(granted("fresh", None))));
    assert_eq!(text, r#"{"access_token":"fresh","refresh_token":"rt"}"#);
    assert_eq!(token.phase, Phase::Saving);
    assert_eq!(token.access_token, "fresh");
    assert_eq!(token.refresh_token, "rt");

    assert!(matches!(token.bootstrap(BootstrapEvent::Saved), BootstrapAction::Done));
    assert_eq!(token.phase, Phase::Ready);
    assert_eq!(token.access_token, "fresh");
    assert_eq!(token.refresh_token, "rt");
}

#[test]
fn bootstrap_without_a_stored_pair() {
    let mut token = Token::new("id".to_string(), "secret".to_string());
    token.bootstrap(BootstrapEvent::Begin);
    assert!(matches!(
        token.bootstrap(BootstrapEvent::LoadFailed(StoreError::NotFound)),
        BootstrapAction::Authorize
    ));
    assert_eq!(token.phase, Phase::Authorizing);

    let text = record(token.bootstrap(BootstrapEvent::Authorized {
        access_token: "at".to_string(),
        refresh_token: "rt".to_string(),
    }));
    assert_eq!(text, r#"{"access_token":"at","refresh_token":"rt"}"#);
    assert_eq!(token.phase, Phase::Saving);

    assert!(matches!(token.bootstrap(BootstrapEvent::Saved), BootstrapAction::Done));
    assert_eq!(token.phase, Phase::Ready);
    assert_eq!(token.access_token, "at");
    assert_eq!(token.refresh_token, "rt");
}

#[test]
fn bootstrap_failures() {
    let mut corrupt = Token::new("id".to_string(), "secret".to_string());
    corrupt.bootstrap(BootstrapEvent::Begin);
    let action = corrupt.bootstrap(BootstrapEvent::Loaded { text: "{".to_string() });
    assert_eq!(failure(action), BootstrapError::Store(StoreError::Corrupt));
    assert_eq!(corrupt.phase, Phase::Failed);

    let mut unreadable = Token::new("id".to_string(), "secret".to_string());
    unreadable.bootstrap(BootstrapEvent::Begin);
    let action = unreadable.bootstrap(BootstrapEvent::LoadFailed(StoreError::Io));
    assert_eq!(failure(action), BootstrapError::Store(StoreError::Io));
    assert_eq!(unreadable.phase, Phase::Failed);

    let mut stale = Token::new("id".to_string(), "secret".to_string());
    stale.bootstrap(BootstrapEvent::Begin);
    stale.bootstrap(BootstrapEvent::Loaded {
        text: r#"{"access_token":"a","refresh_token":"r"}"#.to_string(),
    });
    let action = stale.bootstrap(BootstrapEvent::Refreshed(RefreshOutcome::Refused));
    assert_eq!(failure(action), BootstrapError::Refresh);
    assert_eq!(stale.phase, Phase::Failed);
    assert_eq!(stale.refresh_token, "r");

    let mut denied = Token::new("id".to_string(), "secret".to_string());
    denied.bootstrap(BootstrapEvent::Begin);
    denied.bootstrap(BootstrapEvent::LoadFailed(StoreError::NotFound));
    let action = denied.bootstrap(BootstrapEvent::AuthorizationFailed(AuthorizationFlowError::CsrfMismatch));
    assert_eq!(failure(action), BootstrapError::Authorization(AuthorizationFlowError::CsrfMismatch));
    assert_eq!(denied.phase, Phase::Failed);

    let mut half = Token::new("id".to_string(), "secret".to_string());
    half.bootstrap(BootstrapEvent::Begin);
    half.bootstrap(BootstrapEvent::LoadFailed(StoreError::NotFound));
    let action = half.bootstrap(BootstrapEvent::Authorized {
        access_token: "at".to_string(),
        refresh_token: "".to_string(),
    });
    assert_eq!(failure(action), BootstrapError::Authorization(AuthorizationFlowError::ExchangeFailed));

    let mut unsaved = Token::new("id".to_string(), "secret".to_string());
    unsaved.bootstrap(BootstrapEvent::Begin);
    unsaved.bootstrap(BootstrapEvent::LoadFailed(StoreError::NotFound));
    unsaved.bootstrap(BootstrapEvent::Authorized {
        access_token: "at".to_string(),
        refresh_token: "rt".to_string(),
    });
    let action = unsaved.bootstrap(BootstrapEvent::SaveFailed);
    assert_eq!(failure(action), BootstrapError::Store(StoreError::Io));
    assert_eq!(unsaved.phase, Phase::Failed);
}

#[test]
fn bootstrap_events_out_of_turn_change_nothing() {
    let mut token = Token::new("id".to_string(), "secret".to_string());
    assert_eq!(failure(token.bootstrap(BootstrapEvent::Saved)), BootstrapError::UnexpectedEvent);
    assert_eq!(token.phase, Phase::Created);
    token.bootstrap(BootstrapEvent::Begin);
    assert_eq!(failure(token.bootstrap(BootstrapEvent::Begin)), BootstrapError::UnexpectedEvent);
    assert_eq!(token.phase, Phase::Loading);

    let mut live = ready("a", "r");
    assert_eq!(failure(live.bootstrap(BootstrapEvent::Begin)), BootstrapError::UnexpectedEvent);
    assert_eq!(
        failure(live.bootstrap(BootstrapEvent::Authorized {
            access_token: "x".to_string(),
            refresh_token: "y".to_string(),
        })),
        BootstrapError::UnexpectedEvent
    );
    assert_eq!(live.phase, Phase::Ready);
    assert_eq!(live.access_token, "a");
    assert_eq!(live.refresh_token, "r");
}
