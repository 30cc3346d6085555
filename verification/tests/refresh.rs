use googauth_lib::provider::{access_token_expiry, claim_expiry};
use googauth_lib::{
    refresh_google_login, ConfigFile, LibError, RefreshAction, RefreshEvent,
    RefreshState, Token, TokenResponse,
};

fn stored() -> ConfigFile {
    let mut config = ConfigFile::new(
        "work",
        "client-1",
        "secret-1",
        &["openid".to_string(), "email".to_string()],
        "http://localhost:8080/",
    );
    config.refresh_token = Some("refresh-1".to_string());
    config.id_token = Some(Token::new("old-id".to_string(), 90));
    config.access_token = Some(Token::new("old-access".to_string(), 100));
    config
}

fn answer() -> TokenResponse {
    TokenResponse {
        access_token: "new-access".to_string(),
        expires_in: Some(3600),
        refresh_token: None,
        id_token: Some("new-id".to_string()),
        scopes: None,
    }
}

fn same_identity(config: &ConfigFile) {
    assert_eq!(config.version, 1);
    assert_eq!(config.name, "work");
    assert_eq!(config.client_id, "client-1");
    assert_eq!(config.client_secret, "secret-1");
    assert_eq!(config.scopes, vec!["openid".to_string(), "email".to_string()]);
    assert_eq!(config.redirect_url, "http://localhost:8080/");
}

fn untouched(config: &ConfigFile) {
    same_identity(config);
    assert_eq!(config.refresh_token.as_deref(), Some("refresh-1"));
    assert_eq!(config.id_token.as_ref().unwrap().secret, "old-id");
    assert_eq!(config.id_token.as_ref().unwrap().exp, 90);
    assert_eq!(config.access_token.as_ref().unwrap().secret, "old-access");
    assert_eq!(config.access_token.as_ref().unwrap().exp, 100);
}

#[test]
fn refresh_renews_both_tokens() {
    let mut config = stored();
    let (state, action) =
        refresh_google_login(&mut config, RefreshState::Start, RefreshEvent::Begin { now: 200 });
    match &action {
        RefreshAction::Exchange(request) => {
            assert_eq!(request.client_id, "client-1");
            assert_eq!(request.client_secret, "secret-1");
            assert_eq!(request.refresh_token, "refresh-1");
            assert_eq!(request.scopes, vec!["openid".to_string(), "email".to_string()]);
        }
        other => panic!("unexpected: {:?}", other),
    }
    assert!(matches!(state, RefreshState::Exchanging { now: 200 }));
    untouched(&config);

    let (state, action) =
        refresh_google_login(&mut config, state, RefreshEvent::Exchanged(answer()));
    assert!(matches!(&action, RefreshAction::VerifyIdToken { id_token } if id_token == "new-id"));
    assert!(matches!(&state, RefreshState::Verifying { id_token } if id_token == "new-id"));
    let access = config.access_token.as_ref().unwrap();
    assert_eq!((access.secret.as_str(), access.exp), ("new-access", 3800));
    assert_eq!(config.refresh_token.as_deref(), Some("refresh-1"));
    assert_eq!(config.id_token.as_ref().unwrap().secret, "old-id");
    same_identity(&config);

    let (state, action) =
        refresh_google_login(&mut config, state, RefreshEvent::ClaimsVerified { expiration: 7000 });
    assert!(matches!(action, RefreshAction::Save));
    assert!(matches!(state, RefreshState::Persisted));
    let id = config.id_token.as_ref().unwrap();
    assert_eq!((id.secret.as_str(), id.exp), ("new-id", 7000));
    let access = config.access_token.as_ref().unwrap();
    assert_eq!((access.secret.as_str(), access.exp), ("new-access", 3800));
    assert_eq!(config.refresh_token.as_deref(), Some("refresh-1"));
    same_identity(&config);
}

#[test]
fn refresh_takes_rotated_refresh_token() {
    let mut config = stored();
    let mut rotated = answer();
    rotated.refresh_token = Some("refresh-2".to_string());
    let (_, action) = refresh_google_login(
        &mut config,
        RefreshState::Exchanging { now: 200 },
        RefreshEvent::Exchanged(rotated),
    );
    assert!(matches!(action, RefreshAction::VerifyIdToken { .. }));
    assert_eq!(config.refresh_token.as_deref(), Some("refresh-2"));
    same_identity(&config);
}

#[test]
fn refresh_without_refresh_token_fails_at_once() {
    let mut config = stored();
    config.refresh_token = None;
    let (state, action) =
        refresh_google_login(&mut config, RefreshState::Start, RefreshEvent::Begin { now: 200 });
    assert!(matches!(state, RefreshState::Failed));
    match action {
        RefreshAction::Fail(LibError::NoRefreshTokenForConfig(name)) => assert_eq!(name, "work"),
        other => panic!("unexpected: {:?}", other),
    }
    assert!(config.refresh_token.is_none());
    assert_eq!(config.access_token.as_ref().unwrap().exp, 100);
}

#[test]
fn refresh_reports_failed_discovery_and_exchange() {
    let mut config = stored();
    let (state, action) = refresh_google_login(
        &mut config,
        RefreshState::Exchanging { now: 200 },
        RefreshEvent::DiscoveryFailed,
    );
    assert!(matches!(state, RefreshState::Failed));
    assert!(matches!(action, RefreshAction::Fail(LibError::OpenIdError(m))
        if m == "Failed to discover OpenID Provider"));
    untouched(&config);

    let (state, action) = refresh_google_login(
        &mut config,
        RefreshState::Exchanging { now: 200 },
        RefreshEvent::ExchangeFailed,
    );
    assert!(matches!(state, RefreshState::Failed));
    assert!(matches!(action, RefreshAction::Fail(LibError::CouldNotRefreshToken)));
    untouched(&config);
}

#[test]
fn refresh_without_new_id_token_fails() {
    let mut config = stored();
    let mut bare = answer();
    bare.id_token = None;
    let (state, action) = refresh_google_login(
        &mut config,
        RefreshState::Exchanging { now: 200 },
        RefreshEvent::Exchanged(bare),
    );
    assert!(matches!(state, RefreshState::Failed));
    assert!(matches!(action, RefreshAction::Fail(LibError::NoIdToken)));
    assert_eq!(config.id_token.as_ref().unwrap().secret, "old-id");
    same_identity(&config);
}

#[test]
fn refresh_with_rejected_claims_fails() {
    let mut config = stored();
    let verifying = RefreshState::Verifying { id_token: "new-id".to_string() };
    let (state, action) =
        refresh_google_login(&mut config, verifying, RefreshEvent::ClaimsRejected);
    assert!(matches!(state, RefreshState::Failed));
    assert!(matches!(action, RefreshAction::Fail(LibError::CouldNotReadClaims)));
    untouched(&config);
}

#[test]
fn refresh_without_lifetime_marks_access_token_expired() {
    let mut config = stored();
    let mut open_ended = answer();
    open_ended.expires_in = None;
    refresh_google_login(
        &mut config,
        RefreshState::Exchanging { now: 200 },
        RefreshEvent::Exchanged(open_ended),
    );
    assert_eq!(config.access_token.as_ref().unwrap().exp, 0);
}

#[test]
fn refresh_ends_on_event_that_is_not_awaited() {
    let mut config = stored();
    let cases: Vec<(RefreshState, RefreshEvent)> = vec![
        (RefreshState::Start, RefreshEvent::Exchanged(answer())),
        (RefreshState::Start, RefreshEvent::ClaimsVerified { expiration: 1 }),
        (RefreshState::Start, RefreshEvent::ExchangeFailed),
        (RefreshState::Start, RefreshEvent::DiscoveryFailed),
        (RefreshState::Verifying { id_token: "x".to_string() }, RefreshEvent::ExchangeFailed),
        (RefreshState::Exchanging { now: 1 }, RefreshEvent::Begin { now: 2 }),
        (RefreshState::Exchanging { now: 1 }, RefreshEvent::ClaimsVerified { expiration: 1 }),
        (RefreshState::Verifying { id_token: "x".to_string() }, RefreshEvent::Exchanged(answer())),
        (RefreshState::Persisted, RefreshEvent::Begin { now: 2 }),
        (RefreshState::Persisted, RefreshEvent::ClaimsVerified { expiration: 1 }),
        (RefreshState::Failed, RefreshEvent::Begin { now: 2 }),
        (RefreshState::Failed, RefreshEvent::Exchanged(answer())),
    ];
    for (state, event) in cases {
        let (state, action) = refresh_google_login(&mut config, state, event);
        assert!(matches!(state, RefreshState::Failed));
        assert!(matches!(action, RefreshAction::Fail(LibError::UnexpectedEvent)));
        untouched(&config);
    }
}

#[test]
fn access_token_expiry_adds_lifetime_to_now() {
    assert_eq!(access_token_expiry(200, Some(3600)), 3800);
    assert_eq!(access_token_expiry(200, Some(0)), 200);
    assert_eq!(access_token_expiry(200, None), 0);
    assert_eq!(access_token_expiry(0, Some(u64::MAX)), u64::MAX);
    assert_eq!(access_token_expiry(u64::MAX, Some(0)), u64::MAX);
}

#[test]
fn claim_expiry_is_timestamp_modulo_two_to_64() {
    assert_eq!(claim_expiry(0), 0);
    assert_eq!(claim_expiry(1_700_000_000), 1_700_000_000);
    assert_eq!(claim_expiry(i64::MAX), i64::MAX as u64);
    assert_eq!(claim_expiry(-1), u64::MAX);
    assert_eq!(claim_expiry(-2), u64::MAX - 1);
    assert_eq!(claim_expiry(i64::MIN), 1u64 << 63);
    for t in [-5i64, -1000, 17, i64::MIN + 1] {
        assert_eq!(claim_expiry(t), t as u64);
    }
}

#[test]
fn expiry_past_the_clock_is_held_as_the_last_second() {
    assert_eq!(access_token_expiry(u64::MAX, Some(1)), u64::MAX);
    assert_eq!(access_token_expiry(1, Some(u64::MAX)), u64::MAX);
    assert_eq!(access_token_expiry(u64::MAX - 1, Some(1)), u64::MAX);
    assert_eq!(access_token_expiry(u64::MAX - 1, Some(2)), u64::MAX);
    assert_eq!(access_token_expiry(u64::MAX, Some(u64::MAX)), u64::MAX);

    let mut config = stored();
    let mut late = answer();
    late.expires_in = Some(2);
    let (state, action) = refresh_google_login(
        &mut config,
        RefreshState::Exchanging { now: u64::MAX - 1 },
        RefreshEvent::Exchanged(late),
    );
    assert!(matches!(state, RefreshState::Verifying { .. }));
    assert!(matches!(action, RefreshAction::VerifyIdToken { .. }));
    assert_eq!(config.access_token.as_ref().unwrap().exp, u64::MAX);
    assert_eq!(config.refresh_token.as_deref(), Some("refresh-1"));
}

#[test]
fn refresh_token_stays_through_every_failure_without_rotation() {
    let mut bare = answer();
    bare.id_token = None;
    let cases: Vec<(RefreshState, RefreshEvent)> = vec![
        (RefreshState::Start, RefreshEvent::Begin { now: 5 }),
        (RefreshState::Exchanging { now: 5 }, RefreshEvent::DiscoveryFailed),
        (RefreshState::Exchanging { now: 5 }, RefreshEvent::ExchangeFailed),
        (RefreshState::Exchanging { now: 5 }, RefreshEvent::Exchanged(answer())),
        (RefreshState::Exchanging { now: 5 }, RefreshEvent::Exchanged(bare)),
        (RefreshState::Verifying { id_token: "i".to_string() }, RefreshEvent::ClaimsRejected),
        (
            RefreshState::Verifying { id_token: "i".to_string() },
            RefreshEvent::ClaimsVerified { expiration: 9 },
        ),
        (RefreshState::Persisted, RefreshEvent::Begin { now: 5 }),
    ];
    for (state, event) in cases {
        let mut config = stored();
        refresh_google_login(&mut config, state, event);
        assert_eq!(config.refresh_token.as_deref(), Some("refresh-1"));
        same_identity(&config);
    }
}

#[test]
fn rotated_refresh_token_is_in_the_record_that_is_saved() {
    let mut config = stored();
    let mut rotated = answer();
    rotated.refresh_token = Some("refresh-2".to_string());
    let (state, _) =
        refresh_google_login(&mut config, RefreshState::Start, RefreshEvent::Begin { now: 200 });
    let (state, _) = refresh_google_login(&mut config, state, RefreshEvent::Exchanged(rotated));
    let (state, action) =
        refresh_google_login(&mut config, state, RefreshEvent::ClaimsVerified { expiration: 9000 });
    assert!(matches!(state, RefreshState::Persisted));
    assert!(matches!(action, RefreshAction::Save));
    assert_eq!(config.refresh_token.as_deref(), Some("refresh-2"));
    assert_eq!(config.access_token.as_ref().unwrap().exp, 3800);
    assert_eq!(config.id_token.as_ref().unwrap().exp, 9000);
}
