use discord_bots::cleanup_bot::clock::{UtcNow, MAX_UTC_SECONDS, MIN_UTC_SECONDS};
use discord_bots::cleanup_bot::cloud_storage::onedrive::auth::{
    device_code_expired, device_code_expired_error, device_code_url, no_tokens_error, expiry_in_range, refusal_error, token_url, PollOutcome,
    StoredTokens, TokenCheck, TokenGrant, TokenReply, TokenStore,
};
use discord_bots::cleanup_bot::cloud_storage::CloudStorageError;

fn at(unix_seconds: i64, nanos: u32) -> UtcNow {
    UtcNow { unix_seconds, nanos, year: 2024, month: 1, day: 5 }
}

fn tokens(expires_at_secs: i64) -> StoredTokens {
    StoredTokens {
        access_token: "access".to_string(),
        refresh_token: "refresh".to_string(),
        expires_at_secs,
        expires_at_nanos: 0,
    }
}

fn grant(expires_in: i64) -> TokenReply {
    TokenReply::Granted(TokenGrant {
        access_token: "new-access".to_string(),
        refresh_token: "new-refresh".to_string(),
        expires_in,
    })
}

fn refused(error: &str, description: Option<&str>) -> TokenReply {
    TokenReply::Refused { error: error.to_string(), error_description: description.map(|d| d.to_string()) }
}

#[test]
fn token_check_with_five_minute_margin() {
    let store = TokenStore::new("app".to_string(), None);
    assert!(!store.has_tokens());
    assert!(matches!(store.check_token_at(&at(1000, 0)), TokenCheck::Missing));

    let store = TokenStore::new("app".to_string(), Some(tokens(10_000)));
    assert!(store.has_tokens());
    match store.check_token_at(&at(9_699, 999_999_999)) {
        TokenCheck::Valid { access_token } => assert_eq!(access_token, "access"),
        _ => panic!("expected a valid token"),
    }
    assert!(matches!(store.check_token_at(&at(9_700, 0)), TokenCheck::Expired));
    assert!(matches!(store.check_token_at(&at(20_000, 0)), TokenCheck::Expired));
}

#[test]
fn token_check_against_the_clock() {
    let far = chrono::Utc::now().timestamp() + 3600;
    let store = TokenStore::new("app".to_string(), Some(tokens(far)));
    assert!(matches!(store.check_token(), TokenCheck::Valid { .. }));
    let store = TokenStore::new("app".to_string(), Some(tokens(0)));
    assert!(matches!(store.check_token(), TokenCheck::Expired));
    let store = TokenStore::new("app".to_string(), None);
    assert!(matches!(store.check_token(), TokenCheck::Missing));
}

#[test]
fn refresh_token_to_send_needs_tokens() {
    let store = TokenStore::new("app".to_string(), Some(tokens(1)));
    assert_eq!(store.refresh_token_to_send().ok().as_deref(), Some("refresh"));
    let store = TokenStore::new("app".to_string(), None);
    match store.refresh_token_to_send() {
        Err(CloudStorageError::Auth(m)) => assert_eq!(m, "No refresh token available"),
        _ => panic!("expected an authentication error"),
    }
}

#[test]
fn granted_tokens_are_stored_with_their_expiry() {
    let mut store = TokenStore::new("app".to_string(), None);
    assert!(store.on_refresh_reply_at(grant(3600), &at(1_000, 5)).is_ok());
    let t = store.tokens.as_ref().expect("stored");
    assert_eq!(t.access_token, "new-access");
    assert_eq!(t.refresh_token, "new-refresh");
    assert_eq!(t.expires_at_secs, 4_600);
    assert_eq!(t.expires_at_nanos, 5);
    assert_eq!(store.client_id, "app");
}

#[test]
fn refused_refresh_keeps_tokens_and_reports() {
    let mut store = TokenStore::new("app".to_string(), Some(tokens(7)));
    match store.on_refresh_reply_at(refused("invalid_grant", Some("expired refresh token")), &at(0, 0)) {
        Err(CloudStorageError::Auth(m)) => assert_eq!(m, "expired refresh token"),
        _ => panic!("expected an authentication error"),
    }
    match store.on_refresh_reply_at(refused("invalid_grant", None), &at(0, 0)) {
        Err(e) => assert_eq!(e.message(), "Authentication failed: invalid_grant"),
        _ => panic!("expected an authentication error"),
    }
    assert_eq!(store.tokens.as_ref().unwrap().expires_at_secs, 7);
}

#[test]
fn device_poll_outcomes() {
    let mut store = TokenStore::new("app".to_string(), None);
    assert!(matches!(store.on_device_poll_at(refused("authorization_pending", None), &at(0, 0)), PollOutcome::KeepWaiting));
    assert!(matches!(store.on_device_poll_at(refused("slow_down", Some("wait")), &at(0, 0)), PollOutcome::SlowDown));
    assert!(store.tokens.is_none());
    match store.on_device_poll_at(refused("expired_token", Some("code expired")), &at(0, 0)) {
        PollOutcome::Failed(CloudStorageError::Auth(m)) => assert_eq!(m, "code expired"),
        _ => panic!("expected a failure"),
    }
    assert!(matches!(store.on_device_poll_at(grant(60), &at(100, 0)), PollOutcome::Authenticated));
    assert_eq!(store.tokens.as_ref().unwrap().expires_at_secs, 160);
}

#[test]
fn replies_against_the_clock() {
    let before = chrono::Utc::now().timestamp();
    let mut store = TokenStore::new("app".to_string(), None);
    match store.on_refresh_reply(grant(3600)) {
        Some(Ok(())) => {}
        _ => panic!("expected the tokens to be stored"),
    }
    let after = chrono::Utc::now().timestamp();
    let t = store.tokens.as_ref().unwrap();
    assert!(t.expires_at_secs >= before + 3600 && t.expires_at_secs <= after + 3600);
    // a lifetime past the end of chrono's dates is not stored
    assert!(store.on_refresh_reply(grant(MAX_UTC_SECONDS)).is_none());
    assert!(store.on_device_poll(grant(i64::MAX)).is_none());
    assert_eq!(store.tokens.as_ref().unwrap().access_token, "new-access");
    assert!(matches!(store.on_device_poll(refused("slow_down", None)), Some(PollOutcome::SlowDown)));
    assert!(matches!(store.on_refresh_reply(refused("x", None)), Some(Err(_))));
}

#[test]
fn expiry_range_follows_chrono() {
    let now = at(1_000, 0);
    assert!(expiry_in_range(&now, 3600));
    assert!(expiry_in_range(&now, MAX_UTC_SECONDS - 1_000));
    assert!(!expiry_in_range(&now, MAX_UTC_SECONDS - 999));
    assert!(!expiry_in_range(&now, i64::MAX));
    assert!(!expiry_in_range(&now, i64::MIN));
    let base = chrono::DateTime::<chrono::Utc>::from_timestamp(1_000, 0).unwrap();
    assert!(base.checked_add_signed(chrono::Duration::seconds(MAX_UTC_SECONDS - 1_000)).is_some());
    assert!(base.checked_add_signed(chrono::Duration::seconds(MAX_UTC_SECONDS - 999)).is_none());
}

#[test]
fn token_request_forms() {
    let store = TokenStore::new("my-client".to_string(), None);
    let form = store.device_code_form();
    assert_eq!(form, vec![
        ("client_id".to_string(), "my-client".to_string()),
        ("scope".to_string(), "Files.ReadWrite offline_access".to_string()),
    ]);
    let form = store.device_token_form("dc");
    assert_eq!(form[1].1, "urn:ietf:params:oauth:grant-type:device_code");
    assert_eq!(form[2], ("device_code".to_string(), "dc".to_string()));
    let form = store.refresh_form("rt");
    assert_eq!(form, vec![
        ("client_id".to_string(), "my-client".to_string()),
        ("grant_type".to_string(), "refresh_token".to_string()),
        ("refresh_token".to_string(), "rt".to_string()),
    ]);
}

#[test]
fn token_endpoints() {
    assert_eq!(device_code_url(), "https://login.microsoftonline.com/consumers/oauth2/v2.0/devicecode");
    assert_eq!(token_url(), "https://login.microsoftonline.com/consumers/oauth2/v2.0/token");
}

#[test]
fn device_code_lifetime() {
    assert!(!device_code_expired(899, 999_999_999, 900));
    assert!(!device_code_expired(900, 0, 900));
    assert!(device_code_expired(900, 1, 900));
    assert!(device_code_expired(901, 0, 900));
}

#[test]
fn refusal_prefers_the_description() {
    assert!(matches!(refusal_error("e".to_string(), Some("d".to_string())), CloudStorageError::Auth(m) if m == "d"));
    assert!(matches!(refusal_error("e".to_string(), None), CloudStorageError::Auth(m) if m == "e"));
}

#[test]
fn authentication_error_texts() {
    assert_eq!(no_tokens_error().message(), "Authentication failed: No tokens available");
    assert_eq!(device_code_expired_error().message(), "Authentication failed: Device code expired");
}

#[test]
fn granted_tokens_are_valid_until_five_minutes_before_expiry() {
    let mut store = TokenStore::new("app".to_string(), None);
    store.store_grant(
        TokenGrant { access_token: "a".to_string(), refresh_token: "r".to_string(), expires_in: 3600 },
        &at(1_000, 5),
    );
    assert!(matches!(store.check_token_at(&at(1_000, 5)), TokenCheck::Valid { .. }));
    assert!(matches!(store.check_token_at(&at(4_300, 4)), TokenCheck::Valid { .. }));
    assert!(matches!(store.check_token_at(&at(4_300, 5)), TokenCheck::Expired));
}

#[test]
fn replies_with_lifetimes_up_to_zero_are_always_taken() {
    let mut store = TokenStore::new("app".to_string(), None);
    assert!(matches!(store.on_refresh_reply(grant(0)), Some(Ok(()))));
    assert!(matches!(store.on_device_poll(grant(-60)), Some(PollOutcome::Authenticated)));
}

#[test]
fn expiry_range_starts_at_chronos_first_instant() {
    assert_eq!(chrono::DateTime::<chrono::Utc>::MIN_UTC.timestamp(), MIN_UTC_SECONDS);
    let now = at(0, 0);
    assert!(expiry_in_range(&now, MIN_UTC_SECONDS));
    assert!(!expiry_in_range(&now, MIN_UTC_SECONDS - 1));
}
