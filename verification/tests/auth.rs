use kanuni::auth::client::{
    classify_login_status, classify_refresh_status, LoginStatusClass, RefreshStatusClass,
};
use kanuni::auth::token_store::{AuthType, StoredCredentials, TokenStore};
use kanuni::auth::storage::TokenStorage;
use kanuni::auth::{parse_api_key, CredentialManager, RefreshGrant, TokenAction};
use kanuni::error::AuthError;

fn oauth_creds(access: &str, refresh: &str, expires_at: i64) -> StoredCredentials {
    StoredCredentials {
        auth_type: AuthType::OAuth {
            access_token: access.to_string(),
            refresh_token: refresh.to_string(),
            expires_at,
        },
        user_id: Some(77),
        email: Some("user@example.com".to_string()),
        created_at: 1700000000,
        updated_at: 1700000000,
    }
}

#[test]
fn no_credential_fails_with_not_authenticated() {
    let mut m = CredentialManager::new(None);
    assert!(matches!(
        m.get_access_token(1700000000),
        TokenAction::Fail(AuthError::NotAuthenticated)
    ));
}

#[test]
fn api_keys_are_served_unchanged() {
    let creds = StoredCredentials {
        auth_type: AuthType::ApiKey {
            key: "kanuni_live_secret0042".to_string(),
            name: "CLI Key".to_string(),
            prefix: "kanuni_live_".to_string(),
            last_4: "0042".to_string(),
        },
        user_id: None,
        email: None,
        created_at: 0,
        updated_at: 0,
    };
    let mut m = CredentialManager::new(Some(creds));
    match m.get_access_token(1700000000) {
        TokenAction::UseToken(t) => assert_eq!(t, "kanuni_live_secret0042"),
        other => panic!("expected the key itself, got {:?}", other),
    }
}

#[test]
fn fresh_oauth_token_is_served_from_the_cache() {
    let now = 1700000000;
    let mut m = CredentialManager::new(Some(oauth_creds("acc", "ref", now + 301)));
    match m.get_access_token(now) {
        TokenAction::UseToken(t) => assert_eq!(t, "acc"),
        other => panic!("expected the cached token, got {:?}", other),
    }
}

#[test]
fn token_on_the_margin_triggers_exactly_one_refresh() {
    // The cached token is within one second of crossing the five-minute
    // threshold: the first caller starts the one refresh, every further
    // caller waits, and after the refresh lands they all read the same
    // fresh token.
    let now = 1700000000;
    let mut m = CredentialManager::new(Some(oauth_creds("old", "ref", now + 300)));
    match m.get_access_token(now) {
        TokenAction::StartRefresh(rt) => assert_eq!(rt, "ref"),
        other => panic!("expected a refresh to start, got {:?}", other),
    }
    for _ in 0..16 {
        assert!(matches!(m.get_access_token(now), TokenAction::AwaitRefresh));
    }
    let grant = RefreshGrant {
        access_token: "fresh".to_string(),
        refresh_token: None,
        expires_in: 3600,
    };
    let t = m.complete_refresh(Some(grant), now + 1).unwrap();
    assert_eq!(t, "fresh");
    for _ in 0..16 {
        match m.get_access_token(now + 1) {
            TokenAction::UseToken(t) => assert_eq!(t, "fresh"),
            other => panic!("expected the refreshed token, got {:?}", other),
        }
    }
}

#[test]
fn refresh_keeps_the_old_refresh_token_unless_a_new_one_is_granted() {
    let now = 1700000000;
    let mut m = CredentialManager::new(Some(oauth_creds("old", "ref", now)));
    assert!(matches!(
        m.get_access_token(now),
        TokenAction::StartRefresh(_)
    ));
    let grant = RefreshGrant {
        access_token: "fresh".to_string(),
        refresh_token: Some("ref2".to_string()),
        expires_in: 100,
    };
    m.complete_refresh(Some(grant), now).unwrap();
    match m.current_credentials().unwrap().auth_type {
        AuthType::OAuth {
            access_token,
            refresh_token,
            expires_at,
        } => {
            assert_eq!(access_token, "fresh");
            assert_eq!(refresh_token, "ref2");
            assert_eq!(expires_at, now + 100);
        }
        _ => panic!("still an OAuth credential"),
    }
}

#[test]
fn rejected_refresh_is_an_auth_failure_and_leaves_the_record_untouched() {
    let now = 1700000000;
    let before = oauth_creds("expired", "bad-refresh", now - 10);
    let mut m = CredentialManager::new(Some(oauth_creds("expired", "bad-refresh", now - 10)));
    assert!(matches!(
        m.get_access_token(now),
        TokenAction::StartRefresh(_)
    ));
    let err = m.complete_refresh(None, now).unwrap_err();
    assert_eq!(err, AuthError::RefreshRejected);
    // The record to persist is exactly the one loaded: nothing was
    // half-updated, so the expired credential on disk stays as it was.
    assert_eq!(m.current_credentials().unwrap(), before);
    // The failure is not retried behind the caller's back: the next
    // request starts over explicitly.
    assert!(matches!(
        m.get_access_token(now),
        TokenAction::StartRefresh(_)
    ));
}

#[test]
fn update_oauth_tokens_rotates_only_oauth_records() {
    let mut creds = oauth_creds("a", "r", 10);
    creds
        .update_oauth_tokens("a2".to_string(), "r2".to_string(), 99, 42)
        .unwrap();
    assert_eq!(creds.updated_at, 42);
    assert_eq!(creds.created_at, 1700000000);
    match creds.auth_type {
        AuthType::OAuth {
            access_token,
            refresh_token,
            expires_at,
        } => {
            assert_eq!(access_token, "a2");
            assert_eq!(refresh_token, "r2");
            assert_eq!(expires_at, 99);
        }
        _ => panic!("still an OAuth credential"),
    }

    let mut key_creds = StoredCredentials {
        auth_type: AuthType::ApiKey {
            key: "k".to_string(),
            name: "n".to_string(),
            prefix: "p".to_string(),
            last_4: "l".to_string(),
        },
        user_id: None,
        email: None,
        created_at: 1,
        updated_at: 1,
    };
    let err = key_creds
        .update_oauth_tokens("x".to_string(), "y".to_string(), 0, 0)
        .unwrap_err();
    assert_eq!(err, AuthError::WrongCredentialKind);
    assert_eq!(key_creds.updated_at, 1);
}

#[test]
fn logout_drops_the_cached_credential() {
    let mut m = CredentialManager::new(Some(oauth_creds("a", "r", 10)));
    assert!(m.is_authenticated());
    m.logout();
    assert!(!m.is_authenticated());
    assert!(m.current_credentials().is_none());
}

#[test]
fn api_keys_parse_exactly_when_well_shaped() {
    let (prefix, last4) = parse_api_key("kanuni_live_abcdefgh").unwrap();
    assert_eq!(prefix, "kanuni_live_");
    assert_eq!(last4, "efgh");
    let (prefix, last4) = parse_api_key("kanuni_test_1234").unwrap();
    assert_eq!(prefix, "kanuni_test_");
    assert_eq!(last4, "1234");
    assert_eq!(
        parse_api_key("kanuni_live_abc").unwrap_err(),
        AuthError::InvalidApiKeyFormat
    );
    assert_eq!(
        parse_api_key("sk_live_abcdefgh").unwrap_err(),
        AuthError::InvalidApiKeyFormat
    );
    assert_eq!(parse_api_key("").unwrap_err(), AuthError::InvalidApiKeyFormat);
}

#[test]
fn auth_statuses_classify_as_documented() {
    assert_eq!(classify_login_status(200), LoginStatusClass::Success);
    assert_eq!(classify_login_status(401), LoginStatusClass::InvalidCredentials);
    assert_eq!(classify_login_status(403), LoginStatusClass::MfaRequired);
    assert_eq!(classify_login_status(500), LoginStatusClass::Other);
    assert_eq!(classify_refresh_status(200), RefreshStatusClass::Success);
    assert_eq!(classify_refresh_status(401), RefreshStatusClass::Rejected);
    assert_eq!(classify_refresh_status(503), RefreshStatusClass::Other);
}

#[test]
fn the_store_names_the_credential_file() {
    let store = TokenStore::new("/home/user/.config/kanuni".to_string());
    assert_eq!(store.auth_file_path(), "/home/user/.config/kanuni/auth.json");
}

#[test]
fn the_secret_store_service_name_is_fixed() {
    let storage = TokenStorage::new();
    assert_eq!(storage.service_name(), "kanuni");
}
