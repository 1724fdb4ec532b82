use spotify_ws::credential::{AuthError, Credential, TokenRequest, TokenResponse};

fn response(access: &str, expires_in: u64, refresh: Option<&str>) -> TokenResponse {
    TokenResponse {
        access_token: access.to_string(),
        expires_in,
        refresh_token: refresh.map(|r| r.to_string()),
    }
}

fn credential(access: Option<&str>, refresh: Option<&str>, fetched_at: u64, expires_in: u64) -> Credential {
    Credential {
        access_token: access.map(|a| a.to_string()),
        refresh_token: refresh.map(|r| r.to_string()),
        fetched_at,
        expires_in,
    }
}

#[test]
fn exchange_builds_the_first_store() {
    let store = Credential::exchange_authorization_code(Ok(response("a1", 3600, Some("r1"))), 1000)
        .unwrap();
    assert_eq!(store.access_token.as_deref(), Some("a1"));
    assert_eq!(store.refresh_token.as_deref(), Some("r1"));
    assert_eq!(store.fetched_at, 1000);
    assert_eq!(store.expires_in, 3600);
}

#[test]
fn exchange_without_refresh_token_holds_none() {
    let store =
        Credential::exchange_authorization_code(Ok(response("a1", 60, None)), 5).unwrap();
    assert_eq!(store.refresh_token, None);
    assert_eq!(store.refresh_request().unwrap_err(), AuthError::NoRefreshToken);
}

#[test]
fn failed_exchange_is_passed_on() {
    let failed = Credential::exchange_authorization_code(Err(AuthError::Rejected), 1000);
    assert_eq!(failed.unwrap_err(), AuthError::Rejected);
}

#[test]
fn token_expires_exactly_at_the_end_of_its_lifetime() {
    let store = credential(Some("a"), None, 1000, 3600);
    assert!(!store.is_expired(0));
    assert!(!store.is_expired(1000));
    assert!(!store.is_expired(4599));
    assert!(store.is_expired(4600));
    assert!(store.is_expired(4601));
    assert!(store.is_expired(u64::MAX));
}

#[test]
fn token_with_no_lifetime_is_expired_at_once() {
    let store = credential(Some("a"), None, 1000, 0);
    assert!(store.is_expired(1000));
    assert!(!store.is_expired(999));
}

#[test]
fn lifetime_beyond_the_end_of_time_never_expires() {
    let store = credential(Some("a"), None, u64::MAX, 1);
    assert!(!store.is_expired(u64::MAX));
    let edge = credential(Some("a"), None, u64::MAX - 1, 1);
    assert!(edge.is_expired(u64::MAX));
    assert!(!edge.is_expired(u64::MAX - 1));
}

#[test]
fn refresh_request_carries_the_refresh_token() {
    let store = credential(Some("a"), Some("r1"), 0, 10);
    match store.refresh_request().unwrap() {
        TokenRequest::RefreshToken { refresh_token } => assert_eq!(refresh_token, "r1"),
        other => panic!("expected a refresh, got {:?}", other),
    }
}

#[test]
fn refresh_takes_the_new_token_and_restarts_the_clock() {
    let mut store = credential(Some("old"), Some("r1"), 0, 10);
    assert_eq!(store.refresh(Ok(response("new", 3600, None)), 500), Ok(()));
    assert_eq!(store.access_token.as_deref(), Some("new"));
    assert_eq!(store.refresh_token.as_deref(), Some("r1"));
    assert_eq!(store.fetched_at, 500);
    assert_eq!(store.expires_in, 3600);
    assert!(!store.is_expired(500));
    assert!(store.is_expired(4100));
}

#[test]
fn refresh_takes_a_new_refresh_token_where_one_comes() {
    let mut store = credential(Some("old"), Some("r1"), 0, 10);
    assert_eq!(store.refresh(Ok(response("new", 60, Some("r2"))), 20), Ok(()));
    assert_eq!(store.refresh_token.as_deref(), Some("r2"));
}

#[test]
fn failed_refresh_leaves_the_store_alone() {
    let mut store = credential(Some("old"), Some("r1"), 7, 10);
    assert_eq!(store.refresh(Err(AuthError::Rejected), 500), Err(AuthError::Rejected));
    assert_eq!(store.access_token.as_deref(), Some("old"));
    assert_eq!(store.refresh_token.as_deref(), Some("r1"));
    assert_eq!(store.fetched_at, 7);
    assert_eq!(store.expires_in, 10);
}

#[test]
fn refresh_without_refresh_token_is_a_soft_failure() {
    let mut store = credential(Some("old"), None, 7, 10);
    assert_eq!(
        store.refresh(Ok(response("new", 60, Some("r2"))), 500),
        Err(AuthError::NoRefreshToken)
    );
    assert_eq!(store.access_token.as_deref(), Some("old"));
    assert_eq!(store.refresh_token, None);
    assert_eq!(store.fetched_at, 7);
    assert_eq!(store.refresh(Err(AuthError::Rejected), 500), Err(AuthError::NoRefreshToken));
}

#[test]
fn authorization_code_request_holds_code_and_redirect() {
    let request =
        Credential::authorization_code_request("code-1".to_string(), "http://cb".to_string());
    match &request {
        TokenRequest::AuthorizationCode { code, redirect_uri } => {
            assert_eq!(code, "code-1");
            assert_eq!(redirect_uri, "http://cb");
        }
        other => panic!("expected an authorization code, got {:?}", other),
    }
    assert_eq!(
        request.form(),
        vec![
            ("grant_type".to_string(), "authorization_code".to_string()),
            ("code".to_string(), "code-1".to_string()),
            ("redirect_uri".to_string(), "http://cb".to_string()),
        ]
    );
}

#[test]
fn refresh_form_names_the_grant_and_the_token() {
    let request = TokenRequest::RefreshToken { refresh_token: "r1".to_string() };
    assert_eq!(
        request.form(),
        vec![
            ("grant_type".to_string(), "refresh_token".to_string()),
            ("refresh_token".to_string(), "r1".to_string()),
        ]
    );
}

#[test]
fn credential_clone_is_equal_in_every_field() {
    let store = credential(Some("a"), Some("r"), 3, 4);
    let copy = store.clone();
    assert_eq!(copy.access_token, store.access_token);
    assert_eq!(copy.refresh_token, store.refresh_token);
    assert_eq!(copy.fetched_at, 3);
    assert_eq!(copy.expires_in, 4);
}
