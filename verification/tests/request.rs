use spotify_ws::error::ProxyError;
use spotify_ws::request::{
    authorization, query_request, ACCEPTED_TYPE, CURRENTLY_PLAYING_URL, TOKEN_SCOPE,
};

#[test]
fn authorization_is_the_token_behind_bearer() {
    assert_eq!(authorization("abc123"), "Bearer abc123");
    assert_eq!(authorization(""), "Bearer ");
}

#[test]
fn query_request_is_a_get_with_both_headers() {
    let request = query_request("abc123").unwrap();
    assert_eq!(request.method(), http::Method::GET);
    assert_eq!(
        request.uri().to_string(),
        "https://api.spotify.com/v1/me/player/currently-playing"
    );
    assert_eq!(request.headers().len(), 2);
    assert_eq!(request.headers().get(http::header::AUTHORIZATION).unwrap(), "Bearer abc123");
    assert_eq!(request.headers().get(http::header::ACCEPT).unwrap(), "application/json");
    assert!(request.body().is_empty());
}

#[test]
fn query_request_takes_tabs_and_text_beyond_ascii() {
    assert!(query_request("a\tb").is_ok());
    let request = query_request("t\u{f8}ken").unwrap();
    assert_eq!(
        request.headers().get(http::header::AUTHORIZATION).unwrap().as_bytes(),
        "Bearer t\u{f8}ken".as_bytes()
    );
    assert!(query_request("").is_ok());
}

#[test]
fn query_request_rejects_control_characters() {
    assert!(matches!(query_request("abc\n"), Err(ProxyError::Http(_))));
    assert!(matches!(query_request("a\rb"), Err(ProxyError::Http(_))));
    assert!(matches!(query_request("a\u{7f}b"), Err(ProxyError::Http(_))));
    assert!(matches!(query_request("\u{0}"), Err(ProxyError::Http(_))));
}

#[test]
fn constants_name_the_upstream_interface() {
    assert_eq!(CURRENTLY_PLAYING_URL, "https://api.spotify.com/v1/me/player/currently-playing");
    assert_eq!(TOKEN_SCOPE, "user-read-currently-playing");
    assert_eq!(ACCEPTED_TYPE, "application/json");
}
