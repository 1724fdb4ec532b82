use spotify_ws::config::{CLIENT_TIMEOUT, HEARTBEAT_INTERVAL, WEBSOCKET_ADDR};
use spotify_ws::credential::Credential;
use spotify_ws::error::ProxyError;
use spotify_ws::opts::Opts;
use spotify_ws::utils::has_time_passed;

fn opts(address: &str, port: &str) -> Opts {
    Opts {
        interval: 1,
        username: "user".to_string(),
        password: "secret".to_string(),
        port: port.to_string(),
        address: address.to_string(),
        cors_origin: None,
        compact: false,
    }
}

#[test]
fn time_has_passed_from_the_deadline_on() {
    assert!(!has_time_passed(1_000, 2, 2_999));
    assert!(has_time_passed(1_000, 2, 3_000));
    assert!(has_time_passed(1_000, 2, 3_001));
}

#[test]
fn time_has_passed_at_the_very_instant_the_span_ends() {
    assert!(has_time_passed(0, 10, 10_000));
    assert!(!has_time_passed(0, 10, 9_999));
    // 2024-01-01T00:00:00Z and ten seconds later, in milliseconds.
    assert!(has_time_passed(1_704_067_200_000, 10, 1_704_067_210_000));
    assert!(!has_time_passed(1_704_067_200_000, 10, 1_704_067_209_999));
}

#[test]
fn time_passed_with_zero_and_negative_spans() {
    assert!(has_time_passed(5, 0, 5));
    assert!(!has_time_passed(5, 0, 4));
    assert!(has_time_passed(5, 0, 6));
    assert!(has_time_passed(5_000, -1, 4_001));
    assert!(has_time_passed(5_000, -1, 4_000));
    assert!(!has_time_passed(5_000, -1, 3_999));
}

#[test]
fn time_passed_does_not_overflow_at_the_ends() {
    assert!(!has_time_passed(i64::MAX, i64::MAX, i64::MAX));
    assert!(has_time_passed(i64::MIN, i64::MIN, i64::MIN));
    assert!(!has_time_passed(0, i64::MAX, i64::MAX));
    assert!(has_time_passed(i64::MAX, i64::MIN, 0));
    assert!(has_time_passed(i64::MAX, 0, i64::MAX));
    assert!(has_time_passed(i64::MIN, 0, i64::MIN));
}

#[test]
fn time_passed_agrees_with_token_expiry_at_the_boundary() {
    let store = Credential {
        access_token: None,
        refresh_token: None,
        fetched_at: 100,
        expires_in: 10,
    };
    for now in [109u64, 110, 111] {
        let by_seconds = store.is_expired(now);
        let by_millis = has_time_passed(100_000, 10, i64::try_from(now).unwrap() * 1000);
        assert_eq!(by_seconds, by_millis);
    }
    assert!(store.is_expired(110));
    assert!(has_time_passed(100_000, 10, 110_000));
}

#[test]
fn listen_addr_joins_address_and_port() {
    assert_eq!(opts("0.0.0.0", "8080").listen_addr(), "0.0.0.0:8080");
    assert_eq!(opts("0.0.0.0", "8080").listen_addr(), WEBSOCKET_ADDR);
    assert_eq!(opts("::1", "9").listen_addr(), "::1:9");
    assert_eq!(opts("", "").listen_addr(), ":");
}

#[test]
fn timeout_is_twice_the_heartbeat_period() {
    assert_eq!(HEARTBEAT_INTERVAL, 5);
    assert_eq!(CLIENT_TIMEOUT, 10);
    assert_eq!(CLIENT_TIMEOUT, 2 * HEARTBEAT_INTERVAL);
}

#[test]
fn outside_errors_convert_into_their_own_variants() {
    let json = serde_json::from_str::<serde_json::Value>("{").unwrap_err();
    assert!(matches!(ProxyError::from(json), ProxyError::Json(_)));
    let http = http::Request::get("http://x").header("bad\nname", "v").body(()).unwrap_err();
    assert!(matches!(ProxyError::from(http), ProxyError::Http(_)));
    let session = ProxyError::Librespot("connection refused".to_string());
    assert!(matches!(session, ProxyError::Librespot(ref text) if text == "connection refused"));
}
