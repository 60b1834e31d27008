use wechat_mp_mcp::client::{
    after_attempt, AttemptDecision,
    api_error, base_url, body_length_error, cache_seconds, declared_length_error, flag_enabled,
    decode_response, http_status_message, is_success_status, is_token_error, parse_usize,
    read_response_error, positive_usize_setting, token_from_response, wechat_error,
    TokenCache, TokenResponse,
};

#[test]
fn recognizes_only_supported_token_errors() {
    assert!(is_token_error("WeChat API error 40014: invalid token"));
    assert!(is_token_error("WeChat API error 42001: expired token"));
    assert!(!is_token_error("WeChat API error 48001: unauthorized"));
}

#[test]
fn wechat_error_includes_code_message_and_rid() {
    assert_eq!(
        wechat_error(48001, Some("api unauthorized"), Some("request-id")),
        "WeChat API error 48001: api unauthorized; rid=request-id"
    );
    assert_eq!(wechat_error(-1, None, None), "WeChat API error -1: unknown error");
    assert_eq!(
        wechat_error(i64::MIN, None, None),
        "WeChat API error -9223372036854775808: unknown error"
    );
}

#[test]
fn maps_error_envelopes_only_for_nonzero_codes() {
    let e = api_error(Some(48001), Some("api unauthorized"), Some("request-id")).unwrap();
    assert!(e.contains("48001"));
    assert!(e.contains("request-id"));
    assert!(!e.contains("secret-token"));
    assert_eq!(api_error(Some(0), Some("ok"), None), None);
    assert_eq!(api_error(None, None, None), None);
}

fn response(token: Option<&str>, expires: Option<u64>, code: Option<i64>) -> TokenResponse {
    TokenResponse {
        access_token: token.map(str::to_owned),
        expires_in: expires,
        errcode: code,
        errmsg: Some("invalid ip".into()),
        rid: None,
    }
}

#[test]
fn token_response_is_checked() {
    assert_eq!(
        token_from_response(&response(Some("secret-token"), Some(7200), None)).unwrap(),
        ("secret-token".to_string(), 7200)
    );
    assert_eq!(
        token_from_response(&response(Some("t"), Some(7200), Some(40164))).unwrap_err(),
        "WeChat API error 40164: invalid ip"
    );
    assert_eq!(
        token_from_response(&response(Some(""), Some(7200), Some(0))).unwrap_err(),
        "WeChat stable-token response is missing access_token"
    );
    assert_eq!(
        token_from_response(&response(Some("t"), None, None)).unwrap_err(),
        "WeChat stable-token response is missing expires_in"
    );
}

#[test]
fn tokens_expire_five_minutes_early() {
    assert_eq!(cache_seconds(7200), 6900);
    assert_eq!(cache_seconds(300), 1);
    assert_eq!(cache_seconds(0), 1);
    assert_eq!(cache_seconds(302), 2);
}

#[test]
fn cache_gives_back_stored_token_until_it_expires() {
    let mut cache = TokenCache::new();
    assert_eq!(cache.current(0), None);
    cache.store("secret-token".into(), 7200, 1_000);
    assert_eq!(cache.current(1_000).as_deref(), Some("secret-token"));
    assert_eq!(cache.current(1_000 + 6_900_000 - 1).as_deref(), Some("secret-token"));
    assert_eq!(cache.current(1_000 + 6_900_000), None);
    cache.invalidate();
    assert_eq!(cache.current(1_000), None);
    cache.store("late".into(), 7200, u64::MAX - 5);
    assert_eq!(cache.current(u64::MAX - 1).as_deref(), Some("late"));
}

#[test]
fn response_limits() {
    assert_eq!(declared_length_error(Some(4096), 4096), None);
    assert_eq!(
        declared_length_error(Some(4097), 4096).unwrap(),
        "WeChat response is 4097 bytes, exceeding the configured 4096 byte limit"
    );
    assert_eq!(declared_length_error(None, 1), None);
    assert_eq!(
        body_length_error(5000, 4096).unwrap(),
        "WeChat response exceeds the configured 4096 byte limit"
    );
    assert_eq!(body_length_error(10, 4096), None);
}

#[test]
fn parses_settings_like_std() {
    for text in ["0", "42", "+7", "007", "", "+", "-1", "1x", " 1", "18446744073709551615", "18446744073709551616"] {
        assert_eq!(parse_usize(text), text.parse::<usize>().ok(), "{text}");
    }
}

#[test]
fn positive_settings() {
    assert_eq!(positive_usize_setting("WECHAT_MAX_RESPONSE_BYTES", None, 1048576), Ok(1048576));
    assert_eq!(positive_usize_setting("WECHAT_MAX_RESPONSE_BYTES", Some("4096"), 1), Ok(4096));
    assert_eq!(
        positive_usize_setting("WECHAT_MAX_RESPONSE_BYTES", Some("abc"), 1).unwrap_err(),
        "WECHAT_MAX_RESPONSE_BYTES must be a positive integer"
    );
    assert_eq!(
        positive_usize_setting("WECHAT_MAX_RESPONSE_BYTES", Some("0"), 1).unwrap_err(),
        "WECHAT_MAX_RESPONSE_BYTES must be greater than zero"
    );
}

#[test]
fn flags() {
    assert!(flag_enabled(Some("1")));
    assert!(flag_enabled(Some("TRUE")));
    assert!(flag_enabled(Some("Yes")));
    assert!(!flag_enabled(Some("no")));
    assert!(!flag_enabled(Some(" true")));
    assert!(!flag_enabled(None));
}

#[test]
fn base_url_drops_trailing_slashes() {
    assert_eq!(base_url("https://api.weixin.qq.com//"), "https://api.weixin.qq.com");
    assert_eq!(base_url("http://127.0.0.1:1"), "http://127.0.0.1:1");
}

#[test]
fn only_a_first_token_failure_is_retried() {
    assert_eq!(
        after_attempt(0, Some("WeChat API error 42001: expired token")),
        AttemptDecision::InvalidateAndRetry
    );
    assert_eq!(
        after_attempt(1, Some("WeChat API error 42001: expired token")),
        AttemptDecision::Finish
    );
    assert_eq!(after_attempt(0, Some("WeChat API error 48001: unauthorized")), AttemptDecision::Finish);
    assert_eq!(after_attempt(0, None), AttemptDecision::Finish);
}

#[test]
fn formatted_errors_are_token_errors_only_for_their_two_codes() {
    assert!(is_token_error(&wechat_error(40014, Some("invalid credential"), None)));
    assert!(is_token_error(&wechat_error(42001, None, Some("rid-1"))));
    assert!(!is_token_error(&wechat_error(400140, Some("invalid credential"), None)));
    assert!(!is_token_error(&wechat_error(-40014, Some("invalid credential"), None)));
    assert!(!is_token_error(&wechat_error(48001, Some("unauthorized"), Some("rid-2"))));
    assert!(!is_token_error(&wechat_error(4001, None, None)));
}

#[test]
fn http_status_errors_show_code_reason_and_body() {
    assert!(is_success_status(200));
    assert!(is_success_status(299));
    assert!(!is_success_status(300));
    assert!(!is_success_status(199));
    assert_eq!(
        http_status_message(404, "{\"errmsg\":\"missing\"}"),
        "WeChat API returned HTTP 404 Not Found: {\"errmsg\":\"missing\"}"
    );
    assert_eq!(
        http_status_message(502, "\"bad gateway\""),
        "WeChat API returned HTTP 502 Bad Gateway: \"bad gateway\""
    );
    assert_eq!(
        http_status_message(599, "null"),
        "WeChat API returned HTTP 599 <unknown status code>: null"
    );
}

#[test]
fn read_responses_are_checked_for_size_then_status() {
    let json_body = br#"{"errcode":0,"item":[1,2]}"#;
    assert_eq!(
        read_response_error(200, json_body, 10).unwrap(),
        "WeChat response exceeds the configured 10 byte limit"
    );
    assert_eq!(read_response_error(200, json_body, 1024), None);
    assert_eq!(
        read_response_error(404, br#"{ "errmsg" : [1, "x"] }"#, 1024).unwrap(),
        "WeChat API returned HTTP 404 Not Found: {\"errmsg\":[1,\"x\"]}"
    );
    assert_eq!(
        read_response_error(502, b"upstream <down>", 1024).unwrap(),
        "WeChat API returned HTTP 502 Bad Gateway: \"upstream <down>\""
    );
    assert_eq!(
        read_response_error(500, b"bad \xff byte", 1024).unwrap(),
        "WeChat API returned HTTP 500 Internal Server Error: \"bad \u{fffd} byte\""
    );
}

#[test]
fn decoded_responses_are_json_or_the_body_text() {
    let value = decode_response(200, br#"{"errcode":0,"item":[1,2]}"#, 1024).unwrap();
    let expected: serde_json::Value = serde_json::from_str(r#"{"errcode":0,"item":[1,2]}"#).unwrap();
    assert_eq!(value, expected);
    let text = decode_response(200, b"plain text", 1024).unwrap();
    assert_eq!(text, serde_json::Value::String("plain text".to_string()));
    assert_eq!(
        decode_response(403, b"{}", 1024).unwrap_err(),
        "WeChat API returned HTTP 403 Forbidden: {}"
    );
}
