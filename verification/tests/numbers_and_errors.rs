use golem_websearch::error::{
    check_status, create_backend_error, create_invalid_query_error, create_rate_limited_error,
    create_unsupported_feature_error, http_status_to_search_error, is_success,
};
use golem_websearch::numbers::{parse_u64_decimal, u64_to_decimal};
use golem_websearch::text::is_blank_text;
use golem_websearch::types::SearchError;

fn backend_message(e: SearchError) -> String {
    match e {
        SearchError::BackendError(m) => m,
        other => panic!("expected a backend error, got {:?}", other),
    }
}

#[test]
fn decimal_text_of_numbers() {
    assert_eq!(u64_to_decimal(0), "0");
    assert_eq!(u64_to_decimal(7), "7");
    assert_eq!(u64_to_decimal(10), "10");
    assert_eq!(u64_to_decimal(1234567890), "1234567890");
    assert_eq!(u64_to_decimal(u64::MAX), "18446744073709551615");
}

#[test]
fn parsing_decimal_text() {
    assert_eq!(parse_u64_decimal("123"), Some(123));
    assert_eq!(parse_u64_decimal("+7"), Some(7));
    assert_eq!(parse_u64_decimal("007"), Some(7));
    assert_eq!(parse_u64_decimal("18446744073709551615"), Some(u64::MAX));
    assert_eq!(parse_u64_decimal("18446744073709551616"), None);
    assert_eq!(parse_u64_decimal("99999999999999999999x"), None);
    assert_eq!(parse_u64_decimal(""), None);
    assert_eq!(parse_u64_decimal("+"), None);
    assert_eq!(parse_u64_decimal("-1"), None);
    assert_eq!(parse_u64_decimal(" 1"), None);
    assert_eq!(parse_u64_decimal("12a"), None);
    assert_eq!(parse_u64_decimal("1,000"), None);
}

#[test]
fn parsing_agrees_with_std() {
    for text in ["0", "+0", "42", "+", "", "-3", "4294967296", "18446744073709551616", "1e3", "٣"] {
        assert_eq!(parse_u64_decimal(text), text.parse::<u64>().ok(), "text {:?}", text);
    }
}

#[test]
fn decimal_text_reads_back() {
    for n in [0u64, 1, 9, 10, 99, 100, 65535, 4294967296, u64::MAX] {
        assert_eq!(parse_u64_decimal(&u64_to_decimal(n)), Some(n));
    }
}

#[test]
fn error_constructors() {
    assert!(matches!(create_invalid_query_error(), SearchError::InvalidQuery));
    assert!(matches!(create_rate_limited_error(30), SearchError::RateLimited(30)));
    match create_unsupported_feature_error("images".to_string()) {
        SearchError::UnsupportedFeature(f) => assert_eq!(f, "images"),
        other => panic!("unexpected {:?}", other),
    }
    assert_eq!(backend_message(create_backend_error("down".to_string())), "down");
}

#[test]
fn status_codes_map_to_errors() {
    assert!(matches!(http_status_to_search_error(400, "bad"), SearchError::InvalidQuery));
    assert_eq!(backend_message(http_status_to_search_error(401, "no key")), "Authentication failed: no key");
    assert_eq!(backend_message(http_status_to_search_error(403, "denied")), "Authentication failed: denied");
    assert!(matches!(http_status_to_search_error(429, "slow down"), SearchError::RateLimited(60)));
    assert_eq!(backend_message(http_status_to_search_error(500, "boom")), "Server error: boom");
    assert_eq!(backend_message(http_status_to_search_error(599, "x")), "Server error: x");
    assert_eq!(backend_message(http_status_to_search_error(404, "missing")), "HTTP error 404: missing");
    assert_eq!(backend_message(http_status_to_search_error(600, "odd")), "HTTP error 600: odd");
    assert_eq!(backend_message(http_status_to_search_error(0, "")), "HTTP error 0: ");
}

#[test]
fn success_statuses() {
    assert!(is_success(200));
    assert!(is_success(204));
    assert!(is_success(299));
    assert!(!is_success(199));
    assert!(!is_success(300));
    assert!(check_status(200, "ok").is_ok());
    match check_status(503, "Google API error") {
        Err(e) => assert_eq!(backend_message(e), "Server error: Google API error"),
        Ok(()) => panic!("503 accepted"),
    }
}

#[test]
fn blank_queries() {
    assert!(is_blank_text(""));
    assert!(is_blank_text("   "));
    assert!(is_blank_text(" \t\n\r"));
    assert!(is_blank_text("\u{3000}\u{a0}"));
    assert!(!is_blank_text(" a "));
    assert!(!is_blank_text("rust"));
    for text in ["", " x", "\u{2003}", "\u{200b}", "y\t"] {
        assert_eq!(is_blank_text(text), text.trim().is_empty(), "text {:?}", text);
    }
}
