use codex_core::client::headers::{
    parse_balance, parse_bool, parse_credits_snapshot, parse_header_bool, parse_header_i64,
    parse_header_str, parse_i64, parse_rate_limit_snapshot, parse_rate_limit_window, parse_u64,
    rate_limit_window, visible_string,
};
use reqwest::header::{HeaderMap, HeaderName, HeaderValue};

fn headers(list: &[(&str, &str)]) -> HeaderMap {
    let mut map = HeaderMap::new();
    for (name, value) in list {
        map.insert(
            HeaderName::from_bytes(name.as_bytes()).expect("a name"),
            HeaderValue::from_str(value).expect("a value"),
        );
    }
    map
}

#[test]
fn a_header_is_found_in_any_case() {
    let map = headers(&[("x-request-id", "abc")]);
    assert_eq!(parse_header_str(&map, "X-Request-Id"), Some("abc".to_string()));
    assert_eq!(parse_header_str(&map, "other"), None);
}

#[test]
fn a_header_with_invisible_characters_is_no_text() {
    let mut map = HeaderMap::new();
    map.insert("x", HeaderValue::from_bytes(&[b'a', 0xe4]).expect("a value"));
    assert_eq!(parse_header_str(&map, "x"), None);
    assert_eq!(visible_string(&vec![b'a', b' ', b'\t', b'~']), Some("a \t~".to_string()));
    assert_eq!(visible_string(&vec![b'a', 0x7f]), None);
}

#[test]
fn numbers_are_read_as_std_reads_them() {
    for raw in [
        "0", "-1", "+7", "007", "9223372036854775807", "9223372036854775808",
        "-9223372036854775808", "-9223372036854775809", "", "-", "+", "1.5", " 1", "1 ", "a",
    ] {
        assert_eq!(parse_i64(raw), raw.parse::<i64>().ok(), "{raw:?}");
    }
    for raw in ["0", "+7", "-1", "18446744073709551615", "18446744073709551616", "", "x"] {
        assert_eq!(parse_u64(raw), raw.parse::<u64>().ok(), "{raw:?}");
    }
}

#[test]
fn truth_is_written_in_several_ways() {
    assert_eq!(parse_bool("TRUE"), Some(true));
    assert_eq!(parse_bool("1"), Some(true));
    assert_eq!(parse_bool("False"), Some(false));
    assert_eq!(parse_bool("0"), Some(false));
    assert_eq!(parse_bool("yes"), None);
    let map = headers(&[("a", "true"), ("n", "12")]);
    assert_eq!(parse_header_bool(&map, "a"), Some(true));
    assert_eq!(parse_header_i64(&map, "n"), Some(12));
}

#[test]
fn a_window_without_data_is_none() {
    let zero = 0.0f64.to_bits();
    let some = 12.5f64.to_bits();
    assert!(rate_limit_window(Some(zero), None, None).is_none());
    assert!(rate_limit_window(Some(zero), Some(0), None).is_none());
    assert!(rate_limit_window(None, Some(60), None).is_none());
    let window = rate_limit_window(Some(some), Some(60), Some(7)).expect("a window");
    assert_eq!(f64::from_bits(window.used_percent_bits), 12.5);
    assert_eq!(window.window_minutes, Some(60));
    assert_eq!(window.resets_at, Some(7));
}

#[test]
fn a_snapshot_is_read_from_the_headers() {
    let map = headers(&[
        ("x-codex-primary-window-minutes", "300"),
        ("x-codex-primary-reset-at", "1704069000"),
        ("x-codex-credits-has-credits", "true"),
        ("x-codex-credits-unlimited", "false"),
        ("x-codex-credits-balance", " 7.5 "),
    ]);
    let snapshot =
        parse_rate_limit_snapshot(&map, Some(25.0f64.to_bits()), None).expect("a snapshot");
    let primary = snapshot.primary.expect("a primary window");
    assert_eq!(f64::from_bits(primary.used_percent_bits), 25.0);
    assert_eq!(primary.window_minutes, Some(300));
    assert_eq!(primary.resets_at, Some(1704069000));
    assert!(snapshot.secondary.is_none());
    let credits = snapshot.credits.expect("credits");
    assert!(credits.has_credits);
    assert!(!credits.unlimited);
    assert_eq!(credits.balance.as_deref(), Some("7.5"));
    let window = parse_rate_limit_window(
        &map,
        Some(25.0f64.to_bits()),
        "x-codex-primary-window-minutes",
        "x-codex-primary-reset-at",
    )
    .expect("a window");
    assert_eq!(window.window_minutes, Some(300));
}

#[test]
fn credits_need_both_flags() {
    assert!(parse_credits_snapshot(&headers(&[("x-codex-credits-has-credits", "true")])).is_none());
    assert_eq!(parse_balance(Some("  ".to_string())), None);
    assert_eq!(parse_balance(None), None);
    assert_eq!(parse_balance(Some(" 3 ".to_string())), Some("3".to_string()));
}
