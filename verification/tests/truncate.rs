use codex_core::truncate::{estimate_tokens, truncate_middle};

fn count(s: &str) -> u64 {
    estimate_tokens(s)
}

#[test]
fn truncate_middle_no_newlines_fallback() {
    let s = "abcdefghijklmnopqrstuvwxyz0123456789ABCDEFGHIJKLMNOPQRSTUVWXYZabcdefghijklmnopqrstuvwxyz0123456789ABCDEFGHIJKLMNOPQRSTUVWXYZ*";
    let max_bytes = 32;
    let (out, original) = truncate_middle(s, max_bytes, count);
    assert!(out.starts_with("abc"));
    assert!(out.contains("tokens truncated"));
    assert!(out.ends_with("XYZ*"));
    assert_eq!(original, Some(count(s)));
}

#[test]
fn truncate_middle_prefers_newline_boundaries() {
    let mut s = String::new();
    for i in 1..=20 {
        s.push_str(&format!("{i:03}\n"));
    }
    assert_eq!(s.len(), 80);

    let max_bytes = 64;
    let (out, tokens) = truncate_middle(&s, max_bytes, count);
    assert!(out.starts_with("001\n002\n003\n004\n"));
    assert!(out.contains("tokens truncated"));
    assert!(out.ends_with("017\n018\n019\n020\n"));
    assert_eq!(tokens, Some(count(&s)));
}

#[test]
fn truncate_middle_handles_utf8_content() {
    let s = "😀😀😀😀😀😀😀😀😀😀\nsecond line with ascii text\n";
    let max_bytes = 32;
    let (out, tokens) = truncate_middle(s, max_bytes, count);

    assert!(out.contains("tokens truncated"));
    assert!(!out.contains('\u{fffd}'));
    assert_eq!(tokens, Some(count(s)));
}

#[test]
fn truncate_middle_prefers_newline_boundaries_2() {
    // Build a multi-line string of 20 numbered lines (each "NNN\n").
    let mut s = String::new();
    for i in 1..=20 {
        s.push_str(&format!("{i:03}\n"));
    }
    assert_eq!(s.len(), 80);

    let max_bytes = 64;
    let (out, total) = truncate_middle(&s, max_bytes, count);
    assert!(out.starts_with("001\n002\n003\n004\n"));
    assert!(out.contains("tokens truncated"));
    assert!(out.ends_with("017\n018\n019\n020\n"));
    assert_eq!(total, Some(count(&s)));
}

#[test]
fn a_text_that_fits_is_not_touched() {
    let (out, tokens) = truncate_middle("short", 5, count);
    assert_eq!(out, "short");
    assert_eq!(tokens, None);
}

#[test]
fn a_truncated_text_never_exceeds_its_limit() {
    let mut lines = String::new();
    for i in 1..=200 {
        lines.push_str(&format!("{i:03}\n"));
    }
    let plain = "abcdefghijklmnopqrstuvwxyz0123456789".repeat(20);
    let wide = "😀é€x\n".repeat(60);
    for text in [lines.as_str(), plain.as_str(), wide.as_str()] {
        for max_bytes in 0..text.len() + 2 {
            let (out, _) = truncate_middle(text, max_bytes, count);
            assert!(out.len() <= max_bytes, "{} > {max_bytes}", out.len());
        }
    }
}

#[test]
fn as_much_of_the_marker_is_kept_as_fits() {
    assert_eq!(truncate_middle("abcdefgh", 0, count), (String::new(), Some(2)));
    assert_eq!(truncate_middle("abcdefgh", 2, count), (String::new(), Some(2)));
    assert_eq!(truncate_middle("abcdefgh", 6, count), ("…2 t".to_string(), Some(2)));
    let text = "a".repeat(100);
    assert_eq!(
        truncate_middle(&text, 24, count),
        ("…25 tokens truncated".to_string(), Some(25))
    );
}

#[test]
fn a_line_break_follows_the_marker_where_there_is_room() {
    // 4 kept bytes, a marker of 25 and 3 kept bytes fill the limit.
    let text = "a".repeat(100);
    let (out, _) = truncate_middle(&text, 32, count);
    assert_eq!(out, format!("{}…24 tokens truncated…{}", "a".repeat(3), "a".repeat(4)));
    // The newline at the end of the first half leaves bytes unused.
    let text = format!("ab\n{}", "c".repeat(100));
    let (out, _) = truncate_middle(&text, 33, count);
    assert_eq!(out, format!("ab\n…24 tokens truncated…\n{}", "c".repeat(4)));
}

#[test]
fn tokens_are_estimated_at_four_bytes_each() {
    assert_eq!(estimate_tokens(""), 0);
    assert_eq!(estimate_tokens("abcd"), 1);
    assert_eq!(estimate_tokens("abcde"), 2);
    assert_eq!(estimate_tokens("😀😀"), 2);
}
