use nexuflux::domain::error::AppError;
use nexuflux::text::{chars_of, decimal_chars, split_on_newlines, trim_chars};

fn text(v: &[char]) -> String {
    v.iter().collect()
}

#[test]
fn error_messages() {
    assert_eq!(AppError::CoreProcess("x".into()).message(), "Core process error: x");
    assert_eq!(AppError::Api("y".into()).message(), "REST API error: y");
    assert_eq!(AppError::SubParse("z".into()).message(), "Subscription parse error: z");
    assert_eq!(
        AppError::CircuitBreakerTripped.message(),
        "All nodes are dead or sleeping. Standby circuit-breaker activated."
    );
    assert_eq!(
        AppError::AdminPrivilegeRequired.message(),
        "Permission denied: Administrator privileges required for Wintun TUN adapter."
    );
    assert_eq!(AppError::Io("disk".into()).message(), "System I/O error: disk");
    assert_eq!(AppError::Network("down".into()).message(), "Network request failed: down");
    assert_eq!(AppError::Generic("g".into()).message(), "Generic error: g");
}

#[test]
fn trimming_matches_std() {
    for s in ["", "  a b  ", "\u{3000}x\u{85}", "\t\r\n", "abc", " \u{200b}x "] {
        let t = trim_chars(&chars_of(s));
        assert_eq!(text(&t), s.trim());
    }
}

#[test]
fn decimal_numerals() {
    assert_eq!(text(&decimal_chars(0)), "0");
    assert_eq!(text(&decimal_chars(7)), "7");
    assert_eq!(text(&decimal_chars(1200)), "1200");
    assert_eq!(text(&decimal_chars(u64::MAX)), u64::MAX.to_string());
}

#[test]
fn splitting_lines() {
    let parts = split_on_newlines(&chars_of("a\n\nb\n"));
    let texts: Vec<String> = parts.iter().map(|p| text(p)).collect();
    assert_eq!(texts, vec!["a", "", "b", ""]);
    assert_eq!(split_on_newlines(&chars_of("")).len(), 1);
}

