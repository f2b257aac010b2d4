use us_stock_tracker::number::{parse_u64, to_decimal};
use us_stock_tracker::sources::lookup_url;
use us_stock_tracker::text::{chars_of, remove_char, string_of, trim};

#[test]
fn parse_accepts_plain_and_plus_signed_digits() {
    assert_eq!(parse_u64("300"), Some(300));
    assert_eq!(parse_u64("+42"), Some(42));
    assert_eq!(parse_u64("007"), Some(7));
    assert_eq!(parse_u64("18446744073709551615"), Some(u64::MAX));
}

#[test]
fn parse_rejects_what_std_rejects() {
    assert_eq!(parse_u64(""), None);
    assert_eq!(parse_u64("+"), None);
    assert_eq!(parse_u64("-5"), None);
    assert_eq!(parse_u64("12a"), None);
    assert_eq!(parse_u64(" 12"), None);
    assert_eq!(parse_u64("18446744073709551616"), None);
    assert_eq!(parse_u64("99999999999999999999999"), None);
}

#[test]
fn parse_agrees_with_std() {
    for s in ["0", "1", "+0", "++1", "10", "300", "4294967296", "1_000", "0x10", "٣"] {
        assert_eq!(parse_u64(s), s.parse::<u64>().ok(), "input {:?}", s);
    }
}

#[test]
fn decimal_text_matches_to_string() {
    for n in [0u64, 7, 10, 99, 100, 300, 12345, u64::MAX] {
        assert_eq!(to_decimal(n), n.to_string());
        assert_eq!(parse_u64(&to_decimal(n)), Some(n));
    }
}

#[test]
fn trim_removes_unicode_white_space_at_both_ends() {
    assert_eq!(trim("  ab c \t\n"), "ab c");
    assert_eq!(trim("\u{3000}股價\u{a0}"), "股價");
    assert_eq!(trim("   "), "");
    assert_eq!(trim(""), "");
    for s in [" x ", "\u{2003}y\u{2029}", "\u{85}z", "a\u{200b}"] {
        assert_eq!(trim(s), s.trim());
    }
}

#[test]
fn remove_char_drops_every_copy() {
    let v = chars_of("1,234,567");
    assert_eq!(string_of(&remove_char(&v, ',')), "1234567");
}

#[test]
fn upper_case_follows_unicode() {
    let base = "https://query1.finance.yahoo.com/v8/finance/chart/";
    assert_eq!(lookup_url("tsla"), Some(format!("{}TSLA?interval=1d&range=1d", base)));
    assert_eq!(lookup_url("brk.b"), Some(format!("{}BRK.B?interval=1d&range=1d", base)));
    assert_eq!(lookup_url("straße"), Some(format!("{}STRASSE?interval=1d&range=1d", base)));
}

#[test]
fn white_space_is_what_std_calls_white_space() {
    for u in 0u32..=0x10FFFF {
        if let Some(c) = char::from_u32(u) {
            assert_eq!(us_stock_tracker::text::is_white(c), c.is_whitespace(), "U+{:04X}", u);
        }
    }
}
