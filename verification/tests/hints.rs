use nextup::background::{
    background_from_hints, classify_colorfgbg, classify_term_program, contains_substring,
    parse_u8_decimal,
};

#[test]
fn substring_search() {
    assert!(contains_substring("hello", "ell"));
    assert!(contains_substring("hello", "hello"));
    assert!(contains_substring("hello", ""));
    assert!(!contains_substring("hello", "xy"));
    assert!(!contains_substring("he", "hello"));
}

#[test]
fn byte_parsing() {
    assert_eq!(parse_u8_decimal("0"), Some(0));
    assert_eq!(parse_u8_decimal("7"), Some(7));
    assert_eq!(parse_u8_decimal("007"), Some(7));
    assert_eq!(parse_u8_decimal("255"), Some(255));
    assert_eq!(parse_u8_decimal("256"), None);
    assert_eq!(parse_u8_decimal("12a"), None);
    assert_eq!(parse_u8_decimal(""), None);
}

#[test]
fn term_program_hint() {
    assert_eq!(classify_term_program("xterm-light"), Some(false));
    assert_eq!(classify_term_program("Apple_Terminal"), None);
    assert_eq!(classify_term_program(""), None);
}

#[test]
fn colorfgbg_hint() {
    assert_eq!(classify_colorfgbg("15;0"), Some(true));
    assert_eq!(classify_colorfgbg("0;15"), Some(false));
    assert_eq!(classify_colorfgbg("15;8"), Some(false));
    assert_eq!(classify_colorfgbg("15;7"), Some(true));
    assert_eq!(classify_colorfgbg("7"), Some(true));
    assert_eq!(classify_colorfgbg("15;"), None);
    assert_eq!(classify_colorfgbg(""), None);
    assert_eq!(classify_colorfgbg("junk"), None);
}

#[test]
fn fallback_chain_order() {
    assert!(!background_from_hints(Some("my-light-term"), Some("15;0")));
    assert!(background_from_hints(Some("xterm"), Some("15;0")));
    assert!(!background_from_hints(None, Some("0;15")));
    assert!(background_from_hints(Some("xterm"), Some("junk")));
    assert!(background_from_hints(None, None));
}
