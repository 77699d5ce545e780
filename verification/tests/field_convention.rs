use smite::fields::{is_effectively_empty, optional_string_field, optional_u32_field};

#[test]
fn blank_and_quoted_empty_values_mark_absence() {
    assert!(is_effectively_empty(""));
    assert!(is_effectively_empty("   "));
    assert!(is_effectively_empty("\t\r\n"));
    assert!(is_effectively_empty("\"\""));
    assert!(is_effectively_empty("  \"\"  "));
}

#[test]
fn unicode_whitespace_also_marks_absence() {
    assert!(is_effectively_empty("\u{a0}"));
    assert!(is_effectively_empty("\u{2003}\u{2009}"));
    assert!(is_effectively_empty("\u{a0}\"\"\u{3000}"));
    assert!(!is_effectively_empty("\u{a0}x\u{a0}"));
}

#[test]
fn real_values_do_not_mark_absence() {
    assert!(!is_effectively_empty("x"));
    assert!(!is_effectively_empty("  x  "));
    assert!(!is_effectively_empty("\" \""));
    assert!(!is_effectively_empty("\"\"x"));
    assert!(!is_effectively_empty("0"));
}

#[test]
fn optional_numbers_follow_the_convention() {
    assert_eq!(optional_u32_field(None), Ok(None));
    assert_eq!(optional_u32_field(Some("")), Ok(None));
    assert_eq!(optional_u32_field(Some("  \"\" ")), Ok(None));
    assert_eq!(optional_u32_field(Some("42")), Ok(Some(42)));
    assert_eq!(optional_u32_field(Some("10")), Ok(Some(10)));
    assert_eq!(optional_u32_field(Some("+7")), Ok(Some(7)));
    assert_eq!(optional_u32_field(Some("not a number")), Err(()));
    assert_eq!(optional_u32_field(Some(" 5")), Err(()));
    assert_eq!(optional_u32_field(Some("4294967296")), Err(()));
}

#[test]
fn optional_strings_keep_real_values_untouched() {
    assert_eq!(optional_string_field(None), None);
    assert_eq!(optional_string_field(Some("".to_string())), None);
    assert_eq!(optional_string_field(Some(" \"\" ".to_string())), None);
    assert_eq!(
        optional_string_field(Some(" Ymir,Thor ".to_string())),
        Some(" Ymir,Thor ".to_string())
    );
}
