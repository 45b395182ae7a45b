use transcribers::text::{decimal_string, has_prefix, is_white_space_char, same_text, trim};

#[test]
fn white_space_matches_std_for_every_char() {
    for n in 0u32..0x110000 {
        if let Some(c) = char::from_u32(n) {
            assert_eq!(is_white_space_char(c), c.is_whitespace(), "char {:#x}", n);
        }
    }
}

#[test]
fn trim_matches_std() {
    let cases = [
        "",
        " ",
        "   \t\n ",
        "hello",
        "  hello",
        "hello  ",
        "  hello world  ",
        "\u{3000}wide\u{2003}",
        "\u{a0}x\u{85}",
        " a b c ",
        "\u{200b}zero width\u{200b}",
    ];
    for s in cases {
        assert_eq!(trim(s), s.trim(), "case {:?}", s);
    }
}

#[test]
fn trim_is_idempotent_on_examples() {
    for s in ["  x  ", "\t\ty", "", " "] {
        let once = trim(s);
        assert_eq!(trim(&once), once);
    }
}

#[test]
fn decimal_string_matches_to_string() {
    for n in [0u128, 1, 9, 10, 11, 99, 100, 12345, 90000, u64::MAX as u128, u128::MAX] {
        assert_eq!(decimal_string(n), n.to_string());
    }
}

#[test]
fn prefix_and_equality() {
    assert!(has_prefix("profile:alice", "profile:"));
    assert!(has_prefix("profile:", "profile:"));
    assert!(!has_prefix("profile", "profile:"));
    assert!(!has_prefix("Profile:alice", "profile:"));
    assert!(has_prefix("anything", ""));
    assert!(same_text("auto", "auto"));
    assert!(!same_text("auto", "Auto"));
    assert!(!same_text("auto", "auto "));
}
