use gh_notifier::trim;

#[test]
fn trim_drops_white_space_at_both_ends() {
    assert_eq!(trim("  a b \n"), "a b");
    assert_eq!(trim("\t\r\n\u{0B}\u{0C}x"), "x");
    assert_eq!(trim("\u{A0}\u{2003}x\u{3000}\u{2029}"), "x");
    assert_eq!(trim("   "), "");
    assert_eq!(trim(""), "");
    assert_eq!(trim("x\u{200B}"), "x\u{200B}");
}

#[test]
fn trim_agrees_with_std() {
    for s in [" \u{85}é\u{1680}", "\u{202F}\u{205F}2024\u{2028}", "a", " \u{200A}", "\u{2000}b c\u{180E}"] {
        assert_eq!(trim(s), s.trim());
    }
}
