use opencami::resolver::{override_counts, pick, resolve, FALLBACK_URL};
use opencami::text::{is_blank, text_eq};

#[test]
fn override_wins_over_build_default() {
    assert_eq!(
        resolve(Some("https://override.test"), Some("https://example.test")),
        "https://override.test"
    );
}

#[test]
fn override_wins_over_fallback() {
    assert_eq!(resolve(Some("https://override.test"), None), "https://override.test");
}

#[test]
fn override_is_returned_untrimmed() {
    assert_eq!(
        resolve(Some("  https://override.test \n"), Some("https://example.test")),
        "  https://override.test \n"
    );
}

#[test]
fn unset_override_gives_build_default() {
    assert_eq!(resolve(None, Some("https://example.test")), "https://example.test");
}

#[test]
fn empty_override_gives_build_default() {
    assert_eq!(resolve(Some(""), Some("https://example.test")), "https://example.test");
}

#[test]
fn blank_override_gives_build_default() {
    assert_eq!(resolve(Some("   "), Some("https://example.test")), "https://example.test");
    assert_eq!(resolve(Some("\t\r\n"), Some("https://example.test")), "https://example.test");
    assert_eq!(
        resolve(Some("\u{a0}\u{2003}\u{3000}"), Some("https://example.test")),
        "https://example.test"
    );
}

#[test]
fn nothing_set_gives_fallback() {
    assert_eq!(resolve(None, None), "http://localhost:3003");
    assert_eq!(resolve(None, None), FALLBACK_URL);
}

#[test]
fn blank_override_without_build_default_gives_fallback() {
    assert_eq!(resolve(Some(" \t "), None), "http://localhost:3003");
    assert_eq!(resolve(Some(""), None), "http://localhost:3003");
}

#[test]
fn build_default_is_returned_as_it_is() {
    assert_eq!(resolve(None, Some("")), "");
    assert_eq!(resolve(Some(" "), Some("  ")), "  ");
}

#[test]
fn fallback_is_not_blank() {
    assert!(!is_blank(FALLBACK_URL));
    assert!(!is_blank(&resolve(None, None)));
}

#[test]
fn override_counts_when_set_and_not_blank() {
    assert!(override_counts(Some("https://override.test")));
    assert!(override_counts(Some(" x ")));
    assert!(!override_counts(Some("")));
    assert!(!override_counts(Some(" \n")));
    assert!(!override_counts(None));
}

#[test]
fn pick_follows_the_order_of_sources() {
    assert_eq!(pick(Some("a"), true, Some("b")), "a");
    assert_eq!(pick(Some("a"), false, Some("b")), "b");
    assert_eq!(pick(Some("a"), false, None), "http://localhost:3003");
    assert_eq!(pick(None, true, Some("b")), "b");
    assert_eq!(pick(None, true, None), "http://localhost:3003");
    assert_eq!(pick(None, false, None), "http://localhost:3003");
}

#[test]
fn blank_means_white_space_only() {
    assert!(is_blank(""));
    assert!(is_blank(" "));
    assert!(is_blank(" \t\r\n\u{b}\u{c}"));
    assert!(is_blank("\u{85}\u{a0}\u{1680}\u{2000}\u{200a}\u{2028}\u{2029}\u{202f}\u{205f}\u{3000}"));
    assert!(!is_blank("a"));
    assert!(!is_blank("  a  "));
    assert!(!is_blank(" . "));
    assert!(!is_blank("\u{200b}"));
    assert!(!is_blank("\u{feff}"));
}

#[test]
fn white_space_around_a_letter_is_not_blank() {
    assert!(!is_blank(" x "));
    assert!(!is_blank("\tx"));
    assert!(!is_blank("x\n"));
    assert!(is_blank(" \u{2003} "));
}

#[test]
fn text_eq_compares_by_characters() {
    assert!(text_eq("", ""));
    assert!(text_eq("main", "main"));
    assert!(!text_eq("main", "Main"));
    assert!(!text_eq("main", "main "));
    assert!(!text_eq("main", "mai"));
    assert!(!text_eq("", "a"));
    assert!(text_eq("window-é漢", "window-é漢"));
    assert!(!text_eq("window-é", "window-e"));
    assert!(!text_eq("é", "e\u{301}"));
}
