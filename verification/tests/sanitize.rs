use journal_ai::providers::sanitize_title;

#[test]
fn test_sanitize_title_basic() {
    assert_eq!(sanitize_title("Hello World"), "hello-world.md");
}

#[test]
fn test_sanitize_title_with_punctuation() {
    assert_eq!(sanitize_title("test: file/name"), "test-file-name.md");
}

#[test]
fn test_sanitize_title_multiple_hyphens() {
    assert_eq!(sanitize_title("my---daily---notes"), "my-daily-notes.md");
}

#[test]
fn test_sanitize_title_trailing_hyphen() {
    assert_eq!(sanitize_title("trailing?"), "trailing.md");
}

#[test]
fn test_sanitize_title_already_has_md() {
    assert_eq!(sanitize_title("already.md"), "already.md");
}

#[test]
fn test_sanitize_title_mixed_case() {
    assert_eq!(sanitize_title("Meeting With TEAM"), "meeting-with-team.md");
}

#[test]
fn test_sanitize_title_empty_input() {
    assert_eq!(sanitize_title(""), ".md");
}

#[test]
fn test_sanitize_title_idempotent_on_messy_input() {
    let once = sanitize_title("  A*very? Messy/TITLE--- ");
    let twice = sanitize_title(&once);
    assert_eq!(once, twice);
    let once = sanitize_title("\tTabs\tand Quotes\"'\t");
    let twice = sanitize_title(&once);
    assert_eq!(once, twice);
}

#[test]
fn test_sanitize_title_always_ends_with_extension() {
    for raw in ["", "?", "----", "a b c", "x.MD", "note.md", "\u{00A0}pad\u{00A0}"] {
        let s = sanitize_title(raw);
        assert!(s.ends_with(".md"), "{raw:?} gave {s:?}");
        for forbidden in [' ', '/', '\\', ':', '?', '*', '"', '\'', '<', '>', '|'] {
            assert!(!s.contains(forbidden), "{raw:?} gave {s:?}");
        }
    }
}

#[test]
fn test_sanitize_title_unicode_whitespace_trimmed() {
    assert_eq!(sanitize_title("\u{2003}notes\u{2003}"), "notes.md");
}

#[test]
fn test_sanitize_title_unicode_case_folded() {
    assert_eq!(sanitize_title("Crème BRÛLÉE"), "crème-brûlée.md");
    assert_eq!(sanitize_title("ÜBER Straße"), "über-straße.md");
}

#[test]
fn test_sanitize_title_idempotent_on_unicode_input() {
    let once = sanitize_title("Crème BRÛLÉE");
    assert_eq!(sanitize_title(&once), once);
}
