use texhub::file_name_validator::{is_allowed_char, validate_file_name, MAX_FILE_NAME_LENGTH};
use texhub::text::trim_white_space;

#[test]
fn accepts_plain_name_and_trims_it() {
    assert_eq!(validate_file_name("  main.tex \t").unwrap(), "main.tex");
    assert_eq!(validate_file_name("chapter_1-intro.tex").unwrap(), "chapter_1-intro.tex");
}

#[test]
fn accepts_cjk_name() {
    assert_eq!(validate_file_name("论文.tex").unwrap(), "论文.tex");
}

#[test]
fn rejects_empty_name() {
    let e = validate_file_name("").unwrap_err();
    assert_eq!(e.code, "INVALID_FILE_NAME");
    assert_eq!(e.message, "file/folder name is empty");
    let e = validate_file_name(" \u{3000}\n ").unwrap_err();
    assert_eq!(e.code, "INVALID_FILE_NAME");
}

#[test]
fn rejects_reserved_names() {
    for raw in [".", "..", " .. "] {
        let e = validate_file_name(raw).unwrap_err();
        assert_eq!(e.code, "INVALID_FILE_NAME_RESERVED");
        assert_eq!(e.message, "file/folder name cannot be . or ..");
    }
    assert_eq!(validate_file_name("...").unwrap(), "...");
}

#[test]
fn rejects_long_names() {
    let ok = "a".repeat(MAX_FILE_NAME_LENGTH);
    assert_eq!(validate_file_name(&ok).unwrap(), ok);
    let long = "a".repeat(MAX_FILE_NAME_LENGTH + 1);
    let e = validate_file_name(&long).unwrap_err();
    assert_eq!(e.code, "INVALID_FILE_NAME_LENGTH");
    assert_eq!(e.message, "file/folder name exceeds 255 characters");
    // counted in characters, not bytes
    let cjk = "文".repeat(MAX_FILE_NAME_LENGTH);
    assert!(validate_file_name(&cjk).is_ok());
}

#[test]
fn rejects_invalid_characters() {
    for raw in ["a b.tex", "a/b", "x$", "tab\tinside", "é.tex"] {
        let e = validate_file_name(raw).unwrap_err();
        assert_eq!(e.code, "INVALID_FILE_NAME_CHARS");
        assert_eq!(e.message, "file/folder name contains invalid characters");
    }
}

#[test]
fn allowed_char_ranges() {
    assert!(is_allowed_char('a') && is_allowed_char('Z') && is_allowed_char('7'));
    assert!(is_allowed_char('_') && is_allowed_char('-') && is_allowed_char('.'));
    assert!(is_allowed_char('\u{4e00}') && is_allowed_char('\u{9fff}'));
    assert!(!is_allowed_char('\u{4dff}') && !is_allowed_char('\u{a000}'));
    assert!(!is_allowed_char(' ') && !is_allowed_char('/'));
}

#[test]
fn validation_is_idempotent_on_accepted_names() {
    for raw in ["  a.tex ", "\u{2003}x\u{85}", "中.bib"] {
        let once = validate_file_name(raw).unwrap();
        assert_eq!(validate_file_name(&once).unwrap(), once);
    }
}

#[test]
fn trim_matches_std_trim() {
    let samples = [
        "", " ", "  a ", "\t\n\u{0b}\u{0c}\rx\r", "\u{85}\u{a0}y\u{1680}", "\u{2000}\u{200a}z\u{2028}\u{2029}",
        "\u{202f}\u{205f}\u{3000}w\u{3000}", "a b", "\u{200b}zero-width\u{200b}",
    ];
    for s in samples {
        assert_eq!(trim_white_space(s), s.trim());
    }
}
