use epub_stream_render::hyphenation::{
    ends_with_terminal_punctuation, english_hyphenation_candidates, english_hyphenation_exception,
    split_word_at_char_boundary, strip_soft_hyphens, HyphenationLang,
};
use epub_stream_render::profile::{short_name, Phase};

#[test]
fn hyphenation_language_from_tag() {
    assert_eq!(HyphenationLang::from_tag("en-US"), HyphenationLang::English);
    assert_eq!(HyphenationLang::from_tag("EN"), HyphenationLang::English);
    assert_eq!(HyphenationLang::from_tag("de"), HyphenationLang::Unknown);
    assert_eq!(HyphenationLang::from_tag("e"), HyphenationLang::Unknown);
}

#[test]
fn terminal_punctuation_ignores_trailing_whitespace() {
    assert!(ends_with_terminal_punctuation("The end.  "));
    assert!(ends_with_terminal_punctuation("(aside)"));
    assert!(!ends_with_terminal_punctuation("and so"));
    assert!(!ends_with_terminal_punctuation("   "));
    assert!(!ends_with_terminal_punctuation(""));
}

#[test]
fn word_splits_at_character_boundaries() {
    assert_eq!(split_word_at_char_boundary("naïve", 3), Some(("naï", "ve")));
    assert_eq!(split_word_at_char_boundary("word", 0), None);
    assert_eq!(split_word_at_char_boundary("word", 4), None);
    assert_eq!(split_word_at_char_boundary("word", 9), None);
}

#[test]
fn soft_hyphens_are_removed() {
    assert_eq!(strip_soft_hyphens("hy\u{ad}phen\u{ad}ation"), "hyphenation");
    assert_eq!(strip_soft_hyphens("plain"), "plain");
}

#[test]
fn english_exceptions_are_case_insensitive() {
    assert_eq!(english_hyphenation_exception("Accessibility"), Some(&[3usize, 6, 9][..]));
    assert_eq!(english_hyphenation_exception("language"), Some(&[3usize][..]));
    assert_eq!(english_hyphenation_exception("languages"), None);
}

#[test]
fn english_candidates_are_sorted_and_unique() {
    // exception positions merge with vowel/consonant boundaries
    assert_eq!(english_hyphenation_candidates("accessibility"), vec![3, 4, 6, 7, 8, 9]);
    assert_eq!(english_hyphenation_candidates("short"), Vec::<usize>::new());
    // suffix boundary only
    assert_eq!(english_hyphenation_candidates("walking"), vec![4]);
    assert_eq!(english_hyphenation_candidates("reading"), vec![3, 4]);
    assert_eq!(english_hyphenation_candidates("abcdefg"), Vec::<usize>::new());
    assert_eq!(english_hyphenation_candidates("12345678"), Vec::<usize>::new());
}

#[test]
fn phases_parse_and_name() {
    assert_eq!(Phase::from_str("session-once"), Some(Phase::SessionOnce));
    assert_eq!(Phase::from_str("session_once"), Some(Phase::SessionOnce));
    assert_eq!(Phase::from_str("Render"), None);
    assert_eq!(Phase::SessionOnce.name(), "session_once");
    for p in [
        Phase::Open,
        Phase::Cover,
        Phase::Tokenize,
        Phase::Render,
        Phase::Full,
        Phase::SessionOnce,
        Phase::Session,
    ] {
        assert_eq!(Phase::from_str(p.name()), Some(p));
    }
}

#[test]
fn short_names_follow_file_stem() {
    assert_eq!(short_name("tests/fixtures/pg84-frankenstein.epub"), "pg84-frankenstein");
    assert_eq!(short_name("archive.tar.gz"), "archive.tar");
    assert_eq!(short_name("dir/.hidden"), ".hidden");
    assert_eq!(short_name("dir/name."), "name");
    assert_eq!(short_name("dir/sub/"), "sub");
    assert_eq!(short_name("a/b/."), "b");
    assert_eq!(short_name("a/.."), "unknown");
    assert_eq!(short_name("/"), "unknown");
    assert_eq!(short_name(""), "unknown");
    let p = std::path::Path::new("x/y/book.v2.epub");
    assert_eq!(short_name("x/y/book.v2.epub"), p.file_stem().unwrap().to_string_lossy());
}
