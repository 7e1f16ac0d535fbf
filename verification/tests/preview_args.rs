use epub_stream_render::preview_args::{
    flag_kind_of, parse_i32_exec, parse_preview_args, parse_unsigned_exec, ArgsError,
    CountFlag, FlagKind, FloatArgFacts, TextSetting,
};
use epub_stream_render::render_ir::{CoverPageMode, JustificationStrategy};

fn args(list: &[&str]) -> Vec<String> {
    list.iter().map(|s| s.to_string()).collect()
}

fn facts_for(list: &[String]) -> Vec<FloatArgFacts> {
    list.iter()
        .map(|s| match s.parse::<f32>() {
            Ok(v) => FloatArgFacts {
                parses: true,
                le_zero: v <= 0.0,
                in_unit: (0.0..=1.0).contains(&v),
                lt_zero: v < 0.0,
            },
            Err(_) => FloatArgFacts { parses: false, le_zero: false, in_unit: false, lt_zero: false },
        })
        .collect()
}

fn parse(list: &[&str]) -> Result<epub_stream_render::preview_args::PreviewArgs, ArgsError> {
    let a = args(list);
    let f = facts_for(&a);
    parse_preview_args(&a, &f)
}

#[test]
fn defaults_without_options() {
    let a = parse(&["web-preview"]).expect("defaults");
    assert_eq!(a.epub_path, TextSetting::Default);
    assert_eq!(a.out_path, TextSetting::Default);
    assert_eq!(a.port, 42817);
    assert_eq!(a.display_width, 900);
    assert_eq!(a.display_height, 1200);
    assert_eq!(a.margin_bottom, 30);
    assert_eq!(a.justify_min_words, 6);
    assert_eq!(a.max_font_bytes, 24 * 1024 * 1024);
    assert_eq!(a.justify_strategy, JustificationStrategy::AdaptiveInterWord);
    assert_eq!(a.cover_page_mode, CoverPageMode::Contain);
    assert!(a.justify_enabled && a.widow_orphan_enabled && a.hanging_punctuation_enabled);
    assert!(!a.serve && !a.open_browser);
}

#[test]
fn positional_path_and_options() {
    let a = parse(&[
        "web-preview", "book.epub", "--serve", "--port", "8080", "--chapter", "3", "--width",
        "640", "--margin-left", "-4", "--justify-mode", " CENTER ", "--cover-page-mode",
        "css", "--font-size", "18.5", "--no-justify", "--widow-orphan-min-lines", "+3",
    ])
    .expect("valid");
    assert_eq!(a.epub_path, TextSetting::Arg(1));
    assert!(a.serve);
    assert_eq!(a.port, 8080);
    assert_eq!(a.chapter, Some(3));
    assert_eq!(a.display_width, 640);
    assert_eq!(a.margin_left, -4);
    assert_eq!(a.justify_strategy, JustificationStrategy::AlignCenter);
    assert_eq!(a.cover_page_mode, CoverPageMode::RespectCss);
    assert_eq!(a.font_size, TextSetting::Arg(16));
    assert!(!a.justify_enabled);
    assert_eq!(a.widow_orphan_min_lines, 3);
}

#[test]
fn help_and_option_errors() {
    assert_eq!(parse(&["web-preview", "--help"]), Err(ArgsError::HelpRequested));
    assert_eq!(parse(&["web-preview", "-h", "--bogus"]), Err(ArgsError::HelpRequested));
    assert_eq!(parse(&["web-preview", "--out"]), Err(ArgsError::MissingValue(1)));
    assert_eq!(parse(&["web-preview", "--port", "70000"]), Err(ArgsError::InvalidValue(1)));
    assert_eq!(parse(&["web-preview", "x.epub", "--bogus"]), Err(ArgsError::UnknownOption(2)));
    assert_eq!(parse(&["web-preview", "--width", "-1"]), Err(ArgsError::InvalidValue(1)));
    assert_eq!(
        parse(&["web-preview", "--font-size", "big", "--width", "x"]),
        Err(ArgsError::InvalidValue(1))
    );
    assert_eq!(
        parse(&["web-preview", "--widow-orphan-min-lines", "256"]),
        Err(ArgsError::InvalidValue(1))
    );
}

#[test]
fn validation_runs_in_order_after_options() {
    assert_eq!(
        parse(&["web-preview", "--width", "0", "--font-size", "-1"]),
        Err(ArgsError::ZeroDimensions)
    );
    assert_eq!(
        parse(&["web-preview", "--font-size", "0", "--justify-min-words", "0"]),
        Err(ArgsError::FontSizeNotPositive)
    );
    assert_eq!(
        parse(&["web-preview", "--justify-min-words", "0"]),
        Err(ArgsError::ZeroJustifyMinWords)
    );
    assert_eq!(
        parse(&["web-preview", "--justify-min-fill", "1.5"]),
        Err(ArgsError::FillRatioOutOfRange)
    );
    assert_eq!(
        parse(&["web-preview", "--justify-max-space-stretch", "-0.5"]),
        Err(ArgsError::NegativeStretch)
    );
}

#[test]
fn integer_parsing_matches_str_parse() {
    assert_eq!(parse_unsigned_exec("42", 255), Some(42));
    assert_eq!(parse_unsigned_exec("+7", 255), Some(7));
    assert_eq!(parse_unsigned_exec("256", 255), None);
    assert_eq!(parse_unsigned_exec("", 255), None);
    assert_eq!(parse_unsigned_exec("+", 255), None);
    assert_eq!(parse_unsigned_exec("-0", 255), None);
    assert_eq!(parse_unsigned_exec("1 ", 255), None);
    assert_eq!(parse_unsigned_exec("18446744073709551615", u64::MAX), Some(u64::MAX));
    assert_eq!(parse_unsigned_exec("18446744073709551616", u64::MAX), None);
    assert_eq!(parse_i32_exec("-2147483648"), Some(i32::MIN));
    assert_eq!(parse_i32_exec("2147483647"), Some(i32::MAX));
    assert_eq!(parse_i32_exec("2147483648"), None);
    assert_eq!(parse_i32_exec("-"), None);
    assert_eq!(parse_i32_exec("+12"), Some(12));
    for s in ["0", "17", "-5", "abc", "99999999999", "+3"] {
        assert_eq!(parse_i32_exec(s), s.parse::<i32>().ok());
    }
}

#[test]
fn flag_names() {
    assert_eq!(flag_kind_of("--pages"), FlagKind::Count(CountFlag::Pages));
    assert_eq!(flag_kind_of("--pagez"), FlagKind::Unknown);
}
