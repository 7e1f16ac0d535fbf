use epub_stream_render::preview_args::{FloatArgFacts, TextSetting};
use epub_stream_render::render_ir::CoverPageMode;
use epub_stream_render::visualize::{
    is_previous_output, parse_cover_page_mode_strict, parse_visualize_args, snapshot_file_name,
    visualize_flag_of, BitmapDisplay, VisualizeArgsError, VisualizeFlag,
};

fn argv(items: &[&str]) -> Vec<String> {
    items.iter().map(|s| s.to_string()).collect()
}

fn facts(args: &[String]) -> Vec<FloatArgFacts> {
    args.iter()
        .map(|a| match a.parse::<f32>() {
            Ok(v) => FloatArgFacts {
                parses: true,
                le_zero: v <= 0.0,
                in_unit: (0.0..=1.0).contains(&v),
                lt_zero: v < 0.0,
            },
            Err(_) => FloatArgFacts { parses: false, le_zero: false, in_unit: false, lt_zero: false },
        })
        .collect()
}

fn parse(items: &[&str]) -> Result<epub_stream_render::visualize::VisualizeArgs, VisualizeArgsError> {
    let args = argv(items);
    let f = facts(&args);
    parse_visualize_args(&args, &f)
}

#[test]
fn snapshot_args_defaults() {
    let a = parse(&["visualize"]).expect("defaults");
    assert_eq!(a.epub_path, TextSetting::Default);
    assert_eq!(a.chapter, 5);
    assert_eq!(a.pages, 12);
    assert_eq!((a.width, a.height), (480, 800));
    assert!(!a.justify);
    assert_eq!((a.margin_left, a.margin_right, a.margin_top, a.margin_bottom), (10, 10, 8, 24));
    assert_eq!(a.cover_page_mode, CoverPageMode::Contain);
    assert!(a.widow_orphan && a.hanging_punctuation);
    assert_eq!(a.widow_orphan_min_lines, 2);
}

#[test]
fn snapshot_args_read_options() {
    let a = parse(&[
        "visualize", "book.epub", "--chapter", "2", "--pages", "3", "--justify", "--font-size",
        "18.5", "--margin-left", "-4", "--cover-page-mode", " Full_Bleed ", "--no-widow-orphan",
        "--widow-orphan-min-lines", "3", "--out", "snaps",
    ])
    .expect("valid");
    assert_eq!(a.epub_path, TextSetting::Arg(1));
    assert_eq!(a.chapter, 2);
    assert_eq!(a.pages, 3);
    assert!(a.justify);
    assert_eq!(a.font_size, TextSetting::Arg(8));
    assert_eq!(a.margin_left, -4);
    assert_eq!(a.cover_page_mode, CoverPageMode::FullBleed);
    assert!(!a.widow_orphan);
    assert_eq!(a.widow_orphan_min_lines, 3);
    assert_eq!(a.out_dir, TextSetting::Arg(17));
}

#[test]
fn snapshot_args_errors() {
    assert_eq!(parse(&["v", "--help"]), Err(VisualizeArgsError::HelpRequested));
    assert_eq!(parse(&["v", "--chapter"]), Err(VisualizeArgsError::MissingValue(1)));
    assert_eq!(parse(&["v", "--chapter", "x"]), Err(VisualizeArgsError::InvalidValue(1)));
    assert_eq!(parse(&["v", "--bogus"]), Err(VisualizeArgsError::UnknownOption(1)));
    assert_eq!(
        parse(&["v", "--cover-page-mode", "stretch"]),
        Err(VisualizeArgsError::InvalidValue(1))
    );
    assert_eq!(parse(&["v", "--pages", "0"]), Err(VisualizeArgsError::ZeroPages));
    assert_eq!(parse(&["v", "--width", "0"]), Err(VisualizeArgsError::ZeroDimensions));
    assert_eq!(parse(&["v", "--font-size", "0"]), Err(VisualizeArgsError::FontSizeNotPositive));
    assert_eq!(
        parse(&["v", "--justify-min-fill", "1.5"]),
        Err(VisualizeArgsError::FillRatioOutOfRange)
    );
    assert_eq!(parse(&["v", "--widow-orphan-min-lines", "300"]), Err(VisualizeArgsError::InvalidValue(1)));
}

#[test]
fn strict_cover_modes() {
    assert_eq!(parse_cover_page_mode_strict("contain"), Some(CoverPageMode::Contain));
    assert_eq!(parse_cover_page_mode_strict("CSS"), Some(CoverPageMode::RespectCss));
    assert_eq!(parse_cover_page_mode_strict("fullbleed"), Some(CoverPageMode::FullBleed));
    assert_eq!(parse_cover_page_mode_strict("auto"), None);
}

#[test]
fn bitmap_sets_pixels_inside_and_encodes_pgm() {
    let mut d = BitmapDisplay::new(3, 2);
    d.set_pixel(1, 1, true);
    d.set_pixel(-1, 0, true);
    d.set_pixel(3, 0, true);
    d.set_pixel(0, 2, true);
    assert_eq!(d.pixel(4), Some(true));
    assert_eq!(d.pixel(0), Some(false));
    assert_eq!(d.pixel(6), None);
    let mut expected = b"P5\n3 2\n255\n".to_vec();
    expected.extend_from_slice(&[255, 255, 255, 255, 0, 255]);
    assert_eq!(d.pgm_bytes(), expected);
    d.clear(true);
    assert!(d.pgm_bytes()[11..].iter().all(|b| *b == 0));
    assert_eq!(d.size(), (3, 2));
}

#[test]
fn previous_outputs_and_file_names() {
    assert!(is_previous_output("chapter_001_page_0001.pgm"));
    assert!(is_previous_output("chapter_x.png"));
    assert!(is_previous_output("manifest.tsv"));
    assert!(!is_previous_output("chapter_notes.txt"));
    assert!(!is_previous_output("page.pgm"));
    assert_eq!(snapshot_file_name(0, 0), "chapter_001_page_0001.pgm");
    assert_eq!(snapshot_file_name(5, 11), "chapter_006_page_0012.pgm");
    assert_eq!(snapshot_file_name(1233, 99999), "chapter_1234_page_100000.pgm");
}

#[test]
fn snapshot_flags_are_named_exactly() {
    assert_eq!(visualize_flag_of("--pages"), VisualizeFlag::Pages);
    assert_eq!(visualize_flag_of("--no-hanging-punctuation"), VisualizeFlag::NoHangingPunctuation);
    assert_eq!(visualize_flag_of("--serve"), VisualizeFlag::Unknown);
    assert_eq!(visualize_flag_of("--PAGES"), VisualizeFlag::Unknown);
}
