use epub_stream_render::page_map::{find_toc_href, ChapterRef, NavPoint, Navigation};
use epub_stream_render::preview::{
    chapter_page_window, chapters_to_render, data_uri, distinct_font_faces, PreviewPlanError, font_face_payload, image_data_uri, toc_chapter_index,
    EmbeddedFontFace, EmbeddedFontStyle, OptionLists,
};
use epub_stream_render::preview_args::{parse_preview_args, FloatArgFacts};
use epub_stream_render::preview_settings::RenderUiSettings;
use epub_stream_render::render_ir::{
    CoverPageMode, DitherMode, FloatSupport, JustificationStrategy, PageChromeTextStyle, SvgMode,
};

#[test]
fn data_uris_use_standard_padded_base64() {
    assert_eq!(data_uri("text/plain", b"Man"), "data:text/plain;base64,TWFu");
    assert_eq!(data_uri("text/plain", b"Ma"), "data:text/plain;base64,TWE=");
    assert_eq!(data_uri("text/plain", b"M"), "data:text/plain;base64,TQ==");
    assert_eq!(data_uri("x/y", b""), "data:x/y;base64,");
    assert_eq!(data_uri("a/b", &[0xfb, 0xff, 0x3e]), "data:a/b;base64,+/8+");
}

#[test]
fn image_payloads_respect_size_limit_and_mime() {
    assert_eq!(
        image_data_uri("img/a.PNG", b"ab", 10),
        Some("data:image/png;base64,YWI=".to_string())
    );
    assert_eq!(
        image_data_uri("img/a.raw", b"ab", 10),
        Some("data:application/octet-stream;base64,YWI=".to_string())
    );
    assert_eq!(image_data_uri("img/a.png", b"abc", 2), None);
}

#[test]
fn font_payloads_take_hint_then_extension() {
    let p = font_face_payload("Lora", 700, EmbeddedFontStyle::Italic, "fonts/lora.ttf", None, b"x", 4)
        .expect("small font");
    assert_eq!(p.family, "Lora");
    assert_eq!(p.weight, 700);
    assert_eq!(p.style, "italic");
    assert_eq!(p.format.as_deref(), Some("truetype"));
    assert_eq!(p.data_uri, "data:font/ttf;base64,eA==");
    let q = font_face_payload("X", 400, EmbeddedFontStyle::Normal, "fonts/x.bin", Some("woff2"), b"x", 4)
        .expect("hinted");
    assert_eq!(q.format.as_deref(), Some("woff2"));
    assert!(q.data_uri.starts_with("data:font/woff2;base64,"));
    let r = font_face_payload("Y", 400, EmbeddedFontStyle::Normal, "fonts/y.bin", None, b"x", 4)
        .expect("unknown type");
    assert_eq!(r.format, None);
    assert!(r.data_uri.starts_with("data:application/octet-stream;base64,"));
    assert!(font_face_payload("Z", 400, EmbeddedFontStyle::Normal, "z.ttf", None, b"12345", 4).is_none());
}

#[test]
fn option_lists_offer_canonical_keywords() {
    let lists = OptionLists::default();
    assert_eq!(lists.cover_page_mode, vec!["contain", "full-bleed", "respect-css"]);
    assert_eq!(lists.render_dither_mode, vec!["none", "ordered", "error-diffusion"]);
    assert_eq!(lists.chrome_text_style.len(), 4);
    assert_eq!(lists.justification_strategy[4], "align-center");
}

fn chapter(index: usize, href: &str) -> ChapterRef {
    ChapterRef { index, idref: String::new(), href: href.to_string(), media_type: String::new() }
}

#[test]
fn toc_chapters_resolve_by_path_then_unique_name() {
    let chapters = vec![
        chapter(0, "OPS/text/a.xhtml"),
        chapter(1, "OPS/text/b.xhtml"),
        chapter(2, "OPS/notes/b.xhtml"),
        chapter(5, "./OPS/text/a.xhtml"),
    ];
    assert_eq!(toc_chapter_index(&chapters, "OPS/text/a.xhtml"), Some(5));
    assert_eq!(toc_chapter_index(&chapters, "OPS/x/../text/b.xhtml"), Some(1));
    assert_eq!(toc_chapter_index(&chapters, "b.xhtml"), None);
    assert_eq!(toc_chapter_index(&chapters, "elsewhere/a.xhtml"), None);
    let single = vec![chapter(3, "OPS/only.xhtml")];
    assert_eq!(toc_chapter_index(&single, "Text/only.xhtml"), Some(3));
}

fn nav(label: &str, href: &str, children: Vec<NavPoint>) -> NavPoint {
    NavPoint { label: label.to_string(), href: href.to_string(), children }
}

#[test]
fn toc_ids_search_depth_first() {
    let toc = Navigation {
        toc: vec![
            nav("Intro", "intro.xhtml", vec![nav("Part", "intro.xhtml#part", vec![])]),
            nav("Part", "later.xhtml", vec![]),
            nav("Notes", "notes.xhtml#", vec![]),
        ],
    };
    assert_eq!(find_toc_href(&toc, "Part"), Some("intro.xhtml#part".to_string()));
    assert_eq!(find_toc_href(&toc, "part"), Some("intro.xhtml#part".to_string()));
    assert_eq!(find_toc_href(&toc, "Intro"), Some("intro.xhtml".to_string()));
    assert_eq!(find_toc_href(&toc, ""), None);
    assert_eq!(find_toc_href(&toc, "missing"), None);
}

#[test]
fn normalized_config_clamps_values() {
    let cfg = RenderUiSettings {
        justify_min_words: 0,
        justify_strategy: "bogus".to_string(),
        object_cover_page_mode: "weird-mode".to_string(),
        style_max_selectors: 0,
        memory_max_pages_in_memory: 0,
        display_width: 10,
        min_line_height_px: 900,
        max_line_height_px: 2,
        ui_font_family: "   ".to_string(),
        ..RenderUiSettings::defaults()
    }
    .normalized();
    assert_eq!(cfg.justify_min_words, 1);
    assert_eq!(cfg.justify_strategy, "adaptive-inter-word");
    assert_eq!(cfg.object_cover_page_mode, "contain");
    assert_eq!(cfg.style_max_selectors, 1);
    assert_eq!(cfg.memory_max_pages_in_memory, 1);
    assert_eq!(cfg.display_width, 64);
    assert_eq!((cfg.min_line_height_px, cfg.max_line_height_px), (4, 512));
    assert_eq!(cfg.ui_font_family, "auto");
    let again = cfg.clone().normalized();
    assert_eq!(again, cfg);
}

#[test]
fn settings_from_command_line() {
    let argv: Vec<String> = ["web-preview", "--width", "700", "--justify-mode", "full", "--cover-page-mode", "fullbleed"]
        .iter()
        .map(|s| s.to_string())
        .collect();
    let facts = vec![FloatArgFacts { parses: false, le_zero: false, in_unit: false, lt_zero: false }; argv.len()];
    let args = parse_preview_args(&argv, &facts).expect("valid");
    assert_eq!(args.justify_strategy, JustificationStrategy::FullInterWord);
    assert_eq!(args.cover_page_mode, CoverPageMode::FullBleed);
    let s = RenderUiSettings::from_preview_args(&args);
    assert_eq!(s.display_width, 700);
    assert_eq!(s.justify_strategy, "full-inter-word");
    assert_eq!(s.object_cover_page_mode, "full-bleed");
    assert_eq!(s.heading_gap_px, 10);
}

#[test]
fn repeated_font_faces_load_once() {
    let face = |family: &str, weight: u16, style: EmbeddedFontStyle, href: &str| EmbeddedFontFace {
        family: family.to_string(),
        weight,
        style,
        href: href.to_string(),
        format: None,
    };
    let faces = vec![
        face("Lora", 400, EmbeddedFontStyle::Normal, "f/lora.ttf"),
        face("Lora", 700, EmbeddedFontStyle::Normal, "f/lora-b.ttf"),
        face("Lora", 400, EmbeddedFontStyle::Normal, "f/lora.ttf"),
        face("Lora", 400, EmbeddedFontStyle::Italic, "f/lora.ttf"),
        face("Lora", 700, EmbeddedFontStyle::Normal, "f/lora-b.ttf"),
    ];
    assert_eq!(distinct_font_faces(&faces), vec![0, 1, 3]);
    assert_eq!(distinct_font_faces(&Vec::new()), Vec::<usize>::new());
}

#[test]
fn engine_settings_parse_panel_keywords() {
    let mut s = RenderUiSettings::defaults();
    let e = s.engine_settings();
    assert_eq!((e.display_width, e.display_height), (900, 1200));
    assert_eq!(e.justify_strategy, JustificationStrategy::AdaptiveInterWord);
    assert_eq!(e.cover_page_mode, CoverPageMode::Contain);
    assert_eq!(e.svg_mode, SvgMode::RasterizeFallback);
    assert_eq!(e.float_support, FloatSupport::NoFloats);
    assert_eq!(e.page_chrome.header_style, PageChromeTextStyle::Bold);
    assert_eq!(e.page_chrome.footer_style, PageChromeTextStyle::Regular);
    assert_eq!(e.render_intent.dither, DitherMode::NoDither);
    assert_eq!(e.widow_orphan_control.min_lines, 2);
    assert_eq!(e.memory_max_pages_in_memory, 128);

    s.object_svg_mode = " Native ".to_string();
    s.page_chrome_header_style = "bold-italic".to_string();
    s.display_width = 0x8000_0000;
    let e = s.engine_settings();
    assert_eq!(e.svg_mode, SvgMode::Native);
    assert_eq!(e.page_chrome.header_style, PageChromeTextStyle::BoldItalic);
    assert_eq!(e.display_width, i32::MIN);
}

#[test]
fn preview_chapter_plan() {
    assert_eq!(chapters_to_render(0, None), Err(PreviewPlanError::NoChapters));
    assert_eq!(chapters_to_render(0, Some(0)), Err(PreviewPlanError::NoChapters));
    assert_eq!(
        chapters_to_render(3, Some(3)),
        Err(PreviewPlanError::ChapterOutOfRange { chapter: 3, chapter_count: 3 })
    );
    assert_eq!(chapters_to_render(3, Some(1)), Ok(vec![1]));
    assert_eq!(chapters_to_render(3, None), Ok(vec![0, 1, 2]));
}

#[test]
fn preview_page_window_clamps_start_and_limit() {
    assert_eq!(chapter_page_window(10, 0, None), (0, 10));
    assert_eq!(chapter_page_window(10, 4, Some(3)), (4, 7));
    assert_eq!(chapter_page_window(10, 8, Some(5)), (8, 10));
    assert_eq!(chapter_page_window(10, 12, Some(5)), (10, 10));
    assert_eq!(chapter_page_window(10, 2, Some(usize::MAX)), (2, 10));
    assert_eq!(chapter_page_window(0, 0, Some(0)), (0, 0));
}

#[test]
fn to_engine_options_maps_extended_render_prep_limits() {
    let mut s = RenderUiSettings::defaults();
    s.display_width = 777;
    s.display_height = 999;
    s.justify_enabled = false;
    s.object_cover_page_mode = "full-bleed".to_string();
    s.style_max_selectors = 123;
    s.style_max_css_bytes = 222_222;
    s.style_max_nesting = 9;
    s.font_limit_max_faces = 7;
    s.font_limit_max_bytes_per_font = 333_333;
    s.font_limit_max_total_font_bytes = 444_444;
    s.memory_max_entry_bytes = 555_555;
    s.memory_max_css_bytes = 666_666;
    s.memory_max_nav_bytes = 777_777;
    s.memory_max_inline_style_bytes = 8_888;
    s.memory_max_pages_in_memory = 11;
    let e = s.engine_settings();
    assert_eq!((e.display_width, e.display_height), (777, 999));
    assert!(!e.justify_enabled);
    assert_eq!(e.cover_page_mode, CoverPageMode::FullBleed);
    assert_eq!((e.style_max_selectors, e.style_max_css_bytes, e.style_max_nesting), (123, 222_222, 9));
    assert_eq!(
        (e.font_limit_max_faces, e.font_limit_max_bytes_per_font, e.font_limit_max_total_font_bytes),
        (7, 333_333, 444_444)
    );
    assert_eq!(
        (
            e.memory_max_entry_bytes,
            e.memory_max_css_bytes,
            e.memory_max_nav_bytes,
            e.memory_max_inline_style_bytes,
            e.memory_max_pages_in_memory
        ),
        (555_555, 666_666, 777_777, 8_888, 11)
    );
}
