use epub_stream_render::paths::normalize_rel_path;
use epub_stream_render::preview::{
    block_role_to_string, build_chapter_title_lookup, cover_page_mode_to_string,
    embedded_style_to_css, font_format_from_path, font_mime_type, justification_strategy_to_string,
    justify_mode_to_payload, mime_from_path, page_chrome_kind_to_string, parse_chrome_text_style,
    parse_cover_page_mode, parse_dither_mode, parse_float_support, parse_grayscale_mode,
    parse_hyphenation_mode, parse_justification_strategy, parse_soft_hyphen_policy,
    parse_svg_mode, split_href_fragment, EmbeddedFontStyle, TocEntryPayload,
};
use epub_stream_render::render_ir::{
    BlockRole, CoverPageMode, DitherMode, FloatSupport, GrayscaleMode, HyphenationMode,
    JustificationStrategy, JustifyMode, PageChromeKind, PageChromeTextStyle, SoftHyphenPolicy,
    SvgMode,
};

#[test]
fn normalize_rel_path_collapses_dot_segments() {
    assert_eq!(
        normalize_rel_path("./OPS/../OPS/text/./ch1.xhtml"),
        "OPS/text/ch1.xhtml"
    );
}

#[test]
fn split_href_fragment_returns_fragment() {
    let (base, fragment) = split_href_fragment("text/ch1.xhtml#intro");
    assert_eq!(base, "text/ch1.xhtml");
    assert_eq!(fragment.as_deref(), Some("intro"));
}

#[test]
fn mime_from_path_detects_svg() {
    assert_eq!(mime_from_path("images/figure.svg"), Some("image/svg+xml"));
}

#[test]
fn font_mime_type_prefers_format_hint() {
    assert_eq!(
        font_mime_type(Some("woff2"), "fonts/book.ttf"),
        Some("font/woff2")
    );
}

#[test]
fn preview_split_keeps_empty_fragment_and_plain_hrefs() {
    let (base, fragment) = split_href_fragment("text/ch2.xhtml#");
    assert_eq!(base, "text/ch2.xhtml");
    assert_eq!(fragment.as_deref(), Some(""));
    let (base, fragment) = split_href_fragment("text/ch3.xhtml");
    assert_eq!(base, "text/ch3.xhtml");
    assert_eq!(fragment, None);
    let (base, fragment) = split_href_fragment("a#b#c");
    assert_eq!(base, "a");
    assert_eq!(fragment.as_deref(), Some("b#c"));
}

#[test]
fn mime_from_path_is_case_insensitive_and_ignores_query_and_fragment() {
    assert_eq!(mime_from_path("images/Photo.JPEG?x=1#top"), Some("image/jpeg"));
    assert_eq!(mime_from_path("images/a.png"), Some("image/png"));
    assert_eq!(mime_from_path("images/a.avif"), Some("image/avif"));
    assert_eq!(mime_from_path("images/a.tiff"), None);
    assert_eq!(mime_from_path("images/noext"), None);
}

#[test]
fn font_format_and_mime_fall_back_to_extension() {
    assert_eq!(font_format_from_path("fonts/a.TTF"), Some("truetype"));
    assert_eq!(font_format_from_path("fonts/a.otf"), Some("opentype"));
    assert_eq!(font_format_from_path("fonts/a.woff2"), Some("woff2"));
    assert_eq!(font_format_from_path("fonts/a.eot"), None);
    assert_eq!(font_mime_type(None, "fonts/a.otf"), Some("font/otf"));
    assert_eq!(font_mime_type(Some("  OpenType "), "fonts/a.ttf"), Some("font/otf"));
    assert_eq!(font_mime_type(Some("truetype"), "fonts/a.woff"), Some("font/ttf"));
    assert_eq!(font_mime_type(Some("svg"), "fonts/a.woff"), Some("font/woff"));
    assert_eq!(font_mime_type(Some("svg"), "fonts/a.eot"), None);
    assert_eq!(font_mime_type(Some("x-woff-ish"), "fonts/a.ttf"), Some("font/woff"));
}

#[test]
fn option_keywords_parse_with_trim_and_case_folding() {
    assert_eq!(parse_soft_hyphen_policy("  IGNORE "), SoftHyphenPolicy::Ignore);
    assert_eq!(parse_soft_hyphen_policy("other"), SoftHyphenPolicy::Discretionary);
    assert_eq!(parse_hyphenation_mode("ignore"), HyphenationMode::Ignore);
    assert_eq!(parse_hyphenation_mode(""), HyphenationMode::Discretionary);
    assert_eq!(parse_cover_page_mode("Full_Bleed"), CoverPageMode::FullBleed);
    assert_eq!(parse_cover_page_mode("css"), CoverPageMode::RespectCss);
    assert_eq!(parse_cover_page_mode("anything"), CoverPageMode::Contain);
    assert_eq!(parse_float_support("basic"), FloatSupport::Basic);
    assert_eq!(parse_float_support("none"), FloatSupport::NoFloats);
    assert_eq!(parse_svg_mode("native"), SvgMode::Native);
    assert_eq!(parse_svg_mode("ignore"), SvgMode::Ignore);
    assert_eq!(parse_svg_mode("x"), SvgMode::RasterizeFallback);
    assert_eq!(parse_grayscale_mode("Luminosity"), GrayscaleMode::Luminosity);
    assert_eq!(parse_grayscale_mode("off"), GrayscaleMode::Off);
    assert_eq!(parse_dither_mode("ordered"), DitherMode::Ordered);
    assert_eq!(parse_dither_mode("error-diffusion"), DitherMode::ErrorDiffusion);
    assert_eq!(parse_dither_mode("none"), DitherMode::NoDither);
    assert_eq!(parse_chrome_text_style("bold-italic"), PageChromeTextStyle::BoldItalic);
    assert_eq!(parse_chrome_text_style("ITALIC"), PageChromeTextStyle::Italic);
    assert_eq!(parse_chrome_text_style("heavy"), PageChromeTextStyle::Regular);
    assert_eq!(parse_justification_strategy("centre"), JustificationStrategy::AlignCenter);
    assert_eq!(parse_justification_strategy(" Right"), JustificationStrategy::AlignRight);
    assert_eq!(parse_justification_strategy("left"), JustificationStrategy::AlignLeft);
    assert_eq!(parse_justification_strategy("full"), JustificationStrategy::FullInterWord);
    assert_eq!(
        parse_justification_strategy("unknown"),
        JustificationStrategy::AdaptiveInterWord
    );
}

#[test]
fn canonical_keywords_parse_back() {
    for mode in [CoverPageMode::Contain, CoverPageMode::FullBleed, CoverPageMode::RespectCss] {
        assert_eq!(parse_cover_page_mode(cover_page_mode_to_string(mode)), mode);
    }
    for s in [
        JustificationStrategy::AdaptiveInterWord,
        JustificationStrategy::FullInterWord,
        JustificationStrategy::AlignLeft,
        JustificationStrategy::AlignRight,
        JustificationStrategy::AlignCenter,
    ] {
        assert_eq!(parse_justification_strategy(justification_strategy_to_string(s)), s);
    }
    assert_eq!(cover_page_mode_to_string(CoverPageMode::FullBleed), "full-bleed");
    assert_eq!(
        justification_strategy_to_string(JustificationStrategy::AdaptiveInterWord),
        "adaptive-inter-word"
    );
}

#[test]
fn payload_labels() {
    assert_eq!(page_chrome_kind_to_string(PageChromeKind::Header), "header");
    assert_eq!(page_chrome_kind_to_string(PageChromeKind::Progress), "progress");
    assert_eq!(block_role_to_string(BlockRole::Heading(2)), "heading-2");
    assert_eq!(block_role_to_string(BlockRole::Heading(12)), "heading-12");
    assert_eq!(block_role_to_string(BlockRole::ListItem), "list-item");
    assert_eq!(block_role_to_string(BlockRole::FigureCaption), "figure-caption");
    assert_eq!(block_role_to_string(BlockRole::Preformatted), "preformatted");
    assert_eq!(embedded_style_to_css(EmbeddedFontStyle::Oblique), "oblique");
    let p = justify_mode_to_payload(JustifyMode::InterWord { extra_px_total: 7 });
    assert_eq!(p.mode, "inter-word");
    assert_eq!(p.extra_px_total, Some(7));
    assert_eq!(p.offset_px, None);
    let p = justify_mode_to_payload(JustifyMode::AlignCenter { offset_px: 3 });
    assert_eq!(p.mode, "align-center");
    assert_eq!(p.extra_px_total, None);
    assert_eq!(p.offset_px, Some(3));
    let p = justify_mode_to_payload(JustifyMode::NoJustify);
    assert_eq!(p.mode, "none");
}

fn toc(label: &str, depth: usize, chapter: Option<usize>) -> TocEntryPayload {
    TocEntryPayload {
        label: label.to_string(),
        href: String::new(),
        depth,
        target_chapter: chapter,
        target_page_global: None,
        fragment: None,
    }
}

#[test]
fn chapter_titles_prefer_shallow_then_short_labels() {
    let entries = vec![
        toc("Letter 1 — a long label", 1, Some(0)),
        toc("  Letter 1  ", 1, Some(0)),
        toc("Volume I", 0, Some(0)),
        toc("   ", 0, Some(1)),
        toc("Chapter 2", 2, Some(1)),
        toc("Beyond", 0, Some(9)),
        toc("Chapter 3", 1, Some(2)),
        toc("Chapter 3 again", 1, Some(2)),
        toc("Ch. 3", 1, Some(2)),
        toc("Ch. X", 1, Some(2)),
    ];
    let titles = build_chapter_title_lookup(&entries, 4);
    assert_eq!(
        titles,
        vec![
            Some("Volume I".to_string()),
            Some("Chapter 2".to_string()),
            Some("Ch. 3".to_string()),
            None
        ]
    );
}
