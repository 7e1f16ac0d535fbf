use epub_stream_render::engine::{
    cancellation_outcome, check_cancelled, collected_pages_outcome, forced_family_setting,
    forced_font_family, fragment_anchor_offset, keeps_next_page, normalize_page_range,
    page_range_is_empty, NeverCancel, RenderConfig, RenderDiagnostic, RenderEngineError,
    page_in_range, profile_hex, CappedWriter, FileRenderCacheStore,
    DEFAULT_MAX_CACHE_FILE_BYTES,
};
use epub_stream_render::page_map::{ChapterRef, RenderBookPageMap, RenderLocatorTargetKind};
use epub_stream_render::paths::{basename_of, extension_of, find_bytes, find_header_end};
use epub_stream_render::persisted::{
    PersistedBlockRole, PersistedJustifyMode, PersistedOverlaySlot, PersistedPageAnnotation,
    PersistedPageChromeKind,
};
use epub_stream_render::render_ir::{
    BlockRole, JustifyMode, OverlayRect, OverlaySlot, PageAnnotation, PageAnnotationKind,
    PageChromeConfig, PageChromeKind, PaginationProfileId, page_chrome_markers,
};

#[test]
fn page_annotation_kind_maps_known_tags() {
    assert_eq!(PageAnnotationKind::from("note"), PageAnnotationKind::Note);
    assert_eq!(
        PageAnnotationKind::from("inline_image_src"),
        PageAnnotationKind::InlineImageSrc
    );
    assert_eq!(String::from(PageAnnotationKind::Note), "note");
    assert_eq!(
        String::from(PageAnnotationKind::InlineImageSrc),
        "inline_image_src"
    );
}

#[test]
fn page_annotation_kind_preserves_unknown_tags() {
    let kind = PageAnnotationKind::from("custom_annotation");
    assert_eq!(
        kind,
        PageAnnotationKind::Unknown("custom_annotation".to_string())
    );
    assert_eq!(kind.as_str(), "custom_annotation");
    assert_eq!(kind, "custom_annotation");
    assert_eq!(kind.to_string(), "custom_annotation");
    assert_eq!(String::from(&kind), "custom_annotation".to_string());
}

fn chapter(index: usize, href: &str) -> ChapterRef {
    ChapterRef {
        index,
        idref: format!("c{}", index),
        href: href.to_string(),
        media_type: "application/xhtml+xml".to_string(),
    }
}

fn sample_map() -> RenderBookPageMap {
    let chapters = vec![
        chapter(0, "OPS/cover.xhtml"),
        chapter(1, "OPS/text/ch1.xhtml"),
        chapter(2, "OPS/text/ch2.xhtml"),
        chapter(3, "OPS/notes/ch2.xhtml"),
    ];
    RenderBookPageMap::from_chapter_page_counts(&chapters, &[1, 3, 0, 2])
}

#[test]
fn page_map_accumulates_first_pages_and_total() {
    let map = sample_map();
    let firsts: Vec<usize> = map.entries().iter().map(|e| e.first_page_index).collect();
    assert_eq!(firsts, vec![0, 1, 4, 4]);
    assert_eq!(map.total_pages(), 6);
    assert_eq!(map.chapter_start_page_index(1), Some(1));
    assert_eq!(map.chapter_start_page_index(2), None);
    assert_eq!(map.chapter_page_range(3), Some(4..6));
    assert!(map.entries()[1].contains_global_page(3));
    assert!(!map.entries()[1].contains_global_page(4));
    assert_eq!(RenderBookPageMap::new().total_pages(), 0);
}

#[test]
fn page_map_counts_missing_spine_entries_as_empty() {
    let chapters = vec![chapter(5, "c5.xhtml")];
    let map = RenderBookPageMap::from_chapter_page_counts(&chapters, &[7]);
    assert_eq!(map.entries()[0].page_count, 0);
    assert_eq!(map.total_pages(), 0);
    assert_eq!(map.chapter_start_page_index(5), None);

    let chapters = vec![chapter(7, "a.xhtml"), chapter(1, "b.xhtml")];
    let map = RenderBookPageMap::from_chapter_page_counts(&chapters, &[2, 5]);
    let counts: Vec<usize> = map.entries().iter().map(|e| e.page_count).collect();
    assert_eq!(counts, vec![0, 5]);
    assert_eq!(map.total_pages(), 5);
}

#[test]
fn default_page_map_is_empty() {
    let map = RenderBookPageMap::default();
    assert!(map.entries().is_empty());
    assert_eq!(map.total_pages(), 0);
    assert_eq!(map, RenderBookPageMap::new());
}

#[test]
fn collected_pages_respect_the_memory_limit() {
    assert!(matches!(collected_pages_outcome(3, 3), Ok(3)));
    assert!(matches!(collected_pages_outcome(0, 0), Ok(0)));
    match collected_pages_outcome(5, 3) {
        Err(err @ RenderEngineError::LimitExceeded { kind, actual, limit }) => {
            assert_eq!(kind, "max_pages_in_memory");
            assert_eq!((actual, limit), (5, 3));
            assert_eq!(
                err.diagnostic(),
                RenderDiagnostic::MemoryLimitExceeded { kind: "max_pages_in_memory", actual: 5, limit: 3 }
            );
        }
        other => panic!("unexpected outcome {:?}", other),
    }
    assert!(keeps_next_page(2, 3));
    assert!(!keeps_next_page(3, 3));
}

#[test]
fn cancelled_runs_stop_and_empty_ranges_render_nothing() {
    assert!(matches!(cancellation_outcome(true), Err(RenderEngineError::Cancelled)));
    assert!(cancellation_outcome(false).is_ok());
    assert!(check_cancelled(&NeverCancel).is_ok());
    assert_eq!(RenderEngineError::Cancelled.diagnostic(), RenderDiagnostic::Cancelled);
    assert!(page_range_is_empty(&(4..4)));
    assert!(page_range_is_empty(&(5..2)));
    assert!(!page_range_is_empty(&(0..1)));
}

#[test]
fn normalized_paths_are_fixed_points() {
    for p in ["./OPS/../OPS/text/./ch1.xhtml", "a\\b\\..\\c?q=1", "../../x//y/.", "", "?", "./"] {
        let once = epub_stream_render::paths::normalize_rel_path(p);
        assert!(!once.contains('?') && !once.contains('\\'));
        if !once.is_empty() {
            assert!(once.split('/').all(|seg| !seg.is_empty() && seg != "." && seg != ".."));
        }
        assert_eq!(epub_stream_render::paths::normalize_rel_path(&once), once);
    }
}

#[test]
fn resolve_href_falls_back_to_chapter_start_for_fragments() {
    let map = sample_map();
    let plain = map.resolve_href("OPS/text/ch1.xhtml").expect("chapter resolves");
    assert_eq!(plain.page_index, 1);
    assert_eq!(plain.chapter_index, 1);
    assert_eq!(plain.kind, RenderLocatorTargetKind::ChapterStart);
    assert_eq!(plain.fragment, None);

    let frag = map.resolve_href("OPS/text/ch1.xhtml#sec2").expect("fragment resolves");
    assert_eq!(frag.page_index, 1);
    assert_eq!(frag.kind, RenderLocatorTargetKind::FragmentFallbackChapterStart);
    assert_eq!(frag.fragment.as_deref(), Some("sec2"));

    let normalized = map.resolve_toc_href("./OPS/x/../text/ch1.xhtml").expect("normalized");
    assert_eq!(normalized.chapter_index, 1);

    // a chapter without pages has no target
    assert_eq!(map.resolve_href("OPS/text/ch2.xhtml"), None);
    // ambiguous basenames do not resolve
    assert_eq!(map.resolve_href("ch2.xhtml"), None);
    assert_eq!(map.resolve_href("cover.xhtml").map(|t| t.page_index), Some(0));
    assert_eq!(map.resolve_href(""), None);
    assert_eq!(map.resolve_href("#only-fragment"), None);
}

#[test]
fn resolve_chapter_start_marks_anchors() {
    let map = sample_map();
    let t = map.resolve_chapter_start(3, Some("n1")).expect("chapter 3");
    assert_eq!(t.page_index, 4);
    assert_eq!(t.kind, RenderLocatorTargetKind::FragmentFallbackChapterStart);
    let t = map.resolve_chapter_start(3, Some("")).expect("chapter 3");
    assert_eq!(t.kind, RenderLocatorTargetKind::ChapterStart);
    assert_eq!(map.resolve_chapter_start(2, None), None);
    assert_eq!(map.resolve_chapter_start(99, None), None);
}

#[test]
fn paths_helpers() {
    assert_eq!(basename_of("a/b/c.xhtml"), "c.xhtml");
    assert_eq!(basename_of("plain"), "plain");
    assert_eq!(extension_of("a/b.Tar.GZ?x#y"), Some("gz".to_string()));
    assert_eq!(extension_of("a/b"), None);
    assert_eq!(normalize_rel_path_str("a\\b\\..\\c?q=1"), "a/c");
    assert_eq!(find_bytes(b"hello world", b"o w"), Some(4));
    assert_eq!(find_bytes(b"hello", b""), None);
    assert_eq!(find_header_end(b"GET / HTTP/1.1\r\nHost: x\r\n\r\nbody"), Some(23));
    assert_eq!(find_header_end(b"partial\r\n"), None);
}

fn normalize_rel_path_str(p: &str) -> String {
    epub_stream_render::paths::normalize_rel_path(p)
}

#[test]
fn persisted_forms_roundtrip() {
    let slot = OverlaySlot::Custom(OverlayRect { x: 1, y: -2, width: 3, height: 4 });
    let p = PersistedOverlaySlot::from(&slot);
    assert_eq!(OverlaySlot::from(p), slot);
    let role = BlockRole::Heading(3);
    assert_eq!(BlockRole::from(PersistedBlockRole::from(role)), role);
    let mode = JustifyMode::AlignRight { offset_px: -5 };
    assert_eq!(JustifyMode::from(PersistedJustifyMode::from(mode)), mode);
    assert_eq!(
        PageChromeKind::from(PersistedPageChromeKind::from(PageChromeKind::Footer)),
        PageChromeKind::Footer
    );
    let ann = PageAnnotation {
        kind: PageAnnotationKind::from("custom"),
        value: Some("v".to_string()),
    };
    let persisted = PersistedPageAnnotation::from(&ann);
    assert_eq!(persisted.kind, "custom");
    assert_eq!(PageAnnotation::from(persisted), ann);
}

#[test]
fn page_ranges_are_half_open() {
    assert_eq!(normalize_page_range(Some(2..5)), Some(2..5));
    assert_eq!(normalize_page_range(Some(5..2)), Some(0..0));
    assert_eq!(normalize_page_range(Some(3..3)), Some(0..0));
    assert_eq!(normalize_page_range(None), None);
    assert!(page_in_range(2, &Some(2..5)));
    assert!(!page_in_range(5, &Some(2..5)));
    assert!(page_in_range(100, &None));
}

#[test]
fn cache_store_paths_and_limits() {
    let store = FileRenderCacheStore::new("cache".to_string());
    assert_eq!(store.max_file_bytes(), DEFAULT_MAX_CACHE_FILE_BYTES);
    assert_eq!(store.cache_root(), "cache");
    let store = store.with_max_file_bytes(0);
    assert_eq!(store.max_file_bytes(), 1);
    let mut bytes = [0u8; 32];
    bytes[0] = 0xab;
    bytes[31] = 0x01;
    let profile = PaginationProfileId(bytes);
    let hex = profile_hex(profile);
    assert_eq!(hex.len(), 64);
    assert!(hex.starts_with("ab00"));
    assert!(hex.ends_with("01"));
    let path = store.chapter_cache_path(profile, 12);
    assert_eq!(path, format!("cache/{}/chapter-12.json", hex));
}

#[test]
fn capped_writer_refuses_bytes_past_the_cap() {
    let mut w = CappedWriter::new(Vec::<u8>::new(), 5);
    assert!(w.reserve(3));
    assert!(w.reserve(2));
    assert!(!w.reserve(1));
    let mut z = CappedWriter::new(Vec::<u8>::new(), 0);
    assert!(z.reserve(1));
    assert!(!z.reserve(1));
    w.inner_mut().extend_from_slice(b"abc");
    assert!(!w.reserve(1));
    assert_eq!(w.into_inner(), b"abc".to_vec());
}

#[test]
fn pagination_profile_id_is_deterministic_and_input_sensitive() {
    let a = PaginationProfileId::from_bytes(b"layout-options");
    let b = PaginationProfileId::from_bytes(b"layout-options");
    let c = PaginationProfileId::from_bytes(b"layout-optionz");
    assert_eq!(a, b);
    assert_ne!(a, c);
}

#[test]
fn chrome_defaults() {
    let g = PageChromeConfig::geometry_defaults();
    assert!(g.header_enabled && g.footer_enabled && g.progress_enabled);
    assert_eq!(g.progress_y_from_bottom, 20);
    let l = PageChromeConfig::layout_defaults();
    assert!(!l.header_enabled && !l.footer_enabled && !l.progress_enabled);
    assert_eq!(l.header_x, g.header_x);
}

#[test]
fn forced_families() {
    assert_eq!(forced_font_family("Alegreya, serif"), "Alegreya");
    assert_eq!(forced_font_family("  \"Noto Serif\" , x"), "Noto Serif");
    assert_eq!(forced_font_family("'Mono'"), "Mono");
    assert_eq!(forced_font_family("  , sans"), "serif");
    assert_eq!(forced_family_setting("  Body  "), Some("Body".to_string()));
    assert_eq!(forced_family_setting("   "), None);
}

#[test]
fn fragment_anchor_offsets_pick_the_earliest_pattern() {
    let html = b"<p name='b'>x</p><h1 id=\"a\">A</h1><a name=\"a\"></a>";
    assert_eq!(fragment_anchor_offset(html, "a"), Some(21));
    assert_eq!(fragment_anchor_offset(html, " b "), Some(3));
    assert_eq!(fragment_anchor_offset(html, "zz"), None);
    assert_eq!(fragment_anchor_offset(html, "  "), None);
    assert_eq!(fragment_anchor_offset(b"", "a"), None);
}

#[test]
fn forced_font_family_config_disables_embedded_fonts() {
    let cfg = RenderConfig::default().with_forced_font_family("  monospace ");
    assert_eq!(cfg.forced_font_family.as_deref(), Some("monospace"));
    assert!(!cfg.embedded_fonts);
}

#[test]
fn empty_forced_font_family_is_ignored() {
    let cfg = RenderConfig::default().with_forced_font_family("   ");
    assert!(cfg.forced_font_family.is_none());
    assert!(cfg.embedded_fonts);
}

#[test]
fn render_config_builders_keep_other_settings() {
    let cfg = RenderConfig::default()
        .with_page_range(2..5)
        .with_embedded_fonts(false)
        .with_forced_font_family("  ");
    assert_eq!(cfg.page_range, Some(2..5));
    assert!(!cfg.embedded_fonts);
    assert_eq!(cfg.forced_font_family, None);
}

#[test]
fn persisted_page_annotation_kind_preserves_string_compatibility() {
    let persisted_note = PersistedPageAnnotation {
        kind: "note".to_string(),
        value: Some("n1".to_string()),
    };
    let note: PageAnnotation = persisted_note.clone().into();
    assert_eq!(note.kind, PageAnnotationKind::Note);
    assert_eq!(PersistedPageAnnotation::from(&note).kind, "note");

    let persisted_inline = PersistedPageAnnotation {
        kind: "inline_image_src".to_string(),
        value: Some("images/pic.jpg".to_string()),
    };
    let inline: PageAnnotation = persisted_inline.clone().into();
    assert_eq!(inline.kind, PageAnnotationKind::InlineImageSrc);
    assert_eq!(PersistedPageAnnotation::from(&inline).kind, "inline_image_src");

    let legacy_unknown_json = r#"{"kind":"legacy_annotation","value":"payload"}"#;
    let fields: serde_json::Value =
        serde_json::from_str(legacy_unknown_json).expect("legacy JSON should deserialize");
    let persisted_unknown = PersistedPageAnnotation {
        kind: fields["kind"].as_str().expect("kind").to_string(),
        value: fields["value"].as_str().map(|v| v.to_string()),
    };
    let unknown: PageAnnotation = persisted_unknown.into();
    assert_eq!(unknown.kind, PageAnnotationKind::Unknown("legacy_annotation".to_string()));
    assert_eq!(PersistedPageAnnotation::from(&unknown).kind, "legacy_annotation");
}

#[test]
fn chrome_policy_selects_emitted_markers() {
    let cfg = PageChromeConfig {
        header_enabled: false,
        footer_enabled: true,
        progress_enabled: true,
        ..PageChromeConfig::default()
    };
    let markers = page_chrome_markers(&cfg, 3, 7);
    let kinds: Vec<PageChromeKind> = markers.iter().map(|m| m.kind).collect();
    assert_eq!(kinds, vec![PageChromeKind::Footer, PageChromeKind::Progress]);
    assert_eq!(markers[0].text.as_deref(), Some("Page 3"));
    assert_eq!(markers[0].current, None);
    assert_eq!(markers[1].text, None);
    assert_eq!(markers[1].current, Some(3));
    assert_eq!(markers[1].total, Some(7));
}

#[test]
fn chrome_markers_follow_header_footer_progress_order() {
    let cfg = PageChromeConfig::geometry_defaults();
    let markers = page_chrome_markers(&cfg, 120, 121);
    let kinds: Vec<PageChromeKind> = markers.iter().map(|m| m.kind).collect();
    assert_eq!(
        kinds,
        vec![PageChromeKind::Header, PageChromeKind::Footer, PageChromeKind::Progress]
    );
    assert_eq!(markers[0].text.as_deref(), Some("Page 120"));
    assert_eq!(markers[1].text.as_deref(), Some("Page 120"));
    assert!(page_chrome_markers(&PageChromeConfig::layout_defaults(), 1, 1).is_empty());
}

#[test]
fn forced_font_policy_uses_first_family_entry() {
    assert_eq!(forced_font_family("Alegreya, serif"), "Alegreya");
    let cfg = RenderConfig::default().with_forced_font_family("Alegreya, serif");
    assert!(!cfg.embedded_fonts);
}
