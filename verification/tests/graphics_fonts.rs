use epub_stream_render::fonts::{
    decode_ttf_font_id, encode_ttf_font_id, find_sfnt_table, normalize_font_family,
    normalize_text_for_mono, parse_ttf_face_metrics, scaled_metric_px, FontFaceRegistration,
    MonoFontBackend, MonoFontFace, TtfBackendOptions, TtfFallbackPolicy, TtfFontBackend,
    MONO_SIZE_MEDIUM,
};
use epub_stream_render::graphics::{
    bitmap_box_check, bitmap_draw_points, count_spaces, fit_bitmap_inside, inter_word_spacing,
    page_chrome_plan, progress_geometry_check, renderer_capabilities,
    BackendCapabilities, ChromeDraw, FontFallbackReason, ImageRegistry, ImageRegistryError, ImageRegistryLimits,
    MonochromeBitmap,
};
use epub_stream_render::render_ir::{PageChromeConfig, PageChromeKind, PageChromeTextStyle};

#[test]
fn image_registry_enforces_limits_without_mutating_existing_entries() {
    let mut registry = ImageRegistry::with_limits(ImageRegistryLimits {
        max_images: 1,
        max_total_pixels: 4,
    });

    registry
        .register(
            "images/a.bin".to_string(),
            MonochromeBitmap::from_packed_bits(2, 2, vec![0b1111_0000]).expect("valid bitmap"),
        )
        .expect("first registration should succeed");
    assert_eq!(registry.len(), 1);
    assert_eq!(registry.total_pixels(), 4);

    let second_result = registry.register(
        "images/b.bin".to_string(),
        MonochromeBitmap::from_packed_bits(1, 1, vec![0b1000_0000]).expect("valid bitmap"),
    );
    assert_eq!(second_result, Err(ImageRegistryError::MaxImagesExceeded));
    assert_eq!(registry.len(), 1);
    assert_eq!(registry.total_pixels(), 4);

    let replace_result = registry.register(
        "images/a.bin".to_string(),
        MonochromeBitmap::from_packed_bits(3, 2, vec![0b1111_1100]).expect("valid bitmap"),
    );
    assert_eq!(
        replace_result,
        Err(ImageRegistryError::MaxTotalPixelsExceeded)
    );
    assert_eq!(registry.len(), 1);
    assert_eq!(registry.total_pixels(), 4);
}

#[test]
fn registry_replaces_in_place_and_reads_back() {
    let mut registry = ImageRegistry::with_limits(ImageRegistryLimits {
        max_images: 2,
        max_total_pixels: 10,
    });
    let a = MonochromeBitmap::from_packed_bits(2, 2, vec![0xf0]).unwrap();
    let b = MonochromeBitmap::from_packed_bits(1, 3, vec![0xe0]).unwrap();
    assert_eq!(registry.register("a".to_string(), a.clone()), Ok(()));
    assert_eq!(registry.register("b".to_string(), b.clone()), Ok(()));
    assert_eq!(registry.total_pixels(), 7);
    let a2 = MonochromeBitmap::from_packed_bits(3, 2, vec![0xfc]).unwrap();
    assert_eq!(registry.register("a".to_string(), a2.clone()), Ok(()));
    assert_eq!(registry.len(), 2);
    assert_eq!(registry.total_pixels(), 9);
    assert_eq!(registry.bitmap_for("a"), Some(&a2));
    assert_eq!(registry.bitmap_for("b"), Some(&b));
    assert_eq!(registry.bitmap_for("c"), None);
    assert_eq!(registry.register("  ".to_string(), a), Err(ImageRegistryError::EmptySource));
    assert_eq!(registry.set_limits(ImageRegistryLimits { max_images: 1, max_total_pixels: 100 }), Err(ImageRegistryError::MaxImagesExceeded));
    assert_eq!(registry.set_limits(ImageRegistryLimits { max_images: 5, max_total_pixels: 8 }), Err(ImageRegistryError::MaxTotalPixelsExceeded));
    assert_eq!(registry.set_limits(ImageRegistryLimits { max_images: 0, max_total_pixels: 8 }), Err(ImageRegistryError::RegistryDisabled));
    assert_eq!(registry.set_limits(ImageRegistryLimits { max_images: 2, max_total_pixels: 9 }), Ok(()));
    assert_eq!(registry.limits(), ImageRegistryLimits { max_images: 2, max_total_pixels: 9 });

    let mut disabled = ImageRegistry::with_limits(ImageRegistryLimits { max_images: 0, max_total_pixels: 0 });
    let c = MonochromeBitmap::from_packed_bits(1, 1, vec![0x80]).unwrap();
    assert_eq!(disabled.register("c".to_string(), c), Err(ImageRegistryError::RegistryDisabled));
}

#[test]
fn bitmaps_validate_and_read_packed_bits() {
    assert_eq!(MonochromeBitmap::from_packed_bits(0, 2, vec![]), Err(ImageRegistryError::InvalidDimensions));
    assert_eq!(MonochromeBitmap::from_packed_bits(3, 3, vec![0, 0]), Ok(MonochromeBitmap::from_packed_bits(3, 3, vec![0, 0]).unwrap()));
    assert_eq!(MonochromeBitmap::from_packed_bits(3, 3, vec![0]), Err(ImageRegistryError::InvalidPixelData));
    assert_eq!(MonochromeBitmap::from_packed_bits(70000, 70000, vec![]), Err(ImageRegistryError::InvalidDimensions));
    assert_eq!(MonochromeBitmap::required_bytes(3, 3), Some(2));
    let bm = MonochromeBitmap::from_packed_bits(3, 2, vec![0b1010_0100]).unwrap();
    assert_eq!(bm.pixel_count(), 6);
    assert!(bm.pixel_is_on(0, 0));
    assert!(!bm.pixel_is_on(1, 0));
    assert!(bm.pixel_is_on(2, 0));
    assert!(!bm.pixel_is_on(0, 1));
    assert!(bm.pixel_is_on(2, 1));
    assert!(!bm.pixel_is_on(3, 0));
}

#[test]
fn fit_and_draw_geometry() {
    assert_eq!(fit_bitmap_inside(100, 50, 40, 40), (40, 20));
    assert_eq!(fit_bitmap_inside(50, 100, 40, 40), (20, 40));
    assert_eq!(fit_bitmap_inside(1, 1000, 10, 5), (1, 5));
    assert_eq!(fit_bitmap_inside(0, 0, 0, 0), (1, 1));
    let bm = MonochromeBitmap::from_packed_bits(2, 1, vec![0b1000_0000]).unwrap();
    // scaled to 4x2 inside a 4x4 box, centred vertically (offset 1)
    let points = bitmap_draw_points(&bm, 10, 20, 4, 4);
    assert_eq!(points, vec![(10, 21), (11, 21), (10, 22), (11, 22)]);
}

#[test]
fn chrome_plans() {
    let cfg = PageChromeConfig::geometry_defaults();
    assert_eq!(
        page_chrome_plan(&cfg, PageChromeKind::Header, true, None, None, 480, 800),
        ChromeDraw::Text { x: 8, baseline_y: 16, style: PageChromeTextStyle::Bold }
    );
    assert_eq!(
        page_chrome_plan(&cfg, PageChromeKind::Footer, true, None, None, 480, 800),
        ChromeDraw::Text { x: 8, baseline_y: 792, style: PageChromeTextStyle::Regular }
    );
    assert_eq!(page_chrome_plan(&cfg, PageChromeKind::Footer, false, None, None, 480, 800), ChromeDraw::Nothing);
    assert_eq!(
        page_chrome_plan(&cfg, PageChromeKind::Progress, false, Some(3), Some(4), 480, 800),
        ChromeDraw::ProgressBar { x: 8, y: 780, width: 464, height: 4, stroke_width: 1, filled: 348 }
    );
    assert_eq!(
        page_chrome_plan(&cfg, PageChromeKind::Progress, false, Some(9), Some(4), 480, 800),
        ChromeDraw::ProgressBar { x: 8, y: 780, width: 464, height: 4, stroke_width: 1, filled: 464 }
    );
    let off = PageChromeConfig::layout_defaults();
    assert_eq!(page_chrome_plan(&off, PageChromeKind::Progress, false, Some(1), Some(2), 480, 800), ChromeDraw::Nothing);
}

#[test]
fn inter_word_spacing_caps_extra() {
    assert_eq!(inter_word_spacing(3, 10, 8), Some((3, 1)));
    assert_eq!(inter_word_spacing(3, 100, 8), Some((4, 0)));
    assert_eq!(inter_word_spacing(2, 5, 1), Some((1, 0)));
    assert_eq!(inter_word_spacing(0, 5, 8), None);
    assert_eq!(inter_word_spacing(2, 0, 8), None);
    assert_eq!(count_spaces("a b  c"), 3);
}

#[test]
fn mono_backend_reports_fallback_reason_for_unknown_family() {
    let selection = MonoFontBackend::resolve_font("fantasy", MONO_SIZE_MEDIUM, 400, false, None);
    assert_eq!(
        selection.fallback_reason,
        Some(FontFallbackReason::UnknownFamily)
    );
}

#[test]
fn mono_backend_reports_unknown_font_id_fallback_reason() {
    let selection = MonoFontBackend::resolve_font("monospace", MONO_SIZE_MEDIUM, 400, false, Some(999));
    assert_eq!(
        selection.fallback_reason,
        Some(FontFallbackReason::UnknownFontId)
    );
}

#[test]
fn mono_font_ids_and_faces() {
    let id = MonoFontBackend::encode_font_id(3, 1);
    assert_eq!(id, 13);
    assert_eq!(MonoFontBackend::decode_font_id(id), (3, 1));
    assert_eq!(MonoFontBackend::font_for(id), (MonoFontFace::Font9x18, Some(FontFallbackReason::UnsupportedWeightItalic)));
    assert_eq!(MonoFontBackend::font_for(0), (MonoFontFace::Font6x9, None));
    assert_eq!(MonoFontBackend::style_variant_for_weight_italic(700, true), 3);
    assert_eq!(MonoFontBackend::style_variant_for_weight_italic(699, true), 1);
    assert!(MonoFontBackend::family_supported(" Sans-Serif "));
    assert!(!MonoFontBackend::family_supported("cursive"));
    let sel = MonoFontBackend::resolve_font("serif", 2, 700, false, None);
    assert_eq!(sel.font_id, 10);
    assert_eq!(sel.fallback_reason, None);
    assert_eq!(normalize_text_for_mono("a\u{a0}b \u{2014} \u{201c}x\u{201d}\u{2026}"), "a b - \"x\"...");
    assert_eq!(normalize_text_for_mono("plain"), "plain");
}

fn stub_ttf_face(units_per_em: u16, x_avg_char_width: Option<i16>, extra_bytes: usize) -> Vec<u8> {
    let head_offset = 12 + 16 * 2;
    let head_length = 54usize;
    let os2_offset = head_offset + head_length;
    let os2_length = if x_avg_char_width.is_some() { 4usize } else { 0usize };
    let total_len = os2_offset + os2_length + extra_bytes;
    let mut data = vec![0u8; total_len];
    data[0..4].copy_from_slice(&0x0001_0000u32.to_be_bytes());
    data[4..6].copy_from_slice(&2u16.to_be_bytes());
    data[6..8].copy_from_slice(&32u16.to_be_bytes());
    data[8..10].copy_from_slice(&1u16.to_be_bytes());
    data[10..12].copy_from_slice(&0u16.to_be_bytes());
    data[12..16].copy_from_slice(b"head");
    data[20..24].copy_from_slice(&(head_offset as u32).to_be_bytes());
    data[24..28].copy_from_slice(&(head_length as u32).to_be_bytes());
    data[28..32].copy_from_slice(b"OS/2");
    data[36..40].copy_from_slice(&(os2_offset as u32).to_be_bytes());
    data[40..44].copy_from_slice(&(os2_length as u32).to_be_bytes());
    data[head_offset + 18..head_offset + 20].copy_from_slice(&units_per_em.to_be_bytes());
    if let Some(x_avg) = x_avg_char_width {
        data[os2_offset + 2..os2_offset + 4].copy_from_slice(&x_avg.to_be_bytes());
    }
    data
}

#[test]
fn ttf_backend_exposes_options_and_status() {
    let opts = TtfBackendOptions {
        max_faces: 2,
        max_face_bytes: 128,
        max_total_face_bytes: 256,
        fallback_policy: TtfFallbackPolicy::MonoOnly,
    };
    let backend = TtfFontBackend::new(opts);
    assert_eq!(backend.options(), opts);
    assert_eq!(backend.status(0), "fallback_only");
}

#[test]
fn ttf_backend_registration_enforces_limits() {
    let opts = TtfBackendOptions {
        max_faces: 2,
        max_face_bytes: 120,
        max_total_face_bytes: 220,
        fallback_policy: TtfFallbackPolicy::MonoOnly,
    };
    let mut backend = TtfFontBackend::new(opts);
    let face_a_data = stub_ttf_face(1000, Some(580), 0);
    let face_b_data = stub_ttf_face(1000, Some(620), 0);
    let face_c_too_large_data = stub_ttf_face(1000, Some(640), 40);
    let face_a = FontFaceRegistration { family: "A", weight: 400, italic: false, data: &face_a_data };
    let face_b = FontFaceRegistration { family: "B", weight: 400, italic: false, data: &face_b_data };
    let face_c_too_large = FontFaceRegistration {
        family: "C",
        weight: 400,
        italic: false,
        data: &face_c_too_large_data,
    };
    let accepted = backend.register_faces(&[face_a, face_b, face_c_too_large]);
    assert_eq!(accepted, 2);
}

#[test]
fn ttf_backend_status_moves_to_metrics_active_after_resolve() {
    let opts = TtfBackendOptions {
        max_faces: 2,
        max_face_bytes: 256,
        max_total_face_bytes: 512,
        fallback_policy: TtfFallbackPolicy::MonoOnly,
    };
    let mut backend = TtfFontBackend::new(opts);
    let face_data = stub_ttf_face(1000, Some(640), 0);
    let accepted = backend.register_faces(&[FontFaceRegistration {
        family: "Body",
        weight: 400,
        italic: false,
        data: &face_data,
    }]);
    assert_eq!(accepted, 1);
    let mut hits = 0usize;
    assert_eq!(backend.status(hits), "metrics_only");
    let (selection, hit) = backend.resolve_font("Body", MONO_SIZE_MEDIUM, 400, false, None);
    if hit {
        hits += 1;
    }
    assert!(decode_ttf_font_id(selection.font_id).is_some());
    assert_eq!(selection.fallback_reason, None);
    assert_eq!(backend.status(hits), "metrics_active");
}

#[test]
fn ttf_metrics_and_ids() {
    let face = stub_ttf_face(1000, Some(600), 0);
    let m = parse_ttf_face_metrics(&face).expect("metrics");
    assert_eq!((m.units_per_em, m.avg_advance, m.space_advance), (1000, 600, 312));
    let no_os2 = stub_ttf_face(2048, None, 0);
    let m = parse_ttf_face_metrics(&no_os2).expect("metrics");
    assert_eq!((m.units_per_em, m.avg_advance, m.space_advance), (2048, 1187, 617));
    assert_eq!(parse_ttf_face_metrics(&stub_ttf_face(0, Some(600), 0)), None);
    assert_eq!(parse_ttf_face_metrics(b"short"), None);
    assert_eq!(find_sfnt_table(&face, *b"OS/2").map(|t| t.len()), Some(4));
    assert_eq!(find_sfnt_table(&face, *b"hhea"), None);
    assert_eq!(scaled_metric_px(600, 1000, 1), 10);
    assert_eq!(scaled_metric_px(600, 0, 1), 1);
    assert_eq!(scaled_metric_px(0, 1000, 3), 1);
    let id = encode_ttf_font_id(33, 2);
    assert_eq!(decode_ttf_font_id(id), Some((1, 2)));
    assert_eq!(decode_ttf_font_id(5), None);
    assert_eq!(normalize_font_family("  \"'Noto Serif'\"  "), "noto serif");

    let mut backend = TtfFontBackend::new(TtfBackendOptions::default());
    let a = stub_ttf_face(1000, Some(600), 0);
    let b = stub_ttf_face(1000, Some(500), 0);
    backend.register_faces(&[
        FontFaceRegistration { family: "Lora", weight: 400, italic: false, data: &a },
        FontFaceRegistration { family: "Lora", weight: 700, italic: true, data: &b },
    ]);
    assert_eq!(backend.face_count(), 2);
    assert_eq!(backend.select_face_index("lora", 650, true), Some((1, true)));
    assert_eq!(backend.select_face_index("Other", 400, false), Some((0, false)));
    assert_eq!(backend.select_face_index("serif", 400, false), Some((0, true)));
    let (sel, hit) = backend.resolve_font("Other", 1, 400, false, None);
    assert!(hit);
    assert_eq!(sel.fallback_reason, Some(FontFallbackReason::UnknownFamily));
    let (sel, hit) = backend.resolve_font("Lora", 1, 400, false, Some(300));
    assert!(!hit);
    assert_eq!(sel.fallback_reason, Some(FontFallbackReason::UnknownFontId));
    let (sel, hit) = backend.resolve_font("Lora", 1, 400, false, Some(0x80 | 5));
    assert!(!hit);
    assert_eq!(sel.fallback_reason, Some(FontFallbackReason::UnknownFontId));
    let metrics = backend.metrics(encode_ttf_font_id(0, 1)).expect("face metrics");
    assert_eq!((metrics.char_width, metrics.space_width), (10, 5));
    assert_eq!(backend.metrics(1), None);
    assert_eq!(backend.surrogate_mono_font_id(encode_ttf_font_id(1, 2)), 11);
    assert_eq!(backend.surrogate_mono_font_id(6), 6);

    let empty = TtfFontBackend::new(TtfBackendOptions::default());
    let (sel, hit) = empty.resolve_font("serif", 1, 400, false, None);
    assert!(!hit);
    assert_eq!(sel.fallback_reason, Some(FontFallbackReason::BackendUnavailable));
}

#[test]
fn draw_guards_and_size_helpers() {
    assert!(bitmap_box_check(0, 0, 10, 10));
    assert!(!bitmap_box_check(i32::MAX - 5, 0, 10, 10));
    assert!(!bitmap_box_check(0, 0, u32::MAX, 1));
    let cfg = PageChromeConfig::geometry_defaults();
    assert!(progress_geometry_check(&cfg, 480, Some(3), Some(10)));
    assert_eq!(MonoFontBackend::size_bucket_px(MONO_SIZE_MEDIUM), 16);
    assert_eq!(MonoFontBackend::size_bucket_px(200), 16);
    let mut opts = TtfBackendOptions::default();
    opts.max_faces = 3;
    assert_eq!(TtfFontBackend::new(opts).selectable_faces_limit(), 3);
    opts.max_faces = 1000;
    assert_eq!(TtfFontBackend::new(opts).selectable_faces_limit(), 32);
}

#[test]
fn mono_backend_capabilities_match_expected_flags() {
    let caps = renderer_capabilities(MonoFontBackend::capabilities(), ImageRegistryLimits::default());
    assert_eq!(
        caps,
        BackendCapabilities {
            ttf: false,
            images: false,
            svg: false,
            justification: true,
        }
    );
}

#[test]
fn image_registry_enabled_sets_images_capability_flag() {
    let caps = renderer_capabilities(
        MonoFontBackend::capabilities(),
        ImageRegistryLimits {
            max_images: 2,
            max_total_pixels: 128,
        },
    );
    assert!(caps.images);
}

#[test]
fn ttf_backend_capabilities_enable_ttf_flag() {
    let backend = TtfFontBackend::new(TtfBackendOptions::default());
    assert_eq!(
        renderer_capabilities(backend.capabilities(), ImageRegistryLimits::default()),
        BackendCapabilities {
            ttf: true,
            images: false,
            svg: false,
            justification: true,
        }
    );
}

#[test]
fn image_capability_needs_both_registry_limits() {
    let one_image_no_pixels = ImageRegistryLimits { max_images: 1, max_total_pixels: 0 };
    assert!(!renderer_capabilities(MonoFontBackend::capabilities(), one_image_no_pixels).images);
    let no_images = ImageRegistryLimits { max_images: 0, max_total_pixels: 64 };
    assert!(!renderer_capabilities(MonoFontBackend::capabilities(), no_images).images);
    let drawn_by_backend = BackendCapabilities { ttf: false, images: true, svg: true, justification: false };
    assert_eq!(renderer_capabilities(drawn_by_backend, no_images), drawn_by_backend);
}
