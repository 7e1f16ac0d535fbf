use epub_stream_render::layout::{
    count_words, has_short_tail, split_last_word, plan_inline_image_block, plan_line_justification, plan_line_placement,
};
use epub_stream_render::preview::{chapter_first_global_page, preview_pages_outcome, PreviewPlanError};
use epub_stream_render::render_ir::{JustifyMode, RectCommand};

#[test]
fn words_are_runs_of_non_whitespace() {
    assert_eq!(count_words(""), 0);
    assert_eq!(count_words("   "), 0);
    assert_eq!(count_words(" alpha  beta\tgamma "), 3);
    assert_eq!(count_words("one"), 1);
}

#[test]
fn line_that_does_not_fit_starts_a_new_page() {
    let p = plan_line_placement(700, 20, 710, 16, 2, true, "alpha beta gamma", false, 24, 0, 14);
    assert!(p.break_before);
    assert_eq!((p.x, p.y, p.baseline_y, p.next_cursor_y), (24, 16, 30, 38));
}

#[test]
fn short_line_moves_when_no_room_remains_after_it() {
    // 600 + 20 + 2 leaves 18 < 20 below the line.
    let p = plan_line_placement(600, 20, 640, 16, 2, true, "two words", false, 24, 8, 14);
    assert!(p.break_before);
    assert_eq!((p.x, p.y), (32, 16));
    // Not on an empty page, not for the block's last line, not for long lines.
    assert!(!plan_line_placement(600, 20, 640, 16, 2, false, "two words", false, 24, 0, 14).break_before);
    assert!(!plan_line_placement(600, 20, 640, 16, 2, true, "two words", true, 24, 0, 14).break_before);
    assert!(!plan_line_placement(600, 20, 640, 16, 2, true, "three short words", false, 24, 0, 14).break_before);
    let kept = plan_line_placement(100, 20, 640, 16, 2, true, "two words", false, 24, 0, 30);
    assert!(!kept.break_before);
    assert_eq!((kept.y, kept.baseline_y, kept.next_cursor_y), (100, 119, 122));
}

#[test]
fn closing_and_broken_lines_are_not_justified() {
    let text = "alpha beta gamma delta";
    assert_eq!(
        plan_line_justification(text, true, true, false, false, 3, true, 10, 3),
        JustifyMode::InterWord { extra_px_total: 9 }
    );
    assert_eq!(plan_line_justification(text, true, true, false, true, 3, true, 10, 3), JustifyMode::NoJustify);
    assert_eq!(plan_line_justification(text, true, true, true, false, 3, true, 10, 3), JustifyMode::NoJustify);
    assert_eq!(
        plan_line_justification("alpha beta gamma.", true, true, false, false, 2, true, 10, 3),
        JustifyMode::NoJustify
    );
    assert_eq!(plan_line_justification(text, true, true, false, false, 5, true, 10, 3), JustifyMode::NoJustify);
    assert_eq!(plan_line_justification(text, true, true, false, false, 3, false, 10, 3), JustifyMode::NoJustify);
    assert_eq!(plan_line_justification(text, true, false, false, false, 3, true, 10, 3), JustifyMode::NoJustify);
    assert_eq!(plan_line_justification(text, true, true, false, false, 3, true, 0, 3), JustifyMode::NoJustify);
    assert_eq!(
        plan_line_justification(text, true, true, false, false, 3, true, 4, 3),
        JustifyMode::InterWord { extra_px_total: 4 }
    );
}

#[test]
fn image_block_plans_box_strip_annotation_and_caption() {
    let p = plan_inline_image_block(100, 16, 16, 700, 448, 200, 120, 300, "  A figure ", true, 17, 11, 10, 8, true);
    assert_eq!((p.image_w, p.image_h), (200, 120));
    assert_eq!(p.caption.as_deref(), Some("A figure"));
    assert_eq!(p.block_h, 120 + 6 + 17);
    assert!(!p.new_page);
    assert_eq!((p.x, p.y), (16 + 124, 100));
    assert_eq!(p.outline, RectCommand { x: 140, y: 100, width: 200, height: 120, fill: false });
    assert_eq!(p.header_strip, RectCommand { x: 141, y: 101, width: 198, height: 10, fill: true });
    assert!(p.annotate_src);
    assert_eq!((p.caption_x, p.caption_baseline_y, p.caption_max_w), (20, 237, 440));
    assert_eq!(p.next_cursor_y, 100 + 143 + 8);
}

#[test]
fn image_block_that_does_not_fit_starts_a_new_page() {
    let p = plan_inline_image_block(650, 16, 16, 700, 448, 600, 500, 300, "", true, 17, 11, 24, 2, false);
    assert_eq!((p.image_w, p.image_h), (448, 300));
    assert_eq!(p.caption, None);
    assert_eq!(p.block_h, 300);
    assert!(p.new_page);
    assert_eq!((p.x, p.y), (16, 16));
    assert!(!p.annotate_src);
    assert_eq!(p.next_cursor_y, 16 + 300 + 4);
    let tiny = plan_inline_image_block(0, 0, 0, 700, 448, 10, 5, 300, "alt", false, 17, 11, 2, 4, true);
    assert_eq!((tiny.image_w, tiny.image_h, tiny.caption), (10, 18, None));
}

#[test]
fn preview_records_first_pages_and_rejects_empty_previews() {
    assert_eq!(chapter_first_global_page(0, 3, 7), Some(7));
    assert_eq!(chapter_first_global_page(3, 3, 7), None);
    assert_eq!(preview_pages_outcome(0), Err(PreviewPlanError::NoPagesRendered));
    assert_eq!(preview_pages_outcome(4), Ok(4));
}

#[test]
fn last_word_splits_at_the_last_space() {
    assert_eq!(
        split_last_word("alpha beta  gamma"),
        Some(("alpha beta".to_string(), "gamma".to_string()))
    );
    assert_eq!(split_last_word("alpha"), None);
    assert_eq!(split_last_word("alpha "), None);
    assert_eq!(split_last_word(" alpha"), None);
    assert_eq!(split_last_word("a\tb c"), Some(("a\tb".to_string(), "c".to_string())));
}

#[test]
fn short_trailing_word_lines_are_rebalance_candidates() {
    assert!(has_short_tail("alpha beta of"));
    assert!(has_short_tail("alpha beta of  "));
    assert!(!has_short_tail("alpha of"));
    assert!(!has_short_tail("alpha beta gamma"));
    assert!(!has_short_tail(""));
}
