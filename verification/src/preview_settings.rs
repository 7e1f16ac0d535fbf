use vstd::prelude::*;

use crate::preview::{
    chrome_text_style_for, dither_mode_for, float_support_for, grayscale_mode_for,
    hyphenation_mode_for, parse_chrome_text_style, parse_dither_mode, parse_float_support,
    parse_grayscale_mode, parse_hyphenation_mode, parse_soft_hyphen_policy, parse_svg_mode,
    soft_hyphen_policy_for, svg_mode_for,
    cover_page_mode_for, cover_page_mode_name, cover_page_mode_to_string,
    justification_strategy_for, justification_strategy_name, justification_strategy_to_string,
    law_cover_page_mode_keyword_roundtrip, law_justification_keyword_roundtrip,
    parse_cover_page_mode, parse_justification_strategy,
};
use crate::preview_args::PreviewArgs;
use crate::render_ir::{
    CoverPageMode, FloatSupport, HangingPunctuationConfig, HyphenationConfig,
    JustificationStrategy, PageChromeConfig, RenderIntent, SoftHyphenPolicy, SvgMode,
    WidowOrphanControl,
};
use crate::text::{chars_of, trim_bounds, trim_lower, trim_seq, first_non_ws_from, trimmed_end_from, is_ws};
use vstd::string::StrSliceExecFns;

verus! {

/// Integer, flag and keyword settings of the preview tool's render panel.
#[derive(Clone, Debug, PartialEq, Eq)]
pub struct RenderUiSettings {
    pub chapter: Option<usize>,
    pub start_page: usize,
    pub pages_per_chapter: Option<usize>,
    pub display_width: u32,
    pub display_height: u32,
    pub margin_left: i32,
    pub margin_right: i32,
    pub margin_top: i32,
    pub margin_bottom: i32,
    pub line_gap_px: i32,
    pub paragraph_gap_px: i32,
    pub heading_gap_px: i32,
    pub heading_keep_with_next_lines: u8,
    pub list_indent_px: i32,
    pub first_line_indent_px: i32,
    pub suppress_indent_after_heading: bool,
    pub justify_enabled: bool,
    pub justify_strategy: String,
    pub justify_min_words: usize,
    pub widow_orphan_enabled: bool,
    pub widow_orphan_min_lines: u8,
    pub hanging_punctuation_enabled: bool,
    pub soft_hyphen_policy: String,
    pub hyphenation_mode: String,
    pub min_line_height_px: i32,
    pub max_line_height_px: i32,
    pub object_cover_page_mode: String,
    pub object_float_support: String,
    pub object_svg_mode: String,
    pub object_alt_text_fallback: bool,
    pub render_grayscale_mode: String,
    pub render_dither_mode: String,
    pub render_contrast_boost: u8,
    pub page_chrome_header_enabled: bool,
    pub page_chrome_footer_enabled: bool,
    pub page_chrome_progress_enabled: bool,
    pub page_chrome_header_x: i32,
    pub page_chrome_header_baseline_y: i32,
    pub page_chrome_header_style: String,
    pub page_chrome_footer_x: i32,
    pub page_chrome_footer_baseline_from_bottom: i32,
    pub page_chrome_footer_style: String,
    pub page_chrome_progress_x_inset: i32,
    pub page_chrome_progress_y_from_bottom: i32,
    pub page_chrome_progress_height: u32,
    pub page_chrome_progress_stroke_width: u32,
    pub embedded_fonts: bool,
    pub max_image_bytes: usize,
    pub max_font_bytes: usize,
    pub style_max_selectors: usize,
    pub style_max_css_bytes: usize,
    pub style_max_nesting: usize,
    pub font_limit_max_faces: usize,
    pub font_limit_max_bytes_per_font: usize,
    pub font_limit_max_total_font_bytes: usize,
    pub memory_max_entry_bytes: usize,
    pub memory_max_css_bytes: usize,
    pub memory_max_nav_bytes: usize,
    pub memory_max_inline_style_bytes: usize,
    pub memory_max_pages_in_memory: usize,
    pub ui_font_family: String,
}

/// `v` clamped to `lo..=hi`.
pub open spec fn clamp_int(v: int, lo: int, hi: int) -> int {
    if v < lo {
        lo
    } else if v > hi {
        hi
    } else {
        v
    }
}

/// `max(v, lo)`.
pub open spec fn at_least(v: int, lo: int) -> int {
    if v < lo {
        lo
    } else {
        v
    }
}

/// UI font family once normalised: trimmed, `auto` when blank.
pub open spec fn ui_family(s: Seq<char>) -> Seq<char> {
    if trim_seq(s).len() == 0 {
        "auto"@
    } else {
        trim_seq(s)
    }
}

/// Line-height bounds clamped (`4..=512` and `4..=768`) and put in order.
pub open spec fn line_height_bounds(min: int, max: int) -> (int, int) {
    let lo = clamp_int(min, 4, 512);
    let hi = clamp_int(max, 4, 768);
    if lo > hi {
        (hi, lo)
    } else {
        (lo, hi)
    }
}

/// How `normalized` relates its result `n` to the settings `s`: sizes and
/// counts clamped to their ranges, keywords replaced by their canonical
/// forms, the UI family trimmed; everything else unchanged.
pub open spec fn normalized_from(s: RenderUiSettings, n: RenderUiSettings) -> bool {
    &&& n.chapter == s.chapter
    &&& n.start_page == s.start_page
    &&& n.pages_per_chapter == s.pages_per_chapter
    &&& n.display_width == clamp_int(s.display_width as int, 64, 4096)
    &&& n.display_height == clamp_int(s.display_height as int, 64, 4096)
    &&& n.margin_left == s.margin_left
    &&& n.margin_right == s.margin_right
    &&& n.margin_top == s.margin_top
    &&& n.margin_bottom == s.margin_bottom
    &&& n.line_gap_px == s.line_gap_px
    &&& n.paragraph_gap_px == s.paragraph_gap_px
    &&& n.heading_gap_px == s.heading_gap_px
    &&& n.heading_keep_with_next_lines == at_least(s.heading_keep_with_next_lines as int, 1)
    &&& n.list_indent_px == s.list_indent_px
    &&& n.first_line_indent_px == s.first_line_indent_px
    &&& n.suppress_indent_after_heading == s.suppress_indent_after_heading
    &&& n.justify_enabled == s.justify_enabled
    &&& n.justify_strategy@ == justification_strategy_name(
        justification_strategy_for(trim_lower(s.justify_strategy@)),
    )
    &&& n.justify_min_words == at_least(s.justify_min_words as int, 1)
    &&& n.widow_orphan_enabled == s.widow_orphan_enabled
    &&& n.widow_orphan_min_lines == at_least(s.widow_orphan_min_lines as int, 1)
    &&& n.hanging_punctuation_enabled == s.hanging_punctuation_enabled
    &&& n.soft_hyphen_policy@ == s.soft_hyphen_policy@
    &&& n.hyphenation_mode@ == s.hyphenation_mode@
    &&& (n.min_line_height_px as int, n.max_line_height_px as int) == line_height_bounds(
        s.min_line_height_px as int,
        s.max_line_height_px as int,
    )
    &&& n.object_cover_page_mode@ == cover_page_mode_name(
        cover_page_mode_for(trim_lower(s.object_cover_page_mode@)),
    )
    &&& n.object_float_support@ == s.object_float_support@
    &&& n.object_svg_mode@ == s.object_svg_mode@
    &&& n.object_alt_text_fallback == s.object_alt_text_fallback
    &&& n.render_grayscale_mode@ == s.render_grayscale_mode@
    &&& n.render_dither_mode@ == s.render_dither_mode@
    &&& n.render_contrast_boost == clamp_int(s.render_contrast_boost as int, 10, 255)
    &&& n.page_chrome_header_enabled == s.page_chrome_header_enabled
    &&& n.page_chrome_footer_enabled == s.page_chrome_footer_enabled
    &&& n.page_chrome_progress_enabled == s.page_chrome_progress_enabled
    &&& n.page_chrome_header_x == s.page_chrome_header_x
    &&& n.page_chrome_header_baseline_y == s.page_chrome_header_baseline_y
    &&& n.page_chrome_header_style@ == s.page_chrome_header_style@
    &&& n.page_chrome_footer_x == s.page_chrome_footer_x
    &&& n.page_chrome_footer_baseline_from_bottom == s.page_chrome_footer_baseline_from_bottom
    &&& n.page_chrome_footer_style@ == s.page_chrome_footer_style@
    &&& n.page_chrome_progress_x_inset == s.page_chrome_progress_x_inset
    &&& n.page_chrome_progress_y_from_bottom == s.page_chrome_progress_y_from_bottom
    &&& n.page_chrome_progress_height == at_least(s.page_chrome_progress_height as int, 1)
    &&& n.page_chrome_progress_stroke_width == at_least(
        s.page_chrome_progress_stroke_width as int,
        1,
    )
    &&& n.embedded_fonts == s.embedded_fonts
    &&& n.max_image_bytes == at_least(s.max_image_bytes as int, 1024)
    &&& n.max_font_bytes == at_least(s.max_font_bytes as int, 1024)
    &&& n.style_max_selectors == at_least(s.style_max_selectors as int, 1)
    &&& n.style_max_css_bytes == at_least(s.style_max_css_bytes as int, 1024)
    &&& n.style_max_nesting == at_least(s.style_max_nesting as int, 1)
    &&& n.font_limit_max_faces == at_least(s.font_limit_max_faces as int, 1)
    &&& n.font_limit_max_bytes_per_font == at_least(s.font_limit_max_bytes_per_font as int, 1024)
    &&& n.font_limit_max_total_font_bytes == at_least(
        s.font_limit_max_total_font_bytes as int,
        1024,
    )
    &&& n.memory_max_entry_bytes == at_least(s.memory_max_entry_bytes as int, 1024)
    &&& n.memory_max_css_bytes == at_least(s.memory_max_css_bytes as int, 1024)
    &&& n.memory_max_nav_bytes == at_least(s.memory_max_nav_bytes as int, 1024)
    &&& n.memory_max_inline_style_bytes == at_least(s.memory_max_inline_style_bytes as int, 256)
    &&& n.memory_max_pages_in_memory == at_least(s.memory_max_pages_in_memory as int, 1)
    &&& n.ui_font_family@ == ui_family(s.ui_font_family@)
}

fn clamp_u32(v: u32, lo: u32, hi: u32) -> (r: u32)
    requires
        lo <= hi,
    ensures
        r == clamp_int(v as int, lo as int, hi as int),
{
    if v < lo {
        lo
    } else if v > hi {
        hi
    } else {
        v
    }
}

fn clamp_i32(v: i32, lo: i32, hi: i32) -> (r: i32)
    requires
        lo <= hi,
    ensures
        r == clamp_int(v as int, lo as int, hi as int),
{
    if v < lo {
        lo
    } else if v > hi {
        hi
    } else {
        v
    }
}

fn at_least_usize(v: usize, lo: usize) -> (r: usize)
    ensures
        r == at_least(v as int, lo as int),
{
    if v < lo {
        lo
    } else {
        v
    }
}

fn ui_family_exec(s: &String) -> (r: String)
    ensures
        r@ == ui_family(s@),
{
    let v = chars_of(s.as_str());
    let (lo, hi) = trim_bounds(&v);
    if lo == hi {
        assert(trim_seq(s@) =~= s@.subrange(lo as int, hi as int));
        return "auto".to_owned();
    }
    s.as_str().substring_char(lo, hi).to_owned()
}

/// The settings that the command line does not choose hold their
/// built-in defaults.
pub open spec fn fixed_defaults_hold(r: RenderUiSettings) -> bool {
    &&& r.heading_gap_px == 10
    &&& r.heading_keep_with_next_lines == 2
    &&& r.list_indent_px == 12
    &&& r.first_line_indent_px == 0
    &&& r.suppress_indent_after_heading
    &&& r.soft_hyphen_policy@ == "discretionary"@
    &&& r.hyphenation_mode@ == "discretionary"@
    &&& r.min_line_height_px == 14
    &&& r.max_line_height_px == 56
    &&& r.object_float_support@ == "none"@
    &&& r.object_svg_mode@ == "rasterize-fallback"@
    &&& r.object_alt_text_fallback
    &&& r.render_grayscale_mode@ == "off"@
    &&& r.render_dither_mode@ == "none"@
    &&& r.render_contrast_boost == 100
    &&& !r.page_chrome_header_enabled
    &&& !r.page_chrome_footer_enabled
    &&& !r.page_chrome_progress_enabled
    &&& r.page_chrome_header_x == 8
    &&& r.page_chrome_header_baseline_y == 16
    &&& r.page_chrome_header_style@ == "bold"@
    &&& r.page_chrome_footer_x == 8
    &&& r.page_chrome_footer_baseline_from_bottom == 8
    &&& r.page_chrome_footer_style@ == "regular"@
    &&& r.page_chrome_progress_x_inset == 8
    &&& r.page_chrome_progress_y_from_bottom == 20
    &&& r.page_chrome_progress_height == 4
    &&& r.page_chrome_progress_stroke_width == 1
    &&& r.embedded_fonts
    &&& r.style_max_selectors == 4096
    &&& r.style_max_css_bytes == 512 * 1024
    &&& r.style_max_nesting == 32
    &&& r.font_limit_max_faces == 64
    &&& r.font_limit_max_bytes_per_font == 8 * 1024 * 1024
    &&& r.font_limit_max_total_font_bytes == 64 * 1024 * 1024
    &&& r.memory_max_entry_bytes == 4 * 1024 * 1024
    &&& r.memory_max_css_bytes == 512 * 1024
    &&& r.memory_max_nav_bytes == 512 * 1024
    &&& r.memory_max_inline_style_bytes == 16 * 1024
    &&& r.memory_max_pages_in_memory == 128
    &&& r.ui_font_family@ == "auto"@
}

impl RenderUiSettings {
    /// Built-in defaults of the render panel.
    pub fn defaults() -> (r: Self)
        ensures
            r.chapter is None && r.start_page == 0 && r.pages_per_chapter is None,
            r.display_width == 900 && r.display_height == 1200,
            r.margin_left == 24 && r.margin_right == 24 && r.margin_top == 18 && r.margin_bottom
                == 30,
            r.line_gap_px == 4 && r.paragraph_gap_px == 8,
            r.justify_enabled,
            r.justify_strategy@ == "adaptive-inter-word"@ && r.justify_min_words == 6,
            r.widow_orphan_enabled && r.widow_orphan_min_lines == 2,
            r.hanging_punctuation_enabled,
            r.object_cover_page_mode@ == "contain"@,
            r.max_image_bytes == 16 * 1024 * 1024 && r.max_font_bytes == 24 * 1024 * 1024,
            fixed_defaults_hold(r),
    {
        RenderUiSettings {
            chapter: None,
            start_page: 0,
            pages_per_chapter: None,
            display_width: 900,
            display_height: 1200,
            margin_left: 24,
            margin_right: 24,
            margin_top: 18,
            margin_bottom: 30,
            line_gap_px: 4,
            paragraph_gap_px: 8,
            heading_gap_px: 10,
            heading_keep_with_next_lines: 2,
            list_indent_px: 12,
            first_line_indent_px: 0,
            suppress_indent_after_heading: true,
            justify_enabled: true,
            justify_strategy: "adaptive-inter-word".to_owned(),
            justify_min_words: 6,
            widow_orphan_enabled: true,
            widow_orphan_min_lines: 2,
            hanging_punctuation_enabled: true,
            soft_hyphen_policy: "discretionary".to_owned(),
            hyphenation_mode: "discretionary".to_owned(),
            min_line_height_px: 14,
            max_line_height_px: 56,
            object_cover_page_mode: "contain".to_owned(),
            object_float_support: "none".to_owned(),
            object_svg_mode: "rasterize-fallback".to_owned(),
            object_alt_text_fallback: true,
            render_grayscale_mode: "off".to_owned(),
            render_dither_mode: "none".to_owned(),
            render_contrast_boost: 100,
            page_chrome_header_enabled: false,
            page_chrome_footer_enabled: false,
            page_chrome_progress_enabled: false,
            page_chrome_header_x: 8,
            page_chrome_header_baseline_y: 16,
            page_chrome_header_style: "bold".to_owned(),
            page_chrome_footer_x: 8,
            page_chrome_footer_baseline_from_bottom: 8,
            page_chrome_footer_style: "regular".to_owned(),
            page_chrome_progress_x_inset: 8,
            page_chrome_progress_y_from_bottom: 20,
            page_chrome_progress_height: 4,
            page_chrome_progress_stroke_width: 1,
            embedded_fonts: true,
            max_image_bytes: 16 * 1024 * 1024,
            max_font_bytes: 24 * 1024 * 1024,
            style_max_selectors: 4096,
            style_max_css_bytes: 512 * 1024,
            style_max_nesting: 32,
            font_limit_max_faces: 64,
            font_limit_max_bytes_per_font: 8 * 1024 * 1024,
            font_limit_max_total_font_bytes: 64 * 1024 * 1024,
            memory_max_entry_bytes: 4 * 1024 * 1024,
            memory_max_css_bytes: 512 * 1024,
            memory_max_nav_bytes: 512 * 1024,
            memory_max_inline_style_bytes: 16 * 1024,
            memory_max_pages_in_memory: 128,
            ui_font_family: "auto".to_owned(),
        }
    }

    /// Settings with every size and count clamped to its range, keywords
    /// in canonical form and the UI family trimmed (`auto` when blank).
    pub fn normalized(self) -> (r: Self)
        ensures
            normalized_from(self, r),
    {
        let s = self;
        let min_lh = clamp_i32(s.min_line_height_px, 4, 512);
        let max_lh = clamp_i32(s.max_line_height_px, 4, 768);
        let (min_line_height_px, max_line_height_px) = if min_lh > max_lh {
            (max_lh, min_lh)
        } else {
            (min_lh, max_lh)
        };
        let justify_strategy = justification_strategy_to_string(
            parse_justification_strategy(s.justify_strategy.as_str()),
        ).to_owned();
        let object_cover_page_mode = cover_page_mode_to_string(
            parse_cover_page_mode(s.object_cover_page_mode.as_str()),
        ).to_owned();
        let ui_font_family = ui_family_exec(&s.ui_font_family);
        RenderUiSettings {
            display_width: clamp_u32(s.display_width, 64, 4096),
            display_height: clamp_u32(s.display_height, 64, 4096),
            heading_keep_with_next_lines: if s.heading_keep_with_next_lines < 1 {
                1
            } else {
                s.heading_keep_with_next_lines
            },
            justify_strategy,
            justify_min_words: at_least_usize(s.justify_min_words, 1),
            widow_orphan_min_lines: if s.widow_orphan_min_lines < 1 {
                1
            } else {
                s.widow_orphan_min_lines
            },
            min_line_height_px,
            max_line_height_px,
            object_cover_page_mode,
            render_contrast_boost: if s.render_contrast_boost < 10 {
                10
            } else {
                s.render_contrast_boost
            },
            page_chrome_progress_height: if s.page_chrome_progress_height < 1 {
                1
            } else {
                s.page_chrome_progress_height
            },
            page_chrome_progress_stroke_width: if s.page_chrome_progress_stroke_width < 1 {
                1
            } else {
                s.page_chrome_progress_stroke_width
            },
            max_image_bytes: at_least_usize(s.max_image_bytes, 1024),
            max_font_bytes: at_least_usize(s.max_font_bytes, 1024),
            style_max_selectors: at_least_usize(s.style_max_selectors, 1),
            style_max_css_bytes: at_least_usize(s.style_max_css_bytes, 1024),
            style_max_nesting: at_least_usize(s.style_max_nesting, 1),
            font_limit_max_faces: at_least_usize(s.font_limit_max_faces, 1),
            font_limit_max_bytes_per_font: at_least_usize(s.font_limit_max_bytes_per_font, 1024),
            font_limit_max_total_font_bytes: at_least_usize(
                s.font_limit_max_total_font_bytes,
                1024,
            ),
            memory_max_entry_bytes: at_least_usize(s.memory_max_entry_bytes, 1024),
            memory_max_css_bytes: at_least_usize(s.memory_max_css_bytes, 1024),
            memory_max_nav_bytes: at_least_usize(s.memory_max_nav_bytes, 1024),
            memory_max_inline_style_bytes: at_least_usize(s.memory_max_inline_style_bytes, 256),
            memory_max_pages_in_memory: at_least_usize(s.memory_max_pages_in_memory, 1),
            ui_font_family,
            ..s
        }
    }
}

/// Trimming is idempotent.
proof fn lemma_trim_idempotent(s: Seq<char>)
    ensures
        trim_seq(trim_seq(s)) == trim_seq(s),
{
    let t = trim_seq(s);
    let lo = first_non_ws_from(s, 0);
    crate::text::lemma_first_non_ws_bounds(s, 0);
    crate::text::lemma_trimmed_end_bounds(s, lo, s.len() as int);
    let hi = trimmed_end_from(s, lo, s.len() as int);
    assert(t =~= s.subrange(lo, hi));
    lemma_first_non_ws_at_start(s, lo, hi);
    lemma_trimmed_end_at_end(s, lo, hi);
    assert(trim_seq(t) =~= t);
}

proof fn lemma_first_non_ws_at_start(s: Seq<char>, lo: int, hi: int)
    requires
        0 <= lo <= hi <= s.len(),
        lo == first_non_ws_from(s, 0),
        hi == trimmed_end_from(s, lo, s.len() as int),
    ensures
        first_non_ws_from(s.subrange(lo, hi), 0) == 0,
{
    lemma_first_non_ws_value(s, 0);
    if hi > lo {
        assert(s.subrange(lo, hi)[0] == s[lo]);
    }
}

proof fn lemma_first_non_ws_value(s: Seq<char>, i: int)
    requires
        0 <= i <= s.len(),
    ensures
        first_non_ws_from(s, i) < s.len() ==> !is_ws(s[first_non_ws_from(s, i)]),
    decreases s.len() - i,
{
    if i < s.len() && is_ws(s[i]) {
        lemma_first_non_ws_value(s, i + 1);
    }
}

proof fn lemma_trimmed_end_value(s: Seq<char>, lo: int, j: int)
    requires
        0 <= lo <= j <= s.len(),
    ensures
        trimmed_end_from(s, lo, j) > lo ==> !is_ws(s[trimmed_end_from(s, lo, j) - 1]),
    decreases j - lo,
{
    if j > lo && is_ws(s[j - 1]) {
        lemma_trimmed_end_value(s, lo, j - 1);
    }
}

proof fn lemma_trimmed_end_at_end(s: Seq<char>, lo: int, hi: int)
    requires
        0 <= lo <= hi <= s.len(),
        hi == trimmed_end_from(s, lo, s.len() as int),
    ensures
        trimmed_end_from(s.subrange(lo, hi), 0, hi - lo) == hi - lo,
{
    lemma_trimmed_end_value(s, lo, s.len() as int);
    if hi > lo {
        assert(s.subrange(lo, hi)[hi - lo - 1] == s[hi - 1]);
    }
}

/// Normalising settings a second time changes nothing.
pub proof fn law_normalization_is_idempotent(
    s: RenderUiSettings,
    n: RenderUiSettings,
    m: RenderUiSettings,
)
    requires
        normalized_from(s, n),
        normalized_from(n, m),
    ensures
        m.justify_strategy@ == n.justify_strategy@,
        m.object_cover_page_mode@ == n.object_cover_page_mode@,
        m.ui_font_family@ == n.ui_font_family@,
        m.display_width == n.display_width && m.display_height == n.display_height,
        m.min_line_height_px == n.min_line_height_px && m.max_line_height_px
            == n.max_line_height_px,
        m.render_contrast_boost == n.render_contrast_boost,
        m.justify_min_words == n.justify_min_words,
        m.memory_max_inline_style_bytes == n.memory_max_inline_style_bytes,
        m.max_image_bytes == n.max_image_bytes,
{
    law_justification_keyword_roundtrip(
        justification_strategy_for(trim_lower(s.justify_strategy@)),
    );
    law_cover_page_mode_keyword_roundtrip(
        cover_page_mode_for(trim_lower(s.object_cover_page_mode@)),
    );
    lemma_trim_idempotent(s.ui_font_family@);
    reveal_strlit("auto");
    if trim_seq(s.ui_font_family@).len() == 0 {
        assert(trim_seq("auto"@) =~= "auto"@) by {
            crate::preview::lemma_trim_lower_plain("auto"@);
            assert(trim_seq("auto"@).len() == 4);
        }
    }
}

impl RenderUiSettings {
    /// Render-panel settings seeded from the command line: the options the
    /// command line carries replace the defaults, keywords in canonical form.
    pub fn from_preview_args(args: &PreviewArgs) -> (r: Self)
        ensures
            r.chapter == args.chapter && r.start_page == args.start_page && r.pages_per_chapter
                == args.pages_per_chapter,
            r.display_width == args.display_width && r.display_height == args.display_height,
            r.margin_left == args.margin_left && r.margin_right == args.margin_right
                && r.margin_top == args.margin_top && r.margin_bottom == args.margin_bottom,
            r.line_gap_px == args.line_gap_px && r.paragraph_gap_px == args.paragraph_gap_px,
            r.justify_enabled == args.justify_enabled,
            r.justify_strategy@ == justification_strategy_name(args.justify_strategy),
            r.object_cover_page_mode@ == cover_page_mode_name(args.cover_page_mode),
            r.justify_min_words == args.justify_min_words,
            r.widow_orphan_enabled == args.widow_orphan_enabled && r.widow_orphan_min_lines
                == args.widow_orphan_min_lines,
            r.hanging_punctuation_enabled == args.hanging_punctuation_enabled,
            r.max_image_bytes == args.max_image_bytes && r.max_font_bytes == args.max_font_bytes,
            fixed_defaults_hold(r),
    {
        let d = Self::defaults();
        RenderUiSettings {
            chapter: args.chapter,
            start_page: args.start_page,
            pages_per_chapter: args.pages_per_chapter,
            display_width: args.display_width,
            display_height: args.display_height,
            margin_left: args.margin_left,
            margin_right: args.margin_right,
            margin_top: args.margin_top,
            margin_bottom: args.margin_bottom,
            line_gap_px: args.line_gap_px,
            paragraph_gap_px: args.paragraph_gap_px,
            justify_enabled: args.justify_enabled,
            justify_strategy: justification_strategy_to_string(args.justify_strategy).to_owned(),
            object_cover_page_mode: cover_page_mode_to_string(args.cover_page_mode).to_owned(),
            justify_min_words: args.justify_min_words,
            widow_orphan_enabled: args.widow_orphan_enabled,
            widow_orphan_min_lines: args.widow_orphan_min_lines,
            hanging_punctuation_enabled: args.hanging_punctuation_enabled,
            max_image_bytes: args.max_image_bytes,
            max_font_bytes: args.max_font_bytes,
            ..d
        }
    }
}

/// Engine settings the render panel chooses that hold no floating-point
/// value: layout sizes, typography switches, object handling, render intent,
/// page chrome and resource limits, with every keyword parsed.
#[derive(Clone, Copy, Debug, PartialEq, Eq)]
pub struct EngineSettings {
    pub display_width: i32,
    pub display_height: i32,
    pub margin_left: i32,
    pub margin_right: i32,
    pub margin_top: i32,
    pub margin_bottom: i32,
    pub line_gap_px: i32,
    pub paragraph_gap_px: i32,
    pub heading_gap_px: i32,
    pub heading_keep_with_next_lines: u8,
    pub list_indent_px: i32,
    pub first_line_indent_px: i32,
    pub suppress_indent_after_heading: bool,
    pub justify_min_words: usize,
    pub min_line_height_px: i32,
    pub max_line_height_px: i32,
    pub soft_hyphen_policy: SoftHyphenPolicy,
    pub hyphenation: HyphenationConfig,
    pub widow_orphan_control: WidowOrphanControl,
    pub justify_enabled: bool,
    pub justify_strategy: JustificationStrategy,
    pub hanging_punctuation: HangingPunctuationConfig,
    pub cover_page_mode: CoverPageMode,
    pub float_support: FloatSupport,
    pub svg_mode: SvgMode,
    pub alt_text_fallback: bool,
    pub render_intent: RenderIntent,
    pub page_chrome: PageChromeConfig,
    pub style_max_selectors: usize,
    pub style_max_css_bytes: usize,
    pub style_max_nesting: usize,
    pub font_limit_max_faces: usize,
    pub font_limit_max_bytes_per_font: usize,
    pub font_limit_max_total_font_bytes: usize,
    pub memory_max_entry_bytes: usize,
    pub memory_max_css_bytes: usize,
    pub memory_max_nav_bytes: usize,
    pub memory_max_inline_style_bytes: usize,
    pub memory_max_pages_in_memory: usize,
}

/// A `u32` read as the `i32` with the same bits (`as i32`).
pub open spec fn wrap_to_i32(v: u32) -> int {
    if v <= i32::MAX {
        v as int
    } else {
        v - 0x1_0000_0000
    }
}

fn wrap_to_i32_exec(v: u32) -> (r: i32)
    ensures
        r == wrap_to_i32(v),
{
    if v <= 0x7fff_ffff {
        v as i32
    } else {
        let low: u32 = v - 0x8000_0000;
        (low as i32) - 0x7fff_ffff - 1
    }
}

/// Engine settings chosen by render-panel settings: sizes copied (the
/// display size read as `i32`), keywords parsed as the panel's parsers read
/// them.
pub open spec fn engine_settings_for(s: RenderUiSettings) -> EngineSettings {
    EngineSettings {
        display_width: wrap_to_i32(s.display_width) as i32,
        display_height: wrap_to_i32(s.display_height) as i32,
        margin_left: s.margin_left,
        margin_right: s.margin_right,
        margin_top: s.margin_top,
        margin_bottom: s.margin_bottom,
        line_gap_px: s.line_gap_px,
        paragraph_gap_px: s.paragraph_gap_px,
        heading_gap_px: s.heading_gap_px,
        heading_keep_with_next_lines: s.heading_keep_with_next_lines,
        list_indent_px: s.list_indent_px,
        first_line_indent_px: s.first_line_indent_px,
        suppress_indent_after_heading: s.suppress_indent_after_heading,
        justify_min_words: s.justify_min_words,
        min_line_height_px: s.min_line_height_px,
        max_line_height_px: s.max_line_height_px,
        soft_hyphen_policy: soft_hyphen_policy_for(trim_lower(s.soft_hyphen_policy@)),
        hyphenation: HyphenationConfig {
            soft_hyphen_policy: hyphenation_mode_for(trim_lower(s.hyphenation_mode@)),
        },
        widow_orphan_control: WidowOrphanControl {
            min_lines: s.widow_orphan_min_lines,
            enabled: s.widow_orphan_enabled,
        },
        justify_enabled: s.justify_enabled,
        justify_strategy: justification_strategy_for(trim_lower(s.justify_strategy@)),
        hanging_punctuation: HangingPunctuationConfig { enabled: s.hanging_punctuation_enabled },
        cover_page_mode: cover_page_mode_for(trim_lower(s.object_cover_page_mode@)),
        float_support: float_support_for(trim_lower(s.object_float_support@)),
        svg_mode: svg_mode_for(trim_lower(s.object_svg_mode@)),
        alt_text_fallback: s.object_alt_text_fallback,
        render_intent: RenderIntent {
            grayscale_mode: grayscale_mode_for(trim_lower(s.render_grayscale_mode@)),
            dither: dither_mode_for(trim_lower(s.render_dither_mode@)),
            contrast_boost: s.render_contrast_boost,
        },
        page_chrome: PageChromeConfig {
            header_enabled: s.page_chrome_header_enabled,
            footer_enabled: s.page_chrome_footer_enabled,
            progress_enabled: s.page_chrome_progress_enabled,
            header_x: s.page_chrome_header_x,
            header_baseline_y: s.page_chrome_header_baseline_y,
            header_style: chrome_text_style_for(trim_lower(s.page_chrome_header_style@)),
            footer_x: s.page_chrome_footer_x,
            footer_baseline_from_bottom: s.page_chrome_footer_baseline_from_bottom,
            footer_style: chrome_text_style_for(trim_lower(s.page_chrome_footer_style@)),
            progress_x_inset: s.page_chrome_progress_x_inset,
            progress_y_from_bottom: s.page_chrome_progress_y_from_bottom,
            progress_height: s.page_chrome_progress_height,
            progress_stroke_width: s.page_chrome_progress_stroke_width,
        },
        style_max_selectors: s.style_max_selectors,
        style_max_css_bytes: s.style_max_css_bytes,
        style_max_nesting: s.style_max_nesting,
        font_limit_max_faces: s.font_limit_max_faces,
        font_limit_max_bytes_per_font: s.font_limit_max_bytes_per_font,
        font_limit_max_total_font_bytes: s.font_limit_max_total_font_bytes,
        memory_max_entry_bytes: s.memory_max_entry_bytes,
        memory_max_css_bytes: s.memory_max_css_bytes,
        memory_max_nav_bytes: s.memory_max_nav_bytes,
        memory_max_inline_style_bytes: s.memory_max_inline_style_bytes,
        memory_max_pages_in_memory: s.memory_max_pages_in_memory,
    }
}

impl RenderUiSettings {
    /// Engine settings these panel settings choose (see
    /// [`engine_settings_for`]).
    pub fn engine_settings(&self) -> (r: EngineSettings)
        ensures
            r == engine_settings_for(*self),
    {
        EngineSettings {
            display_width: wrap_to_i32_exec(self.display_width),
            display_height: wrap_to_i32_exec(self.display_height),
            margin_left: self.margin_left,
            margin_right: self.margin_right,
            margin_top: self.margin_top,
            margin_bottom: self.margin_bottom,
            line_gap_px: self.line_gap_px,
            paragraph_gap_px: self.paragraph_gap_px,
            heading_gap_px: self.heading_gap_px,
            heading_keep_with_next_lines: self.heading_keep_with_next_lines,
            list_indent_px: self.list_indent_px,
            first_line_indent_px: self.first_line_indent_px,
            suppress_indent_after_heading: self.suppress_indent_after_heading,
            justify_min_words: self.justify_min_words,
            min_line_height_px: self.min_line_height_px,
            max_line_height_px: self.max_line_height_px,
            soft_hyphen_policy: parse_soft_hyphen_policy(self.soft_hyphen_policy.as_str()),
            hyphenation: HyphenationConfig {
                soft_hyphen_policy: parse_hyphenation_mode(self.hyphenation_mode.as_str()),
            },
            widow_orphan_control: WidowOrphanControl {
                min_lines: self.widow_orphan_min_lines,
                enabled: self.widow_orphan_enabled,
            },
            justify_enabled: self.justify_enabled,
            justify_strategy: parse_justification_strategy(self.justify_strategy.as_str()),
            hanging_punctuation: HangingPunctuationConfig {
                enabled: self.hanging_punctuation_enabled,
            },
            cover_page_mode: parse_cover_page_mode(self.object_cover_page_mode.as_str()),
            float_support: parse_float_support(self.object_float_support.as_str()),
            svg_mode: parse_svg_mode(self.object_svg_mode.as_str()),
            alt_text_fallback: self.object_alt_text_fallback,
            render_intent: RenderIntent {
                grayscale_mode: parse_grayscale_mode(self.render_grayscale_mode.as_str()),
                dither: parse_dither_mode(self.render_dither_mode.as_str()),
                contrast_boost: self.render_contrast_boost,
            },
            page_chrome: PageChromeConfig {
                header_enabled: self.page_chrome_header_enabled,
                footer_enabled: self.page_chrome_footer_enabled,
                progress_enabled: self.page_chrome_progress_enabled,
                header_x: self.page_chrome_header_x,
                header_baseline_y: self.page_chrome_header_baseline_y,
                header_style: parse_chrome_text_style(self.page_chrome_header_style.as_str()),
                footer_x: self.page_chrome_footer_x,
                footer_baseline_from_bottom: self.page_chrome_footer_baseline_from_bottom,
                footer_style: parse_chrome_text_style(self.page_chrome_footer_style.as_str()),
                progress_x_inset: self.page_chrome_progress_x_inset,
                progress_y_from_bottom: self.page_chrome_progress_y_from_bottom,
                progress_height: self.page_chrome_progress_height,
                progress_stroke_width: self.page_chrome_progress_stroke_width,
            },
            style_max_selectors: self.style_max_selectors,
            style_max_css_bytes: self.style_max_css_bytes,
            style_max_nesting: self.style_max_nesting,
            font_limit_max_faces: self.font_limit_max_faces,
            font_limit_max_bytes_per_font: self.font_limit_max_bytes_per_font,
            font_limit_max_total_font_bytes: self.font_limit_max_total_font_bytes,
            memory_max_entry_bytes: self.memory_max_entry_bytes,
            memory_max_css_bytes: self.memory_max_css_bytes,
            memory_max_nav_bytes: self.memory_max_nav_bytes,
            memory_max_inline_style_bytes: self.memory_max_inline_style_bytes,
            memory_max_pages_in_memory: self.memory_max_pages_in_memory,
        }
    }
}

/// Normalised settings lie in their ranges and keep what already does: each
/// clamped size is the nearest value in its range, each lower-bounded count
/// is raised to its minimum only when below it, line heights are ordered
/// within `4..=768` (minimum at most 512), keywords come out in canonical
/// form, and a blank UI family becomes `auto`.
pub proof fn law_normalized_settings_ranges(s: RenderUiSettings, n: RenderUiSettings)
    requires
        normalized_from(s, n),
    ensures
        64 <= n.display_width <= 4096,
        64 <= s.display_width <= 4096 ==> n.display_width == s.display_width,
        s.display_width < 64 ==> n.display_width == 64,
        s.display_width > 4096 ==> n.display_width == 4096,
        64 <= n.display_height <= 4096,
        64 <= s.display_height <= 4096 ==> n.display_height == s.display_height,
        s.display_height < 64 ==> n.display_height == 64,
        s.display_height > 4096 ==> n.display_height == 4096,
        10 <= n.render_contrast_boost <= 255,
        10 <= s.render_contrast_boost <= 255 ==> n.render_contrast_boost == s.render_contrast_boost,
        s.render_contrast_boost < 10 ==> n.render_contrast_boost == 10,
        s.render_contrast_boost > 255 ==> n.render_contrast_boost == 255,
        s.heading_keep_with_next_lines >= 1 ==> n.heading_keep_with_next_lines == s.heading_keep_with_next_lines,
        s.heading_keep_with_next_lines < 1 ==> n.heading_keep_with_next_lines == 1,
        s.justify_min_words >= 1 ==> n.justify_min_words == s.justify_min_words,
        s.justify_min_words < 1 ==> n.justify_min_words == 1,
        s.widow_orphan_min_lines >= 1 ==> n.widow_orphan_min_lines == s.widow_orphan_min_lines,
        s.widow_orphan_min_lines < 1 ==> n.widow_orphan_min_lines == 1,
        s.page_chrome_progress_height >= 1 ==> n.page_chrome_progress_height == s.page_chrome_progress_height,
        s.page_chrome_progress_height < 1 ==> n.page_chrome_progress_height == 1,
        s.page_chrome_progress_stroke_width >= 1 ==> n.page_chrome_progress_stroke_width == s.page_chrome_progress_stroke_width,
        s.page_chrome_progress_stroke_width < 1 ==> n.page_chrome_progress_stroke_width == 1,
        s.max_image_bytes >= 1024 ==> n.max_image_bytes == s.max_image_bytes,
        s.max_image_bytes < 1024 ==> n.max_image_bytes == 1024,
        s.max_font_bytes >= 1024 ==> n.max_font_bytes == s.max_font_bytes,
        s.max_font_bytes < 1024 ==> n.max_font_bytes == 1024,
        s.style_max_selectors >= 1 ==> n.style_max_selectors == s.style_max_selectors,
        s.style_max_selectors < 1 ==> n.style_max_selectors == 1,
        s.style_max_css_bytes >= 1024 ==> n.style_max_css_bytes == s.style_max_css_bytes,
        s.style_max_css_bytes < 1024 ==> n.style_max_css_bytes == 1024,
        s.style_max_nesting >= 1 ==> n.style_max_nesting == s.style_max_nesting,
        s.style_max_nesting < 1 ==> n.style_max_nesting == 1,
        s.font_limit_max_faces >= 1 ==> n.font_limit_max_faces == s.font_limit_max_faces,
        s.font_limit_max_faces < 1 ==> n.font_limit_max_faces == 1,
        s.font_limit_max_bytes_per_font >= 1024 ==> n.font_limit_max_bytes_per_font == s.font_limit_max_bytes_per_font,
        s.font_limit_max_bytes_per_font < 1024 ==> n.font_limit_max_bytes_per_font == 1024,
        s.font_limit_max_total_font_bytes >= 1024 ==> n.font_limit_max_total_font_bytes == s.font_limit_max_total_font_bytes,
        s.font_limit_max_total_font_bytes < 1024 ==> n.font_limit_max_total_font_bytes == 1024,
        s.memory_max_entry_bytes >= 1024 ==> n.memory_max_entry_bytes == s.memory_max_entry_bytes,
        s.memory_max_entry_bytes < 1024 ==> n.memory_max_entry_bytes == 1024,
        s.memory_max_css_bytes >= 1024 ==> n.memory_max_css_bytes == s.memory_max_css_bytes,
        s.memory_max_css_bytes < 1024 ==> n.memory_max_css_bytes == 1024,
        s.memory_max_nav_bytes >= 1024 ==> n.memory_max_nav_bytes == s.memory_max_nav_bytes,
        s.memory_max_nav_bytes < 1024 ==> n.memory_max_nav_bytes == 1024,
        s.memory_max_inline_style_bytes >= 256 ==> n.memory_max_inline_style_bytes == s.memory_max_inline_style_bytes,
        s.memory_max_inline_style_bytes < 256 ==> n.memory_max_inline_style_bytes == 256,
        s.memory_max_pages_in_memory >= 1 ==> n.memory_max_pages_in_memory == s.memory_max_pages_in_memory,
        s.memory_max_pages_in_memory < 1 ==> n.memory_max_pages_in_memory == 1,
        4 <= n.min_line_height_px <= n.max_line_height_px <= 768,
        n.min_line_height_px <= 512,
        4 <= s.min_line_height_px <= s.max_line_height_px <= 512 ==> n.min_line_height_px == s.min_line_height_px && n.max_line_height_px == s.max_line_height_px,
        n.justify_strategy@ == "adaptive-inter-word"@ || n.justify_strategy@ == "full-inter-word"@ || n.justify_strategy@ == "align-left"@ || n.justify_strategy@ == "align-right"@ || n.justify_strategy@ == "align-center"@,
        n.object_cover_page_mode@ == "contain"@ || n.object_cover_page_mode@ == "full-bleed"@ || n.object_cover_page_mode@ == "respect-css"@,
        trim_seq(s.ui_font_family@).len() == 0 ==> n.ui_font_family@ == "auto"@,
        trim_seq(s.ui_font_family@).len() > 0 ==> n.ui_font_family@ == trim_seq(s.ui_font_family@),
{
}

} // verus!
