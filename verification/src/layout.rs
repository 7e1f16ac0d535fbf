use vstd::prelude::*;

use crate::graphics::{count_spaces, space_count};
use crate::hyphenation::{ends_terminal, ends_with_terminal_punctuation};
use crate::preview::trimmed;
use crate::render_ir::{JustifyMode, RectCommand};
use crate::paths::{last_index_exec, last_index_of, lemma_last_index_bounds};
use crate::text::{
    char_is_ws, chars_of, first_non_ws_from, is_ws, string_from_chars, trim_seq, trimmed_end_from,
};

verus! {

// Decisions of the page layout that do not measure text: where a line or an
// image block goes, whether a line is justified, and where the cursor moves.
// Widths measured in floating point come in as their integer results.

/// Number of words of `s`: maximal runs of non-whitespace characters.
pub open spec fn word_count(s: Seq<char>) -> int
    decreases s.len(),
{
    if s.len() == 0 {
        0
    } else {
        word_count(s.drop_last()) + if !is_ws(s.last()) && (s.len() == 1 || is_ws(
            s[s.len() - 2],
        )) {
            1int
        } else {
            0int
        }
    }
}

proof fn lemma_word_count_bound(s: Seq<char>)
    ensures
        0 <= word_count(s) <= s.len(),
    decreases s.len(),
{
    if s.len() > 0 {
        lemma_word_count_bound(s.drop_last());
    }
}

/// Number of whitespace-separated words of `text`.
pub fn count_words(text: &str) -> (r: usize)
    ensures
        r == word_count(text@),
{
    let v = chars_of(text);
    let mut n: usize = 0;
    let mut i: usize = 0;
    while i < v.len()
        invariant
            i <= v.len(),
            v@ == text@,
            n == word_count(v@.take(i as int)),
        decreases v.len() - i,
    {
        proof {
            lemma_word_count_bound(v@.take(i as int));
            let t = v@.take(i + 1);
            assert(t.drop_last() =~= v@.take(i as int));
            assert(t.last() == v@[i as int]);
            if i > 0 {
                assert(t[t.len() - 2] == v@[i - 1]);
            }
        }
        if !char_is_ws(v[i]) && (i == 0 || char_is_ws(v[i - 1])) {
            n += 1;
        }
        i += 1;
    }
    assert(v@.take(v.len() as int) =~= v@);
    n
}

/// `max(v, lo)`.
pub open spec fn at_least(v: int, lo: int) -> int {
    if v < lo {
        lo
    } else {
        v
    }
}

/// `min(a, b)`.
pub open spec fn at_most(v: int, hi: int) -> int {
    if v > hi {
        hi
    } else {
        v
    }
}

/// `a * b` saturating to the `i32` range.
pub open spec fn sat_mul_i32(a: int, b: int) -> int {
    if a * b > i32::MAX {
        i32::MAX as int
    } else if a * b < i32::MIN {
        i32::MIN as int
    } else {
        a * b
    }
}

/// Baseline offset of a line: the approximate ascent kept within
/// `1..=max(line_height - 1, 1)`.
pub open spec fn clamped_ascent(ascent_px: int, line_height_px: int) -> int {
    let hi = at_least(if line_height_px - 1 < i32::MIN { i32::MIN as int } else { line_height_px - 1 }, 1);
    at_most(at_least(ascent_px, 1), hi)
}

fn clamp_ascent(ascent_px: i32, line_height_px: i32) -> (r: i32)
    ensures
        r == clamped_ascent(ascent_px as int, line_height_px as int),
        1 <= r,
{
    let hi: i32 = if line_height_px <= 1 {
        1
    } else {
        line_height_px - 1
    };
    let lo_clamped = if ascent_px < 1 {
        1
    } else {
        ascent_px
    };
    if lo_clamped > hi {
        hi
    } else {
        lo_clamped
    }
}

/// Whether `v` fits in an `i32`.
pub open spec fn i32_range(v: int) -> bool {
    i32::MIN <= v <= i32::MAX
}

/// Whether a line whose top is `y` has its bottom, next cursor and baseline
/// within the `i32` range.
pub open spec fn line_fits_i32(y: int, line_height_px: int, line_gap_px: int, ascent_px: int) -> bool {
    &&& i32_range(y + line_height_px)
    &&& i32_range(y + line_height_px + line_gap_px)
    &&& i32_range(y + clamped_ascent(ascent_px, line_height_px))
}

/// Where a finished line goes.
#[derive(Clone, Copy, Debug, PartialEq, Eq)]
pub struct LinePlacement {
    /// Start a new page before the line.
    pub break_before: bool,
    /// Left edge of the text.
    pub x: i32,
    /// Top of the line.
    pub y: i32,
    /// Baseline of the text.
    pub baseline_y: i32,
    /// Cursor after the line and its gap.
    pub next_cursor_y: i32,
}

/// Whether a line of `words` words starts a new page: it does not fit below
/// the cursor, or it is a short line (two words at most) that is not the
/// block's last, on a page that has content, and would leave less than one
/// more line of room.
pub open spec fn line_breaks_page(
    cursor_y: int,
    line_height_px: int,
    content_bottom: int,
    line_gap_px: int,
    page_has_content: bool,
    words: int,
    is_last_in_block: bool,
) -> bool {
    ||| cursor_y + line_height_px > content_bottom
    ||| (words <= 2 && !is_last_in_block && page_has_content && content_bottom - (cursor_y
        + line_height_px + at_least(line_gap_px, 0)) < line_height_px)
}

/// Places a finished line of `text`: a new page when
/// [`line_breaks_page`] says so (the cursor then moves to `margin_top`), the
/// text at `margin_left + left_inset_px` with its baseline the clamped
/// ascent below the line top, and the cursor one line and gap further down.
pub fn plan_line_placement(
    cursor_y: i32,
    line_height_px: i32,
    content_bottom: i32,
    margin_top: i32,
    line_gap_px: i32,
    page_has_content: bool,
    text: &str,
    is_last_in_block: bool,
    margin_left: i32,
    left_inset_px: i32,
    ascent_px: i32,
) -> (p: LinePlacement)
    requires
        i32_range(cursor_y + line_height_px + at_least(line_gap_px as int, 0)),
        i32_range(content_bottom - (cursor_y + line_height_px + at_least(line_gap_px as int, 0))),
        line_fits_i32(cursor_y as int, line_height_px as int, line_gap_px as int, ascent_px as int),
        line_fits_i32(margin_top as int, line_height_px as int, line_gap_px as int, ascent_px as int),
        i32_range(margin_left + left_inset_px),
    ensures
        p.break_before == line_breaks_page(
            cursor_y as int,
            line_height_px as int,
            content_bottom as int,
            line_gap_px as int,
            page_has_content,
            word_count(text@),
            is_last_in_block,
        ),
        p.y == (if p.break_before {
            margin_top
        } else {
            cursor_y
        }),
        p.x == margin_left + left_inset_px,
        p.baseline_y == p.y + clamped_ascent(ascent_px as int, line_height_px as int),
        p.next_cursor_y == p.y + line_height_px + line_gap_px,
{
    let words = count_words(text);
    let gap = if line_gap_px < 0 {
        0
    } else {
        line_gap_px
    };
    let break_before = cursor_y + line_height_px > content_bottom || (words <= 2
        && !is_last_in_block && page_has_content && content_bottom - (cursor_y + line_height_px
        + gap) < line_height_px);
    let y = if break_before {
        margin_top
    } else {
        cursor_y
    };
    let ascent = clamp_ascent(ascent_px, line_height_px);
    assert(ascent <= at_least(line_height_px - 1, 1));
    LinePlacement {
        break_before,
        x: margin_left + left_inset_px,
        y,
        baseline_y: y + ascent,
        next_cursor_y: y + line_height_px + line_gap_px,
    }
}

/// Whether a line is justified, and by how much: only when justification is
/// on, the line is body text, it is neither the block's last line nor ended
/// by an explicit break, it has at least `min_words` words and a space, it
/// is full enough (`fill_ok`), it does not end with closing punctuation, and
/// the extra width, capped at `max_extra_per_space` per space, is positive.
pub open spec fn line_justification(
    text: Seq<char>,
    justify_enabled: bool,
    body_role: bool,
    is_last_in_block: bool,
    hard_break: bool,
    min_words: int,
    fill_ok: bool,
    extra_px: int,
    max_extra_per_space: int,
) -> JustifyMode {
    let spaces = space_count(text);
    let capped = at_most(extra_px, sat_mul_i32(spaces, max_extra_per_space));
    if justify_enabled && body_role && !is_last_in_block && !hard_break && word_count(text)
        >= min_words && spaces > 0 && fill_ok && !ends_terminal(text) && capped > 0 {
        JustifyMode::InterWord { extra_px_total: capped as i32 }
    } else {
        JustifyMode::NoJustify
    }
}

/// Justification of a finished line of `text` (see [`line_justification`]).
/// `fill_ok` is whether the measured width fills enough of the available
/// width, `extra_px` the unfilled width and `max_extra_per_space` the
/// largest extra gap per space, all measured by the caller.
pub fn plan_line_justification(
    text: &str,
    justify_enabled: bool,
    body_role: bool,
    is_last_in_block: bool,
    hard_break: bool,
    min_words: usize,
    fill_ok: bool,
    extra_px: i32,
    max_extra_per_space: i32,
) -> (r: JustifyMode)
    requires
        text@.len() <= i32::MAX,
    ensures
        r == line_justification(
            text@,
            justify_enabled,
            body_role,
            is_last_in_block,
            hard_break,
            min_words as int,
            fill_ok,
            extra_px as int,
            max_extra_per_space as int,
        ),
{
    if !(justify_enabled && body_role && !is_last_in_block && !hard_break) {
        return JustifyMode::NoJustify;
    }
    let words = count_words(text);
    let spaces_n = count_spaces(text);
    if words < min_words || spaces_n == 0 || !fill_ok {
        return JustifyMode::NoJustify;
    }
    proof {
        lemma_space_count_bound(text@);
    }
    let spaces: i32 = if spaces_n > 2147483647usize {
        2147483647i32
    } else {
        spaces_n as i32
    };
    assert(-4611686018427387904 <= spaces as int * max_extra_per_space as int
        <= 4611686018427387904) by (nonlinear_arith)
        requires
            0 <= spaces <= i32::MAX,
            i32::MIN <= max_extra_per_space <= i32::MAX,
    ;
    let wide: i64 = spaces as i64 * max_extra_per_space as i64;
    let max_total: i32 = if wide > 2147483647i64 {
        2147483647i32
    } else if wide < -2147483648i64 {
        -2147483648i32
    } else {
        wide as i32
    };
    assert(spaces == space_count(text@));
    let capped = if extra_px > max_total {
        max_total
    } else {
        extra_px
    };
    if ends_with_terminal_punctuation(text) || capped <= 0 {
        JustifyMode::NoJustify
    } else {
        JustifyMode::InterWord { extra_px_total: capped }
    }
}

proof fn lemma_space_count_bound(s: Seq<char>)
    ensures
        0 <= space_count(s) <= s.len(),
    decreases s.len(),
{
    if s.len() > 0 {
        lemma_space_count_bound(s.drop_last());
    }
}

/// An explicit line break or a block's last line is never justified.
pub proof fn law_closing_lines_are_not_justified(
    text: Seq<char>,
    justify_enabled: bool,
    body_role: bool,
    is_last_in_block: bool,
    hard_break: bool,
    min_words: int,
    fill_ok: bool,
    extra_px: int,
    max_extra_per_space: int,
)
    requires
        is_last_in_block || hard_break,
    ensures
        line_justification(
            text,
            justify_enabled,
            body_role,
            is_last_in_block,
            hard_break,
            min_words,
            fill_ok,
            extra_px,
            max_extra_per_space,
        ) == JustifyMode::NoJustify,
{
}

/// Where an inline image block goes and what it draws.
#[derive(Clone, Debug, PartialEq, Eq)]
pub struct ImageBlockPlan {
    /// Width of the image box.
    pub image_w: i32,
    /// Height of the image box.
    pub image_h: i32,
    /// Alt-text caption shown under the box.
    pub caption: Option<String>,
    /// Height of the box, the caption gap and the caption line.
    pub block_h: i32,
    /// Start a new page before the block.
    pub new_page: bool,
    /// Left edge of the box (centred in the content width).
    pub x: i32,
    /// Top of the box.
    pub y: i32,
    /// Outline of the box.
    pub outline: RectCommand,
    /// Filled strip along the top of the box.
    pub header_strip: RectCommand,
    /// Record the image source as a page annotation.
    pub annotate_src: bool,
    /// Left edge of the caption text.
    pub caption_x: i32,
    /// Baseline of the caption text.
    pub caption_baseline_y: i32,
    /// Width the caption is truncated to.
    pub caption_max_w: i32,
    /// Cursor after the block and its paragraph gap.
    pub next_cursor_y: i32,
}

/// Alt text shown as a caption: the trimmed alt when the fallback is on and
/// it is not blank.
pub open spec fn image_caption(alt: Seq<char>, alt_text_fallback: bool) -> Option<Seq<char>> {
    if alt_text_fallback && trim_seq(alt).len() > 0 {
        Some(trim_seq(alt))
    } else {
        None
    }
}

/// Height of an inline image box: the scaled height kept within `max_h` and
/// at least 18.
pub open spec fn image_box_h(scaled_h: int, max_h: int) -> int {
    at_least(at_most(scaled_h, max_h), 18)
}

/// Whether every position an image block computes fits in an `i32`, with or
/// without a caption and on either page.
pub open spec fn image_block_fits_i32(
    cursor_y: int,
    margin_left: int,
    margin_top: int,
    content_w: int,
    scaled_w: int,
    scaled_h: int,
    max_h: int,
    caption_line_h: int,
    caption_ascent_px: int,
    paragraph_gap_px: int,
) -> bool {
    let w = at_most(scaled_w, content_w);
    let h = image_box_h(scaled_h, max_h);
    &&& i32_range(h + 6) && i32_range(h + 6 + caption_line_h)
    &&& i32_range(cursor_y + h) && i32_range(cursor_y + h + 6 + caption_line_h)
    &&& i32_range(content_w - w)
    &&& i32_range(margin_left + (content_w - w) / 2 + 1)
    &&& i32_range(w - 2)
    &&& i32_range(margin_left + 4)
    &&& i32_range(content_w - 8)
    &&& image_rows_fit_i32(cursor_y, h, caption_line_h, caption_ascent_px, paragraph_gap_px)
    &&& image_rows_fit_i32(margin_top, h, caption_line_h, caption_ascent_px, paragraph_gap_px)
}

/// Whether the rows of an image block whose top is `y` fit in an `i32`.
pub open spec fn image_rows_fit_i32(y: int, h: int, caption_line_h: int, caption_ascent_px: int, paragraph_gap_px: int) -> bool {
    &&& i32_range(y + 1)
    &&& i32_range(y + h) && i32_range(y + h + 6) && i32_range(y + h + 6 + caption_line_h)
    &&& i32_range(y + h + 6 + clamped_ascent(caption_ascent_px, caption_line_h))
    &&& i32_range(y + h + at_least(paragraph_gap_px, 4))
    &&& i32_range(y + h + 6 + caption_line_h + at_least(paragraph_gap_px, 4))
}

/// Whether the image block starts a new page: it does not fit below the
/// cursor.
pub open spec fn image_moves_to_next_page(cursor_y: int, block_h: int, content_bottom: int) -> bool {
    cursor_y + block_h > content_bottom
}

/// Places an inline image block. `content_w` is the content width (at
/// least 8), `scaled_w`/`scaled_h` the image size scaled to fit, `max_h` the
/// tallest an inline image may be, `caption_line_h` and `caption_ascent_px`
/// the caption style's line height and approximate ascent, and
/// `header_strip_h` the height of the strip along the box's top; these are
/// measured by the caller. The box is the scaled size kept within
/// `content_w` and `max_h` and at least 18 high; a caption adds a 6 px gap
/// and one line; a block that does not fit starts a new page at
/// `margin_top`; the box is centred; the cursor ends below the block and a
/// paragraph gap of at least 4.
pub fn plan_inline_image_block(
    cursor_y: i32,
    margin_left: i32,
    margin_top: i32,
    content_bottom: i32,
    content_w: i32,
    scaled_w: i32,
    scaled_h: i32,
    max_h: i32,
    alt: &str,
    alt_text_fallback: bool,
    caption_line_h: i32,
    caption_ascent_px: i32,
    header_strip_h: u32,
    paragraph_gap_px: i32,
    has_src: bool,
) -> (p: ImageBlockPlan)
    requires
        image_block_fits_i32(
            cursor_y as int,
            margin_left as int,
            margin_top as int,
            content_w as int,
            scaled_w as int,
            scaled_h as int,
            max_h as int,
            caption_line_h as int,
            caption_ascent_px as int,
            paragraph_gap_px as int,
        ),
    ensures
        p.image_w == at_most(scaled_w as int, content_w as int),
        p.image_h == at_least(at_most(scaled_h as int, max_h as int), 18),
        match p.caption {
            Some(c) => image_caption(alt@, alt_text_fallback) == Some(c@),
            None => image_caption(alt@, alt_text_fallback) is None,
        },
        p.block_h == p.image_h + (if p.caption is Some {
            6 + caption_line_h
        } else {
            0
        }),
        p.new_page == image_moves_to_next_page(cursor_y as int, p.block_h as int, content_bottom as int),
        p.y == (if p.new_page {
            margin_top
        } else {
            cursor_y
        }),
        p.x == margin_left + (content_w - p.image_w) / 2,
        p.outline == (RectCommand {
            x: p.x,
            y: p.y,
            width: at_least(p.image_w as int, 1) as u32,
            height: at_least(p.image_h as int, 1) as u32,
            fill: false,
        }),
        p.header_strip == (RectCommand {
            x: (p.x + 1) as i32,
            y: (p.y + 1) as i32,
            width: at_least(p.image_w - 2, 1) as u32,
            height: header_strip_h,
            fill: true,
        }),
        p.annotate_src == has_src,
        p.caption_x == margin_left + 4,
        p.caption_baseline_y == p.y + p.image_h + 6 + clamped_ascent(
            caption_ascent_px as int,
            caption_line_h as int,
        ),
        p.caption_max_w == at_least(content_w - 8, 1),
        p.next_cursor_y == p.y + p.block_h + at_least(paragraph_gap_px as int, 4),
{
    let image_w = if scaled_w > content_w {
        content_w
    } else {
        scaled_w
    };
    let capped_h = if scaled_h > max_h {
        max_h
    } else {
        scaled_h
    };
    let image_h = if capped_h < 18 {
        18
    } else {
        capped_h
    };
    let caption = if alt_text_fallback {
        let t = trimmed(alt);
        if t.unicode_len() > 0 {
            Some(t.to_string())
        } else {
            None
        }
    } else {
        None
    };
    let block_h = if caption.is_some() {
        image_h + 6 + caption_line_h
    } else {
        image_h
    };
    let new_page = cursor_y + block_h > content_bottom;
    let y = if new_page {
        margin_top
    } else {
        cursor_y
    };
    let x = margin_left + (content_w - image_w) / 2;
    let outline = RectCommand {
        x,
        y,
        width: (if image_w < 1 {
            1
        } else {
            image_w
        }) as u32,
        height: (if image_h < 1 {
            1
        } else {
            image_h
        }) as u32,
        fill: false,
    };
    let strip_w = if image_w - 2 < 1 {
        1
    } else {
        image_w - 2
    };
    let header_strip = RectCommand { x: x + 1, y: y + 1, width: strip_w as u32, height: header_strip_h, fill: true };
    let ascent = clamp_ascent(caption_ascent_px, caption_line_h);
    let para_gap = if paragraph_gap_px < 4 {
        4
    } else {
        paragraph_gap_px
    };
    ImageBlockPlan {
        image_w,
        image_h,
        caption,
        block_h,
        new_page,
        x,
        y,
        outline,
        header_strip,
        annotate_src: has_src,
        caption_x: margin_left + 4,
        caption_baseline_y: y + image_h + 6 + ascent,
        caption_max_w: if content_w - 8 < 1 {
            1
        } else {
            content_w - 8
        },
        next_cursor_y: y + block_h + para_gap,
    }
}

/// `s` without trailing whitespace (`str::trim_end`).
pub open spec fn trim_end_seq(s: Seq<char>) -> Seq<char> {
    s.subrange(0, trimmed_end_from(s, 0, s.len() as int))
}

/// `s` without leading whitespace (`str::trim_start`).
pub open spec fn trim_start_seq(s: Seq<char>) -> Seq<char> {
    s.subrange(first_non_ws_from(s, 0), s.len() as int)
}

/// A line split at its last space into the text before it (trailing
/// whitespace dropped) and the word after it (leading whitespace dropped);
/// `None` when there is no space or either side is empty.
pub open spec fn last_word_split(s: Seq<char>) -> Option<(Seq<char>, Seq<char>)> {
    let k = last_index_of(s, ' ', s.len() as int);
    if k < 0 {
        None
    } else {
        let head = trim_end_seq(s.subrange(0, k));
        let tail = trim_start_seq(s.subrange(k + 1, s.len() as int));
        if head.len() == 0 || tail.len() == 0 {
            None
        } else {
            Some((head, tail))
        }
    }
}

/// Number of non-whitespace characters right before position `j`.
pub open spec fn word_len_before(s: Seq<char>, j: int) -> int
    decreases j,
{
    if j <= 0 || j > s.len() || is_ws(s[j - 1]) {
        0
    } else {
        1 + word_len_before(s, j - 1)
    }
}

/// Length in characters of the last whitespace-separated word of `s`.
pub open spec fn last_word_len(s: Seq<char>) -> int {
    word_len_before(s, trimmed_end_from(s, 0, s.len() as int))
}

/// Whether a line is worth rebalancing for quality: it has at least three
/// words and its last word has at most two characters.
pub open spec fn short_tail_line(s: Seq<char>) -> bool {
    word_count(s) >= 3 && last_word_len(s) <= 2
}

fn copy_range(v: &Vec<char>, lo: usize, hi: usize) -> (r: String)
    requires
        lo <= hi <= v.len(),
    ensures
        r@ == v@.subrange(lo as int, hi as int),
{
    let mut out: Vec<char> = Vec::new();
    let mut i = lo;
    while i < hi
        invariant
            lo <= i <= hi <= v.len(),
            out@ == v@.subrange(lo as int, i as int),
        decreases hi - i,
    {
        out.push(v[i]);
        i += 1;
        assert(out@ =~= v@.subrange(lo as int, i as int));
    }
    string_from_chars(&out)
}

/// Splits a line at its last space (see [`last_word_split`]), for moving
/// its last word to the next line.
pub fn split_last_word(text: &str) -> (r: Option<(String, String)>)
    ensures
        match last_word_split(text@) {
            Some((head, tail)) => r matches Some(p) && p.0@ == head && p.1@ == tail,
            None => r is None,
        },
{
    let v = chars_of(text);
    let n = v.len();
    proof {
        lemma_last_index_bounds(v@, ' ', n as int);
    }
    let k = match last_index_exec(&v, ' ', n) {
        Some(k) => k,
        None => return None,
    };
    let ghost h = v@.subrange(0, k as int);
    let ghost t = v@.subrange(k + 1, n as int);
    let mut e = k;
    while e > 0 && char_is_ws(v[e - 1])
        invariant
            e <= k < n,
            n == v@.len(),
            v@ == text@,
            h == v@.subrange(0, k as int),
            trimmed_end_from(h, 0, e as int) == trimmed_end_from(h, 0, k as int),
        decreases e,
    {
        assert(h[e - 1] == v@[e - 1]);
        e -= 1;
    }
    proof {
        if e > 0 {
            assert(h[e - 1] == v@[e - 1]);
        }
        assert(trimmed_end_from(h, 0, e as int) == e);
    }
    let mut lo = k + 1;
    while lo < n && char_is_ws(v[lo])
        invariant
            k + 1 <= lo <= n,
            k < n,
            n == v@.len(),
            v@ == text@,
            t == v@.subrange(k + 1, n as int),
            first_non_ws_from(t, lo - (k + 1)) == first_non_ws_from(t, 0),
        decreases n - lo,
    {
        assert(t[lo - (k + 1)] == v@[lo as int]);
        lo += 1;
    }
    proof {
        if lo < n {
            assert(t[lo - (k + 1)] == v@[lo as int]);
        }
        assert(first_non_ws_from(t, lo - (k + 1)) == lo - (k + 1));
    }
    if e == 0 || lo == n {
        assert(trim_end_seq(h).len() == 0 || trim_start_seq(t).len() == 0);
        return None;
    }
    let head = copy_range(&v, 0, e);
    let tail = copy_range(&v, lo, n);
    assert(head@ =~= trim_end_seq(h));
    assert(tail@ =~= trim_start_seq(t));
    Some((head, tail))
}

/// Whether a line has at least three words and a last word of at most two
/// characters (see [`short_tail_line`]).
pub fn has_short_tail(text: &str) -> (r: bool)
    ensures
        r == short_tail_line(text@),
{
    let words = count_words(text);
    let v = chars_of(text);
    let n = v.len();
    let mut e = n;
    while e > 0 && char_is_ws(v[e - 1])
        invariant
            e <= n,
            n == v@.len(),
            v@ == text@,
            trimmed_end_from(v@, 0, e as int) == trimmed_end_from(v@, 0, n as int),
        decreases e,
    {
        e -= 1;
    }
    let mut j = e;
    let mut len: usize = 0;
    while j > 0 && !char_is_ws(v[j - 1])
        invariant
            j <= e <= n,
            n == v@.len(),
            v@ == text@,
            len + j == e,
            word_len_before(v@, e as int) == len + word_len_before(v@, j as int),
        decreases j,
    {
        j -= 1;
        len += 1;
    }
    words >= 3 && len <= 2
}

/// A justified line gets a positive extra width no larger than the unfilled
/// width and no larger than the per-space cap times its spaces; a line
/// ending in closing punctuation, one that is not full enough, one without
/// spaces and one with fewer words than the minimum are never justified.
pub proof fn law_justification_bounds(
    text: Seq<char>,
    justify_enabled: bool,
    body_role: bool,
    is_last_in_block: bool,
    hard_break: bool,
    min_words: int,
    fill_ok: bool,
    extra_px: int,
    max_extra_per_space: int,
)
    ensures
        line_justification(text, justify_enabled, body_role, is_last_in_block, hard_break, min_words, fill_ok, extra_px, max_extra_per_space)
            matches JustifyMode::InterWord { extra_px_total: e } ==> 0 < e <= extra_px && e <= space_count(text) * max_extra_per_space,
        ends_terminal(text) || !fill_ok || space_count(text) == 0 || word_count(text) < min_words || !justify_enabled || !body_role
            ==> line_justification(text, justify_enabled, body_role, is_last_in_block, hard_break, min_words, fill_ok, extra_px, max_extra_per_space)
            == JustifyMode::NoJustify,
{
}

/// A line that does not fit below the cursor always starts a new page, a
/// line of three or more words never moves for lack of room after it, and
/// the block's last line moves only when it does not fit.
pub proof fn law_line_page_breaks(
    cursor_y: int,
    line_height_px: int,
    content_bottom: int,
    line_gap_px: int,
    page_has_content: bool,
    words: int,
    is_last_in_block: bool,
)
    ensures
        cursor_y + line_height_px > content_bottom ==> line_breaks_page(cursor_y, line_height_px, content_bottom, line_gap_px, page_has_content, words, is_last_in_block),
        cursor_y + line_height_px <= content_bottom && (words >= 3 || is_last_in_block || !page_has_content)
            ==> !line_breaks_page(cursor_y, line_height_px, content_bottom, line_gap_px, page_has_content, words, is_last_in_block),
{
}

} // verus!
