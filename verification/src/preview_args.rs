use vstd::prelude::*;

use crate::engine::decimal;

use crate::preview::{
    cover_page_mode_for, justification_strategy_for, parse_cover_page_mode,
    parse_justification_strategy,
};
use crate::render_ir::{CoverPageMode, JustificationStrategy};
use crate::text::{chars_of, str_eq, trim_lower};

verus! {

// ---------------------------------------------------------------------------
// Decimal integers, as `str::parse` reads them.
// ---------------------------------------------------------------------------

/// An ASCII decimal digit.
pub open spec fn is_digit(c: char) -> bool {
    '0' <= c && c <= '9'
}

/// Whether every character of `s` is a decimal digit.
pub open spec fn all_digits(s: Seq<char>) -> bool {
    forall|i: int| 0 <= i < s.len() ==> is_digit(#[trigger] s[i])
}

/// Value of a string of decimal digits.
pub open spec fn digits_value(s: Seq<char>) -> int
    decreases s.len(),
{
    if s.len() == 0 {
        0
    } else {
        digits_value(s.drop_last()) * 10 + ((s.last() as int) - ('0' as int))
    }
}

/// Digits of an unsigned literal: an optional leading `+` is dropped.
pub open spec fn unsigned_digits(s: Seq<char>) -> Seq<char> {
    if s.len() > 0 && s[0] == '+' {
        s.skip(1)
    } else {
        s
    }
}

/// An unsigned integer no larger than `max`, written as an optional `+` and at
/// least one decimal digit (`str::parse` for the unsigned types).
pub open spec fn parse_unsigned(s: Seq<char>, max: int) -> Option<int> {
    let d = unsigned_digits(s);
    if d.len() > 0 && all_digits(d) && digits_value(d) <= max {
        Some(digits_value(d))
    } else {
        None
    }
}

/// A value of `i32` written as an optional sign and at least one decimal digit
/// (`str::parse::<i32>`).
pub open spec fn parse_i32_text(s: Seq<char>) -> Option<int> {
    if s.len() > 0 && s[0] == '-' {
        let d = s.skip(1);
        if d.len() > 0 && all_digits(d) && digits_value(d) <= 0x8000_0000 {
            Some(-digits_value(d))
        } else {
            None
        }
    } else {
        parse_unsigned(s, 0x7fff_ffff)
    }
}

/// Value of `v[start..]` read as decimal digits, when they all are digits,
/// there is at least one, and the value is at most `limit`.
fn digits_exec(v: &Vec<char>, start: usize, limit: u64) -> (r: Option<u64>)
    requires
        start <= v.len(),
    ensures
        ({
            let d = v@.skip(start as int);
            match r {
                Some(n) => d.len() > 0 && all_digits(d) && digits_value(d) <= limit && n
                    == digits_value(d),
                None => !(d.len() > 0 && all_digits(d) && digits_value(d) <= limit),
            }
        }),
{
    if start == v.len() {
        return None;
    }
    let ghost lim = limit as int;
    let mut acc: u128 = 0;
    let mut k: usize = start;
    while k < v.len()
        invariant
            start < v.len(),
            start <= k <= v.len(),
            lim == limit,
            all_digits(v@.subrange(start as int, k as int)),
            digits_value(v@.subrange(start as int, k as int)) >= 0,
            acc == (if digits_value(v@.subrange(start as int, k as int)) <= lim {
                digits_value(v@.subrange(start as int, k as int))
            } else {
                lim + 1
            }),
        decreases v.len() - k,
    {
        let c = v[k];
        let ghost pre = v@.subrange(start as int, k as int);
        let ghost post = v@.subrange(start as int, k + 1);
        assert(post.drop_last() =~= pre);
        if !('0' <= c && c <= '9') {
            assert(v@.skip(start as int)[k - start] == c);
            return None;
        }
        let digit: u128 = (c as u32 - 48) as u128;
        let next: u128 = acc * 10 + digit;
        if next > limit as u128 {
            acc = limit as u128 + 1;
        } else {
            acc = next;
        }
        k += 1;
        assert(all_digits(post)) by {
            assert forall|i: int| 0 <= i < post.len() implies is_digit(#[trigger] post[i]) by {
                if i < pre.len() {
                    assert(post[i] == pre[i]);
                }
            }
        }
    }
    assert(v@.subrange(start as int, v.len() as int) =~= v@.skip(start as int));
    if acc > limit as u128 {
        None
    } else {
        Some(acc as u64)
    }
}

/// `str::parse` for an unsigned type whose largest value is `limit`.
pub fn parse_unsigned_exec(s: &str, limit: u64) -> (r: Option<u64>)
    ensures
        match r {
            Some(n) => parse_unsigned(s@, limit as int) == Some(n as int),
            None => parse_unsigned(s@, limit as int) is None,
        },
{
    let v = chars_of(s);
    if v.len() > 0 && v[0] == '+' {
        digits_exec(&v, 1, limit)
    } else {
        assert(v@.skip(0) =~= v@);
        digits_exec(&v, 0, limit)
    }
}

/// `str::parse::<i32>`.
pub fn parse_i32_exec(s: &str) -> (r: Option<i32>)
    ensures
        match r {
            Some(n) => parse_i32_text(s@) == Some(n as int),
            None => parse_i32_text(s@) is None,
        },
{
    let v = chars_of(s);
    if v.len() > 0 && v[0] == '-' {
        match digits_exec(&v, 1, 0x8000_0000) {
            Some(n) => {
                let m: i64 = n as i64;
                Some((0 - m) as i32)
            },
            None => None,
        }
    } else if v.len() > 0 && v[0] == '+' {
        match digits_exec(&v, 1, 0x7fff_ffff) {
            Some(n) => Some(n as i32),
            None => None,
        }
    } else {
        assert(v@.skip(0) =~= v@);
        match digits_exec(&v, 0, 0x7fff_ffff) {
            Some(n) => Some(n as i32),
            None => None,
        }
    }
}

// ---------------------------------------------------------------------------
// Command-line options of the preview tool.
// ---------------------------------------------------------------------------

/// Where a text setting comes from: its built-in default, or the argument at
/// an index of the command line.
#[derive(Clone, Copy, Debug, PartialEq, Eq)]
pub enum TextSetting {
    Default,
    Arg(usize),
}

/// What the caller found when it read one argument as an `f32`; only these
/// facts of a float argument decide how parsing goes on.
#[derive(Clone, Copy, Debug, PartialEq, Eq)]
pub struct FloatArgFacts {
    /// The argument parses as an `f32`.
    pub parses: bool,
    /// The parsed value is `<= 0.0`.
    pub le_zero: bool,
    /// The parsed value lies in `0.0..=1.0`.
    pub in_unit: bool,
    /// The parsed value is `< 0.0`.
    pub lt_zero: bool,
}

/// Settings chosen on the command line, before validation. Text and float
/// values are named by the index of the argument that holds them.
#[derive(Clone, Copy, Debug, PartialEq, Eq)]
pub struct ArgsDraft {
    pub epub_path: TextSetting,
    pub out_path: TextSetting,
    pub serve: bool,
    pub open_browser: bool,
    pub port: u16,
    pub chapter: Option<usize>,
    pub start_page: usize,
    pub pages_per_chapter: Option<usize>,
    pub display_width: u32,
    pub display_height: u32,
    pub justify_enabled: bool,
    pub justify_strategy: TextSetting,
    pub cover_page_mode: TextSetting,
    pub font_size: TextSetting,
    pub text_scale: TextSetting,
    pub line_gap_px: i32,
    pub paragraph_gap_px: i32,
    pub margin_left: i32,
    pub margin_right: i32,
    pub margin_top: i32,
    pub margin_bottom: i32,
    pub justify_min_words: usize,
    pub justify_min_fill: TextSetting,
    pub justify_max_space_stretch: TextSetting,
    pub widow_orphan_enabled: bool,
    pub widow_orphan_min_lines: u8,
    pub hanging_punctuation_enabled: bool,
    pub max_image_bytes: usize,
    pub max_font_bytes: usize,
}

/// Validated settings of the preview tool. Text and float values are named by
/// the index of the argument that holds them; justification strategy and
/// cover-page mode are parsed.
#[derive(Clone, Copy, Debug, PartialEq, Eq)]
pub struct PreviewArgs {
    pub epub_path: TextSetting,
    pub out_path: TextSetting,
    pub serve: bool,
    pub open_browser: bool,
    pub port: u16,
    pub chapter: Option<usize>,
    pub start_page: usize,
    pub pages_per_chapter: Option<usize>,
    pub display_width: u32,
    pub display_height: u32,
    pub justify_enabled: bool,
    pub justify_strategy: JustificationStrategy,
    pub cover_page_mode: CoverPageMode,
    pub font_size: TextSetting,
    pub text_scale: TextSetting,
    pub line_gap_px: i32,
    pub paragraph_gap_px: i32,
    pub margin_left: i32,
    pub margin_right: i32,
    pub margin_top: i32,
    pub margin_bottom: i32,
    pub justify_min_words: usize,
    pub justify_min_fill: TextSetting,
    pub justify_max_space_stretch: TextSetting,
    pub widow_orphan_enabled: bool,
    pub widow_orphan_min_lines: u8,
    pub hanging_punctuation_enabled: bool,
    pub max_image_bytes: usize,
    pub max_font_bytes: usize,
}

/// Why the command line was refused. Indices name the offending option.
#[derive(Clone, Copy, Debug, PartialEq, Eq)]
pub enum ArgsError {
    /// `--help` or `-h` as the first argument.
    HelpRequested,
    /// The option at this index needs a value and is the last argument.
    MissingValue(usize),
    /// The value after the option at this index does not parse.
    InvalidValue(usize),
    /// The argument at this index is no known option.
    UnknownOption(usize),
    /// `--width` or `--height` is zero.
    ZeroDimensions,
    /// `--font-size` is not positive.
    FontSizeNotPositive,
    /// `--justify-min-words` is zero.
    ZeroJustifyMinWords,
    /// `--justify-min-fill` lies outside `0.0..=1.0`.
    FillRatioOutOfRange,
    /// `--justify-max-space-stretch` is negative.
    NegativeStretch,
}

/// Options that take no value.
#[derive(Clone, Copy, Debug, PartialEq, Eq)]
pub enum SwitchFlag {
    Serve,
    Open,
    Justify,
    NoJustify,
    NoWidowOrphan,
    NoHangingPunctuation,
}

/// Options that take a text value.
#[derive(Clone, Copy, Debug, PartialEq, Eq)]
pub enum TextFlag {
    Out,
    JustifyMode,
    CoverPageMode,
}

/// Options that take an `f32` value.
#[derive(Clone, Copy, Debug, PartialEq, Eq)]
pub enum FloatFlag {
    FontSize,
    TextScale,
    JustifyMinFill,
    JustifyMaxSpaceStretch,
}

/// Options that take a `usize` value.
#[derive(Clone, Copy, Debug, PartialEq, Eq)]
pub enum CountFlag {
    Chapter,
    StartPage,
    Pages,
    JustifyMinWords,
    MaxImageBytes,
    MaxFontBytes,
}

/// Options that take a `u32` value.
#[derive(Clone, Copy, Debug, PartialEq, Eq)]
pub enum DimensionFlag {
    Width,
    Height,
}

/// Options that take an `i32` value.
#[derive(Clone, Copy, Debug, PartialEq, Eq)]
pub enum OffsetFlag {
    LineGap,
    ParagraphGap,
    MarginLeft,
    MarginRight,
    MarginTop,
    MarginBottom,
}

/// What an argument in option position names.
#[derive(Clone, Copy, Debug, PartialEq, Eq)]
pub enum FlagKind {
    Switch(SwitchFlag),
    Text(TextFlag),
    Float(FloatFlag),
    Port,
    Count(CountFlag),
    Dimension(DimensionFlag),
    Offset(OffsetFlag),
    MinLines,
    Unknown,
}

/// The option named by an argument.
pub open spec fn flag_kind(a: Seq<char>) -> FlagKind {
    if a == "--out"@ {
        FlagKind::Text(TextFlag::Out)
    } else if a == "--serve"@ {
        FlagKind::Switch(SwitchFlag::Serve)
    } else if a == "--open"@ {
        FlagKind::Switch(SwitchFlag::Open)
    } else if a == "--port"@ {
        FlagKind::Port
    } else if a == "--chapter"@ {
        FlagKind::Count(CountFlag::Chapter)
    } else if a == "--start-page"@ {
        FlagKind::Count(CountFlag::StartPage)
    } else if a == "--pages"@ {
        FlagKind::Count(CountFlag::Pages)
    } else if a == "--width"@ {
        FlagKind::Dimension(DimensionFlag::Width)
    } else if a == "--height"@ {
        FlagKind::Dimension(DimensionFlag::Height)
    } else if a == "--justify"@ {
        FlagKind::Switch(SwitchFlag::Justify)
    } else if a == "--no-justify"@ {
        FlagKind::Switch(SwitchFlag::NoJustify)
    } else if a == "--justify-mode"@ {
        FlagKind::Text(TextFlag::JustifyMode)
    } else if a == "--cover-page-mode"@ {
        FlagKind::Text(TextFlag::CoverPageMode)
    } else if a == "--font-size"@ {
        FlagKind::Float(FloatFlag::FontSize)
    } else if a == "--text-scale"@ {
        FlagKind::Float(FloatFlag::TextScale)
    } else if a == "--line-gap"@ {
        FlagKind::Offset(OffsetFlag::LineGap)
    } else if a == "--paragraph-gap"@ {
        FlagKind::Offset(OffsetFlag::ParagraphGap)
    } else if a == "--margin-left"@ {
        FlagKind::Offset(OffsetFlag::MarginLeft)
    } else if a == "--margin-right"@ {
        FlagKind::Offset(OffsetFlag::MarginRight)
    } else if a == "--margin-top"@ {
        FlagKind::Offset(OffsetFlag::MarginTop)
    } else if a == "--margin-bottom"@ {
        FlagKind::Offset(OffsetFlag::MarginBottom)
    } else if a == "--justify-min-words"@ {
        FlagKind::Count(CountFlag::JustifyMinWords)
    } else if a == "--justify-min-fill"@ {
        FlagKind::Float(FloatFlag::JustifyMinFill)
    } else if a == "--justify-max-space-stretch"@ {
        FlagKind::Float(FloatFlag::JustifyMaxSpaceStretch)
    } else if a == "--no-widow-orphan"@ {
        FlagKind::Switch(SwitchFlag::NoWidowOrphan)
    } else if a == "--widow-orphan-min-lines"@ {
        FlagKind::MinLines
    } else if a == "--no-hanging-punctuation"@ {
        FlagKind::Switch(SwitchFlag::NoHangingPunctuation)
    } else if a == "--max-image-bytes"@ {
        FlagKind::Count(CountFlag::MaxImageBytes)
    } else if a == "--max-font-bytes"@ {
        FlagKind::Count(CountFlag::MaxFontBytes)
    } else {
        FlagKind::Unknown
    }
}

/// The option named by an argument.
pub fn flag_kind_of(a: &str) -> (r: FlagKind)
    ensures
        r == flag_kind(a@),
{
    if str_eq(a, "--out") {
        FlagKind::Text(TextFlag::Out)
    } else if str_eq(a, "--serve") {
        FlagKind::Switch(SwitchFlag::Serve)
    } else if str_eq(a, "--open") {
        FlagKind::Switch(SwitchFlag::Open)
    } else if str_eq(a, "--port") {
        FlagKind::Port
    } else if str_eq(a, "--chapter") {
        FlagKind::Count(CountFlag::Chapter)
    } else if str_eq(a, "--start-page") {
        FlagKind::Count(CountFlag::StartPage)
    } else if str_eq(a, "--pages") {
        FlagKind::Count(CountFlag::Pages)
    } else if str_eq(a, "--width") {
        FlagKind::Dimension(DimensionFlag::Width)
    } else if str_eq(a, "--height") {
        FlagKind::Dimension(DimensionFlag::Height)
    } else if str_eq(a, "--justify") {
        FlagKind::Switch(SwitchFlag::Justify)
    } else if str_eq(a, "--no-justify") {
        FlagKind::Switch(SwitchFlag::NoJustify)
    } else if str_eq(a, "--justify-mode") {
        FlagKind::Text(TextFlag::JustifyMode)
    } else if str_eq(a, "--cover-page-mode") {
        FlagKind::Text(TextFlag::CoverPageMode)
    } else if str_eq(a, "--font-size") {
        FlagKind::Float(FloatFlag::FontSize)
    } else if str_eq(a, "--text-scale") {
        FlagKind::Float(FloatFlag::TextScale)
    } else if str_eq(a, "--line-gap") {
        FlagKind::Offset(OffsetFlag::LineGap)
    } else if str_eq(a, "--paragraph-gap") {
        FlagKind::Offset(OffsetFlag::ParagraphGap)
    } else if str_eq(a, "--margin-left") {
        FlagKind::Offset(OffsetFlag::MarginLeft)
    } else if str_eq(a, "--margin-right") {
        FlagKind::Offset(OffsetFlag::MarginRight)
    } else if str_eq(a, "--margin-top") {
        FlagKind::Offset(OffsetFlag::MarginTop)
    } else if str_eq(a, "--margin-bottom") {
        FlagKind::Offset(OffsetFlag::MarginBottom)
    } else if str_eq(a, "--justify-min-words") {
        FlagKind::Count(CountFlag::JustifyMinWords)
    } else if str_eq(a, "--justify-min-fill") {
        FlagKind::Float(FloatFlag::JustifyMinFill)
    } else if str_eq(a, "--justify-max-space-stretch") {
        FlagKind::Float(FloatFlag::JustifyMaxSpaceStretch)
    } else if str_eq(a, "--no-widow-orphan") {
        FlagKind::Switch(SwitchFlag::NoWidowOrphan)
    } else if str_eq(a, "--widow-orphan-min-lines") {
        FlagKind::MinLines
    } else if str_eq(a, "--no-hanging-punctuation") {
        FlagKind::Switch(SwitchFlag::NoHangingPunctuation)
    } else if str_eq(a, "--max-image-bytes") {
        FlagKind::Count(CountFlag::MaxImageBytes)
    } else if str_eq(a, "--max-font-bytes") {
        FlagKind::Count(CountFlag::MaxFontBytes)
    } else {
        FlagKind::Unknown
    }
}

/// Draft settings before any option: the built-in defaults, with the EPUB path
/// taken from the first argument when it is positional.
pub open spec fn default_draft(positional: bool) -> ArgsDraft {
    ArgsDraft {
        epub_path: if positional {
            TextSetting::Arg(1)
        } else {
            TextSetting::Default
        },
        out_path: TextSetting::Default,
        serve: false,
        open_browser: false,
        port: 42817,
        chapter: None,
        start_page: 0,
        pages_per_chapter: None,
        display_width: 900,
        display_height: 1200,
        justify_enabled: true,
        justify_strategy: TextSetting::Default,
        cover_page_mode: TextSetting::Default,
        font_size: TextSetting::Default,
        text_scale: TextSetting::Default,
        line_gap_px: 4,
        paragraph_gap_px: 8,
        margin_left: 24,
        margin_right: 24,
        margin_top: 18,
        margin_bottom: 30,
        justify_min_words: 6,
        justify_min_fill: TextSetting::Default,
        justify_max_space_stretch: TextSetting::Default,
        widow_orphan_enabled: true,
        widow_orphan_min_lines: 2,
        hanging_punctuation_enabled: true,
        max_image_bytes: 16777216,
        max_font_bytes: 25165824,
    }
}

/// Effect of a switch.
pub open spec fn with_switch(d: ArgsDraft, f: SwitchFlag) -> ArgsDraft {
    match f {
        SwitchFlag::Serve => ArgsDraft { serve: true, ..d },
        SwitchFlag::Open => ArgsDraft { open_browser: true, ..d },
        SwitchFlag::Justify => ArgsDraft { justify_enabled: true, ..d },
        SwitchFlag::NoJustify => ArgsDraft { justify_enabled: false, ..d },
        SwitchFlag::NoWidowOrphan => ArgsDraft { widow_orphan_enabled: false, ..d },
        SwitchFlag::NoHangingPunctuation => ArgsDraft { hanging_punctuation_enabled: false, ..d },
    }
}

/// Effect of a text option whose value is argument `k`.
pub open spec fn with_text(d: ArgsDraft, f: TextFlag, k: usize) -> ArgsDraft {
    match f {
        TextFlag::Out => ArgsDraft { out_path: TextSetting::Arg(k), ..d },
        TextFlag::JustifyMode => ArgsDraft { justify_strategy: TextSetting::Arg(k), ..d },
        TextFlag::CoverPageMode => ArgsDraft { cover_page_mode: TextSetting::Arg(k), ..d },
    }
}

/// Effect of a float option whose value is argument `k`.
pub open spec fn with_float(d: ArgsDraft, f: FloatFlag, k: usize) -> ArgsDraft {
    match f {
        FloatFlag::FontSize => ArgsDraft { font_size: TextSetting::Arg(k), ..d },
        FloatFlag::TextScale => ArgsDraft { text_scale: TextSetting::Arg(k), ..d },
        FloatFlag::JustifyMinFill => ArgsDraft { justify_min_fill: TextSetting::Arg(k), ..d },
        FloatFlag::JustifyMaxSpaceStretch => ArgsDraft {
            justify_max_space_stretch: TextSetting::Arg(k),
            ..d
        },
    }
}

/// Effect of a count option with value `n`.
pub open spec fn with_count(d: ArgsDraft, f: CountFlag, n: usize) -> ArgsDraft {
    match f {
        CountFlag::Chapter => ArgsDraft { chapter: Some(n), ..d },
        CountFlag::StartPage => ArgsDraft { start_page: n, ..d },
        CountFlag::Pages => ArgsDraft { pages_per_chapter: Some(n), ..d },
        CountFlag::JustifyMinWords => ArgsDraft { justify_min_words: n, ..d },
        CountFlag::MaxImageBytes => ArgsDraft { max_image_bytes: n, ..d },
        CountFlag::MaxFontBytes => ArgsDraft { max_font_bytes: n, ..d },
    }
}

/// Effect of a dimension option with value `n`.
pub open spec fn with_dimension(d: ArgsDraft, f: DimensionFlag, n: u32) -> ArgsDraft {
    match f {
        DimensionFlag::Width => ArgsDraft { display_width: n, ..d },
        DimensionFlag::Height => ArgsDraft { display_height: n, ..d },
    }
}

/// Effect of an offset option with value `n`.
pub open spec fn with_offset(d: ArgsDraft, f: OffsetFlag, n: i32) -> ArgsDraft {
    match f {
        OffsetFlag::LineGap => ArgsDraft { line_gap_px: n, ..d },
        OffsetFlag::ParagraphGap => ArgsDraft { paragraph_gap_px: n, ..d },
        OffsetFlag::MarginLeft => ArgsDraft { margin_left: n, ..d },
        OffsetFlag::MarginRight => ArgsDraft { margin_right: n, ..d },
        OffsetFlag::MarginTop => ArgsDraft { margin_top: n, ..d },
        OffsetFlag::MarginBottom => ArgsDraft { margin_bottom: n, ..d },
    }
}

/// Facts of argument `k` as an `f32`; an argument without facts does not parse.
pub open spec fn float_fact(facts: Seq<FloatArgFacts>, k: int) -> FloatArgFacts {
    if 0 <= k < facts.len() {
        facts[k]
    } else {
        FloatArgFacts { parses: false, le_zero: false, in_unit: false, lt_zero: false }
    }
}

/// Effect of the option at index `i` given its value at `i + 1`: the new draft,
/// or the error it raises.
pub open spec fn option_with_value(
    args: Seq<String>,
    facts: Seq<FloatArgFacts>,
    i: int,
    d: ArgsDraft,
) -> Result<ArgsDraft, ArgsError> {
    let v = args[i + 1]@;
    let bad = ArgsError::InvalidValue(i as usize);
    match flag_kind(args[i]@) {
        FlagKind::Text(f) => Ok(with_text(d, f, (i + 1) as usize)),
        FlagKind::Float(f) => if float_fact(facts, i + 1).parses {
            Ok(with_float(d, f, (i + 1) as usize))
        } else {
            Err(bad)
        },
        FlagKind::Port => match parse_unsigned(v, 0xffff) {
            Some(n) => Ok(ArgsDraft { port: n as u16, ..d }),
            None => Err(bad),
        },
        FlagKind::Count(f) => match parse_unsigned(v, usize::MAX as int) {
            Some(n) => Ok(with_count(d, f, n as usize)),
            None => Err(bad),
        },
        FlagKind::Dimension(f) => match parse_unsigned(v, 0xffff_ffff) {
            Some(n) => Ok(with_dimension(d, f, n as u32)),
            None => Err(bad),
        },
        FlagKind::Offset(f) => match parse_i32_text(v) {
            Some(n) => Ok(with_offset(d, f, n as i32)),
            None => Err(bad),
        },
        FlagKind::MinLines => match parse_unsigned(v, 0xff) {
            Some(n) => Ok(ArgsDraft { widow_orphan_min_lines: n as u8, ..d }),
            None => Err(bad),
        },
        _ => Ok(d),
    }
}

/// The draft after reading options from index `i` on, or the first error.
pub open spec fn read_options(
    args: Seq<String>,
    facts: Seq<FloatArgFacts>,
    i: int,
    d: ArgsDraft,
) -> Result<ArgsDraft, ArgsError>
    decreases args.len() - i,
{
    if i < 0 || i >= args.len() {
        Ok(d)
    } else {
        match flag_kind(args[i]@) {
            FlagKind::Unknown => Err(ArgsError::UnknownOption(i as usize)),
            FlagKind::Switch(f) => read_options(args, facts, i + 1, with_switch(d, f)),
            _ => if i + 1 >= args.len() {
                Err(ArgsError::MissingValue(i as usize))
            } else {
                match option_with_value(args, facts, i, d) {
                    Ok(d2) => read_options(args, facts, i + 2, d2),
                    Err(e) => Err(e),
                }
            },
        }
    }
}

/// Validation after all options are read: the checks in order, then the
/// justification strategy and cover-page mode parsed from their text.
pub open spec fn finish_args(args: Seq<String>, facts: Seq<FloatArgFacts>, d: ArgsDraft) -> Result<
    PreviewArgs,
    ArgsError,
> {
    if d.display_width == 0 || d.display_height == 0 {
        Err(ArgsError::ZeroDimensions)
    } else if (d.font_size matches TextSetting::Arg(k) && float_fact(facts, k as int).le_zero) {
        Err(ArgsError::FontSizeNotPositive)
    } else if d.justify_min_words == 0 {
        Err(ArgsError::ZeroJustifyMinWords)
    } else if (d.justify_min_fill matches TextSetting::Arg(k) && !float_fact(facts, k as int).in_unit) {
        Err(ArgsError::FillRatioOutOfRange)
    } else if (d.justify_max_space_stretch matches TextSetting::Arg(k) && float_fact(
        facts,
        k as int,
    ).lt_zero) {
        Err(ArgsError::NegativeStretch)
    } else {
        Ok(
            PreviewArgs {
                epub_path: d.epub_path,
                out_path: d.out_path,
                serve: d.serve,
                open_browser: d.open_browser,
                port: d.port,
                chapter: d.chapter,
                start_page: d.start_page,
                pages_per_chapter: d.pages_per_chapter,
                display_width: d.display_width,
                display_height: d.display_height,
                justify_enabled: d.justify_enabled,
                justify_strategy: match d.justify_strategy {
                    TextSetting::Arg(k) => justification_strategy_for(trim_lower(args[k as int]@)),
                    TextSetting::Default => JustificationStrategy::AdaptiveInterWord,
                },
                cover_page_mode: match d.cover_page_mode {
                    TextSetting::Arg(k) => cover_page_mode_for(trim_lower(args[k as int]@)),
                    TextSetting::Default => CoverPageMode::Contain,
                },
                font_size: d.font_size,
                text_scale: d.text_scale,
                line_gap_px: d.line_gap_px,
                paragraph_gap_px: d.paragraph_gap_px,
                margin_left: d.margin_left,
                margin_right: d.margin_right,
                margin_top: d.margin_top,
                margin_bottom: d.margin_bottom,
                justify_min_words: d.justify_min_words,
                justify_min_fill: d.justify_min_fill,
                justify_max_space_stretch: d.justify_max_space_stretch,
                widow_orphan_enabled: d.widow_orphan_enabled,
                widow_orphan_min_lines: d.widow_orphan_min_lines,
                hanging_punctuation_enabled: d.hanging_punctuation_enabled,
                max_image_bytes: d.max_image_bytes,
                max_font_bytes: d.max_font_bytes,
            },
        )
    }
}

/// Whether the argument at index 1 is a positional EPUB path (it does not
/// start with `--`).
pub open spec fn has_positional(args: Seq<String>) -> bool {
    args.len() >= 2 && !(args[1]@.len() >= 2 && args[1]@[0] == '-' && args[1]@[1] == '-')
}

/// Outcome of parsing the preview tool's command line (`args[0]` is the
/// program name).
pub open spec fn preview_args_outcome(args: Seq<String>, facts: Seq<FloatArgFacts>) -> Result<
    PreviewArgs,
    ArgsError,
> {
    if args.len() >= 2 && (args[1]@ == "--help"@ || args[1]@ == "-h"@) {
        Err(ArgsError::HelpRequested)
    } else {
        let positional = has_positional(args);
        match read_options(args, facts, if positional { 2 } else { 1 }, default_draft(positional)) {
            Ok(d) => finish_args(args, facts, d),
            Err(e) => Err(e),
        }
    }
}

fn switch_exec(d: ArgsDraft, f: SwitchFlag) -> (r: ArgsDraft)
    ensures
        r == with_switch(d, f),
{
    match f {
        SwitchFlag::Serve => ArgsDraft { serve: true, ..d },
        SwitchFlag::Open => ArgsDraft { open_browser: true, ..d },
        SwitchFlag::Justify => ArgsDraft { justify_enabled: true, ..d },
        SwitchFlag::NoJustify => ArgsDraft { justify_enabled: false, ..d },
        SwitchFlag::NoWidowOrphan => ArgsDraft { widow_orphan_enabled: false, ..d },
        SwitchFlag::NoHangingPunctuation => ArgsDraft { hanging_punctuation_enabled: false, ..d },
    }
}

fn text_exec(d: ArgsDraft, f: TextFlag, k: usize) -> (r: ArgsDraft)
    ensures
        r == with_text(d, f, k),
{
    match f {
        TextFlag::Out => ArgsDraft { out_path: TextSetting::Arg(k), ..d },
        TextFlag::JustifyMode => ArgsDraft { justify_strategy: TextSetting::Arg(k), ..d },
        TextFlag::CoverPageMode => ArgsDraft { cover_page_mode: TextSetting::Arg(k), ..d },
    }
}

fn float_exec(d: ArgsDraft, f: FloatFlag, k: usize) -> (r: ArgsDraft)
    ensures
        r == with_float(d, f, k),
{
    match f {
        FloatFlag::FontSize => ArgsDraft { font_size: TextSetting::Arg(k), ..d },
        FloatFlag::TextScale => ArgsDraft { text_scale: TextSetting::Arg(k), ..d },
        FloatFlag::JustifyMinFill => ArgsDraft { justify_min_fill: TextSetting::Arg(k), ..d },
        FloatFlag::JustifyMaxSpaceStretch => ArgsDraft {
            justify_max_space_stretch: TextSetting::Arg(k),
            ..d
        },
    }
}

fn count_exec(d: ArgsDraft, f: CountFlag, n: usize) -> (r: ArgsDraft)
    ensures
        r == with_count(d, f, n),
{
    match f {
        CountFlag::Chapter => ArgsDraft { chapter: Some(n), ..d },
        CountFlag::StartPage => ArgsDraft { start_page: n, ..d },
        CountFlag::Pages => ArgsDraft { pages_per_chapter: Some(n), ..d },
        CountFlag::JustifyMinWords => ArgsDraft { justify_min_words: n, ..d },
        CountFlag::MaxImageBytes => ArgsDraft { max_image_bytes: n, ..d },
        CountFlag::MaxFontBytes => ArgsDraft { max_font_bytes: n, ..d },
    }
}

fn dimension_exec(d: ArgsDraft, f: DimensionFlag, n: u32) -> (r: ArgsDraft)
    ensures
        r == with_dimension(d, f, n),
{
    match f {
        DimensionFlag::Width => ArgsDraft { display_width: n, ..d },
        DimensionFlag::Height => ArgsDraft { display_height: n, ..d },
    }
}

fn offset_exec(d: ArgsDraft, f: OffsetFlag, n: i32) -> (r: ArgsDraft)
    ensures
        r == with_offset(d, f, n),
{
    match f {
        OffsetFlag::LineGap => ArgsDraft { line_gap_px: n, ..d },
        OffsetFlag::ParagraphGap => ArgsDraft { paragraph_gap_px: n, ..d },
        OffsetFlag::MarginLeft => ArgsDraft { margin_left: n, ..d },
        OffsetFlag::MarginRight => ArgsDraft { margin_right: n, ..d },
        OffsetFlag::MarginTop => ArgsDraft { margin_top: n, ..d },
        OffsetFlag::MarginBottom => ArgsDraft { margin_bottom: n, ..d },
    }
}

fn float_fact_exec(facts: &Vec<FloatArgFacts>, k: usize) -> (r: FloatArgFacts)
    ensures
        r == float_fact(facts@, k as int),
{
    if k < facts.len() {
        facts[k]
    } else {
        FloatArgFacts { parses: false, le_zero: false, in_unit: false, lt_zero: false }
    }
}

fn with_value_exec(
    args: &Vec<String>,
    facts: &Vec<FloatArgFacts>,
    i: usize,
    kind: FlagKind,
    d: ArgsDraft,
) -> (r: Result<ArgsDraft, ArgsError>)
    requires
        i + 1 < args.len(),
        kind == flag_kind(args@[i as int]@),
    ensures
        r == option_with_value(args@, facts@, i as int, d),
{
    let v = args[i + 1].as_str();
    let bad = ArgsError::InvalidValue(i);
    match kind {
        FlagKind::Text(f) => Ok(text_exec(d, f, i + 1)),
        FlagKind::Float(f) => {
            if float_fact_exec(facts, i + 1).parses {
                Ok(float_exec(d, f, i + 1))
            } else {
                Err(bad)
            }
        },
        FlagKind::Port => match parse_unsigned_exec(v, 0xffff) {
            Some(n) => Ok(ArgsDraft { port: n as u16, ..d }),
            None => Err(bad),
        },
        FlagKind::Count(f) => match parse_unsigned_exec(v, usize::MAX as u64) {
            Some(n) => Ok(count_exec(d, f, n as usize)),
            None => Err(bad),
        },
        FlagKind::Dimension(f) => match parse_unsigned_exec(v, 0xffff_ffff) {
            Some(n) => Ok(dimension_exec(d, f, n as u32)),
            None => Err(bad),
        },
        FlagKind::Offset(f) => match parse_i32_exec(v) {
            Some(n) => Ok(offset_exec(d, f, n)),
            None => Err(bad),
        },
        FlagKind::MinLines => match parse_unsigned_exec(v, 0xff) {
            Some(n) => Ok(ArgsDraft { widow_orphan_min_lines: n as u8, ..d }),
            None => Err(bad),
        },
        _ => Ok(d),
    }
}

fn default_draft_exec(positional: bool) -> (r: ArgsDraft)
    ensures
        r == default_draft(positional),
{
    ArgsDraft {
        epub_path: if positional {
            TextSetting::Arg(1)
        } else {
            TextSetting::Default
        },
        out_path: TextSetting::Default,
        serve: false,
        open_browser: false,
        port: 42817,
        chapter: None,
        start_page: 0,
        pages_per_chapter: None,
        display_width: 900,
        display_height: 1200,
        justify_enabled: true,
        justify_strategy: TextSetting::Default,
        cover_page_mode: TextSetting::Default,
        font_size: TextSetting::Default,
        text_scale: TextSetting::Default,
        line_gap_px: 4,
        paragraph_gap_px: 8,
        margin_left: 24,
        margin_right: 24,
        margin_top: 18,
        margin_bottom: 30,
        justify_min_words: 6,
        justify_min_fill: TextSetting::Default,
        justify_max_space_stretch: TextSetting::Default,
        widow_orphan_enabled: true,
        widow_orphan_min_lines: 2,
        hanging_punctuation_enabled: true,
        max_image_bytes: 16777216,
        max_font_bytes: 25165824,
    }
}

/// Checks and completes the draft read from the command line.
fn finish_exec(args: &Vec<String>, facts: &Vec<FloatArgFacts>, d: ArgsDraft) -> (r: Result<
    PreviewArgs,
    ArgsError,
>)
    requires
        d.justify_strategy matches TextSetting::Arg(k) ==> k < args.len(),
        d.cover_page_mode matches TextSetting::Arg(k) ==> k < args.len(),
    ensures
        r == finish_args(args@, facts@, d),
{
    if d.display_width == 0 || d.display_height == 0 {
        return Err(ArgsError::ZeroDimensions);
    }
    if let TextSetting::Arg(k) = d.font_size {
        if float_fact_exec(facts, k).le_zero {
            return Err(ArgsError::FontSizeNotPositive);
        }
    }
    if d.justify_min_words == 0 {
        return Err(ArgsError::ZeroJustifyMinWords);
    }
    if let TextSetting::Arg(k) = d.justify_min_fill {
        if !float_fact_exec(facts, k).in_unit {
            return Err(ArgsError::FillRatioOutOfRange);
        }
    }
    if let TextSetting::Arg(k) = d.justify_max_space_stretch {
        if float_fact_exec(facts, k).lt_zero {
            return Err(ArgsError::NegativeStretch);
        }
    }
    let justify_strategy = match d.justify_strategy {
        TextSetting::Arg(k) => parse_justification_strategy(args[k].as_str()),
        TextSetting::Default => JustificationStrategy::AdaptiveInterWord,
    };
    let cover_page_mode = match d.cover_page_mode {
        TextSetting::Arg(k) => parse_cover_page_mode(args[k].as_str()),
        TextSetting::Default => CoverPageMode::Contain,
    };
    Ok(
        PreviewArgs {
            epub_path: d.epub_path,
            out_path: d.out_path,
            serve: d.serve,
            open_browser: d.open_browser,
            port: d.port,
            chapter: d.chapter,
            start_page: d.start_page,
            pages_per_chapter: d.pages_per_chapter,
            display_width: d.display_width,
            display_height: d.display_height,
            justify_enabled: d.justify_enabled,
            justify_strategy,
            cover_page_mode,
            font_size: d.font_size,
            text_scale: d.text_scale,
            line_gap_px: d.line_gap_px,
            paragraph_gap_px: d.paragraph_gap_px,
            margin_left: d.margin_left,
            margin_right: d.margin_right,
            margin_top: d.margin_top,
            margin_bottom: d.margin_bottom,
            justify_min_words: d.justify_min_words,
            justify_min_fill: d.justify_min_fill,
            justify_max_space_stretch: d.justify_max_space_stretch,
            widow_orphan_enabled: d.widow_orphan_enabled,
            widow_orphan_min_lines: d.widow_orphan_min_lines,
            hanging_punctuation_enabled: d.hanging_punctuation_enabled,
            max_image_bytes: d.max_image_bytes,
            max_font_bytes: d.max_font_bytes,
        },
    )
}

/// Parses the preview tool's command line (`args[0]` is the program name).
///
/// The first argument is the EPUB path unless it starts with `--`; `--help` or
/// `-h` there asks for help. Options are read left to right; the first
/// missing value, unparsable value or unknown option is reported, then the
/// settings are checked in order (dimensions, font size, minimum words, fill
/// ratio, stretch). `facts` holds, per argument, what reading it as an `f32`
/// gave; float options are judged by those facts alone.
pub fn parse_preview_args(args: &Vec<String>, facts: &Vec<FloatArgFacts>) -> (r: Result<
    PreviewArgs,
    ArgsError,
>)
    ensures
        r == preview_args_outcome(args@, facts@),
{
    if args.len() >= 2 && (str_eq(args[1].as_str(), "--help") || str_eq(args[1].as_str(), "-h")) {
        return Err(ArgsError::HelpRequested);
    }
    let positional = if args.len() >= 2 {
        let first = chars_of(args[1].as_str());
        !(first.len() >= 2 && first[0] == '-' && first[1] == '-')
    } else {
        false
    };
    let ghost start: int = if positional { 2 } else { 1 };
    let mut d = default_draft_exec(positional);
    let mut i: usize = if positional { 2 } else { 1 };
    while i < args.len()
        invariant
            i <= args.len() + 1,
            preview_args_outcome(args@, facts@) == (match read_options(
                args@,
                facts@,
                start,
                default_draft(positional),
            ) {
                Ok(d0) => finish_args(args@, facts@, d0),
                Err(e) => Err(e),
            }),
            read_options(args@, facts@, start, default_draft(positional)) == read_options(
                args@,
                facts@,
                i as int,
                d,
            ),
            d.justify_strategy matches TextSetting::Arg(k) ==> k < args.len(),
            d.cover_page_mode matches TextSetting::Arg(k) ==> k < args.len(),
        decreases args.len() + 1 - i,
    {
        let kind = flag_kind_of(args[i].as_str());
        match kind {
            FlagKind::Unknown => {
                return Err(ArgsError::UnknownOption(i));
            },
            FlagKind::Switch(f) => {
                d = switch_exec(d, f);
                i += 1;
            },
            _ => {
                if i + 1 >= args.len() {
                    return Err(ArgsError::MissingValue(i));
                }
                match with_value_exec(args, facts, i, kind, d) {
                    Ok(d2) => {
                        d = d2;
                        i += 2;
                    },
                    Err(e) => {
                        return Err(e);
                    },
                }
            },
        }
    }
    finish_exec(args, facts, d)
}

/// Every accepted command line has non-zero dimensions and minimum word count,
/// a font size that is not `<= 0`, a fill ratio within `0.0..=1.0` and a
/// stretch that is not negative.
pub proof fn law_accepted_args_pass_validation(args: Seq<String>, facts: Seq<FloatArgFacts>)
    ensures
        preview_args_outcome(args, facts) matches Ok(a) ==> {
            &&& a.display_width > 0
            &&& a.display_height > 0
            &&& a.justify_min_words > 0
            &&& a.font_size matches TextSetting::Arg(k) ==> !float_fact(facts, k as int).le_zero
            &&& a.justify_min_fill matches TextSetting::Arg(k) ==> float_fact(facts, k as int).in_unit
            &&& a.justify_max_space_stretch matches TextSetting::Arg(k) ==> !float_fact(
                facts,
                k as int,
            ).lt_zero
        },
{
}

/// Usage text of the preview tool.
pub const PREVIEW_HELP_TEXT: &'static str = r#"web-preview - interactive web renderer preview for epub-stream

USAGE:
  cargo run -p epub-stream-render-web --bin web-preview -- [epub_path] [options]

MODES:
  default: generate standalone HTML file at --out
  --serve: start local preview server with live re-render API

OPTIONS:
  --out <file>                output HTML path (default: target/web-preview/index.html)
  --serve                     start local server mode for live re-render
  --open                      open browser automatically (use with --serve)
  --port <n>                  server port in --serve mode (default: 42817)

  --chapter <n>               initial 0-based chapter index (default: all)
  --start-page <n>            initial 0-based page start per chapter (default: 0)
  --pages <n>                 initial pages per chapter limit

  --width <px>                initial viewport width (default: 900)
  --height <px>               initial viewport height (default: 1200)
  --justify / --no-justify    initial justification state (default: on)
  --justify-mode <mode>       adaptive-inter-word|full-inter-word|align-left|align-right|align-center
  --cover-page-mode <mode>    contain|full-bleed|respect-css
  --font-size <px>            initial base font size (default: 22)
  --text-scale <x>            initial text scale (default: 1.0)
  --line-gap <px>             initial line gap (default: 4)
  --paragraph-gap <px>        initial paragraph gap (default: 8)
  --margin-left <px>          initial left margin (default: 24)
  --margin-right <px>         initial right margin (default: 24)
  --margin-top <px>           initial top margin (default: 18)
  --margin-bottom <px>        initial bottom margin (default: 30)
  --justify-min-words <n>     initial min words for justify (default: 6)
  --justify-min-fill <r>      initial min fill ratio for justify (default: 0.78)
  --justify-max-space-stretch <r> max adaptive stretch ratio per space (default: 0.45)
  --no-widow-orphan           disable widow/orphan control initially
  --widow-orphan-min-lines <n> initial widow/orphan min lines (default: 2)
  --no-hanging-punctuation    disable hanging punctuation initially
  --max-image-bytes <n>       max image bytes embedded in payload (default: 16777216)
  --max-font-bytes <n>        max font bytes embedded in payload (default: 25165824)

DEFAULT EPUB:
  tests/fixtures/bench/pg84-frankenstein.epub
"#;

/// Usage text of the preview tool.
pub fn help_text() -> (r: &'static str)
    ensures
        r == PREVIEW_HELP_TEXT,
{
    PREVIEW_HELP_TEXT
}

/// The option each listed name stands for.
pub proof fn law_flag_names()
    ensures
        flag_kind("--serve"@) == FlagKind::Switch(SwitchFlag::Serve),
        flag_kind("--open"@) == FlagKind::Switch(SwitchFlag::Open),
        flag_kind("--justify"@) == FlagKind::Switch(SwitchFlag::Justify),
        flag_kind("--no-justify"@) == FlagKind::Switch(SwitchFlag::NoJustify),
        flag_kind("--no-widow-orphan"@) == FlagKind::Switch(SwitchFlag::NoWidowOrphan),
        flag_kind("--no-hanging-punctuation"@) == FlagKind::Switch(SwitchFlag::NoHangingPunctuation),
        flag_kind("--out"@) == FlagKind::Text(TextFlag::Out),
        flag_kind("--justify-mode"@) == FlagKind::Text(TextFlag::JustifyMode),
        flag_kind("--cover-page-mode"@) == FlagKind::Text(TextFlag::CoverPageMode),
        flag_kind("--font-size"@) == FlagKind::Float(FloatFlag::FontSize),
        flag_kind("--text-scale"@) == FlagKind::Float(FloatFlag::TextScale),
        flag_kind("--justify-min-fill"@) == FlagKind::Float(FloatFlag::JustifyMinFill),
        flag_kind("--justify-max-space-stretch"@) == FlagKind::Float(FloatFlag::JustifyMaxSpaceStretch),
        flag_kind("--port"@) == FlagKind::Port,
        flag_kind("--chapter"@) == FlagKind::Count(CountFlag::Chapter),
        flag_kind("--start-page"@) == FlagKind::Count(CountFlag::StartPage),
        flag_kind("--pages"@) == FlagKind::Count(CountFlag::Pages),
        flag_kind("--justify-min-words"@) == FlagKind::Count(CountFlag::JustifyMinWords),
        flag_kind("--max-image-bytes"@) == FlagKind::Count(CountFlag::MaxImageBytes),
        flag_kind("--max-font-bytes"@) == FlagKind::Count(CountFlag::MaxFontBytes),
        flag_kind("--width"@) == FlagKind::Dimension(DimensionFlag::Width),
        flag_kind("--height"@) == FlagKind::Dimension(DimensionFlag::Height),
        flag_kind("--line-gap"@) == FlagKind::Offset(OffsetFlag::LineGap),
        flag_kind("--paragraph-gap"@) == FlagKind::Offset(OffsetFlag::ParagraphGap),
        flag_kind("--margin-left"@) == FlagKind::Offset(OffsetFlag::MarginLeft),
        flag_kind("--margin-right"@) == FlagKind::Offset(OffsetFlag::MarginRight),
        flag_kind("--margin-top"@) == FlagKind::Offset(OffsetFlag::MarginTop),
        flag_kind("--margin-bottom"@) == FlagKind::Offset(OffsetFlag::MarginBottom),
        flag_kind("--widow-orphan-min-lines"@) == FlagKind::MinLines,
{
    reveal_strlit("--out");
    reveal_strlit("--serve");
    reveal_strlit("--open");
    reveal_strlit("--port");
    reveal_strlit("--chapter");
    reveal_strlit("--start-page");
    reveal_strlit("--pages");
    reveal_strlit("--width");
    reveal_strlit("--height");
    reveal_strlit("--justify");
    reveal_strlit("--no-justify");
    reveal_strlit("--justify-mode");
    reveal_strlit("--cover-page-mode");
    reveal_strlit("--font-size");
    reveal_strlit("--text-scale");
    reveal_strlit("--line-gap");
    reveal_strlit("--paragraph-gap");
    reveal_strlit("--margin-left");
    reveal_strlit("--margin-right");
    reveal_strlit("--margin-top");
    reveal_strlit("--margin-bottom");
    reveal_strlit("--justify-min-words");
    reveal_strlit("--justify-min-fill");
    reveal_strlit("--justify-max-space-stretch");
    reveal_strlit("--no-widow-orphan");
    reveal_strlit("--widow-orphan-min-lines");
    reveal_strlit("--no-hanging-punctuation");
    reveal_strlit("--max-image-bytes");
    reveal_strlit("--max-font-bytes");
    assert("--serve"@ != "--out"@) by { assert("--serve"@.len() != "--out"@.len()); }
    assert("--open"@ != "--out"@) by { assert("--open"@.len() != "--out"@.len()); }
    assert("--open"@ != "--serve"@) by { assert("--open"@.len() != "--serve"@.len()); }
    assert("--port"@ != "--out"@) by { assert("--port"@.len() != "--out"@.len()); }
    assert("--port"@ != "--serve"@) by { assert("--port"@.len() != "--serve"@.len()); }
    assert("--port"@ != "--open"@) by { assert("--port"@[2] != "--open"@[2]); }
    assert("--chapter"@ != "--out"@) by { assert("--chapter"@.len() != "--out"@.len()); }
    assert("--chapter"@ != "--serve"@) by { assert("--chapter"@.len() != "--serve"@.len()); }
    assert("--chapter"@ != "--open"@) by { assert("--chapter"@.len() != "--open"@.len()); }
    assert("--chapter"@ != "--port"@) by { assert("--chapter"@.len() != "--port"@.len()); }
    assert("--start-page"@ != "--out"@) by { assert("--start-page"@.len() != "--out"@.len()); }
    assert("--start-page"@ != "--serve"@) by { assert("--start-page"@.len() != "--serve"@.len()); }
    assert("--start-page"@ != "--open"@) by { assert("--start-page"@.len() != "--open"@.len()); }
    assert("--start-page"@ != "--port"@) by { assert("--start-page"@.len() != "--port"@.len()); }
    assert("--start-page"@ != "--chapter"@) by { assert("--start-page"@.len() != "--chapter"@.len()); }
    assert("--pages"@ != "--out"@) by { assert("--pages"@.len() != "--out"@.len()); }
    assert("--pages"@ != "--serve"@) by { assert("--pages"@[2] != "--serve"@[2]); }
    assert("--pages"@ != "--open"@) by { assert("--pages"@.len() != "--open"@.len()); }
    assert("--pages"@ != "--port"@) by { assert("--pages"@.len() != "--port"@.len()); }
    assert("--pages"@ != "--chapter"@) by { assert("--pages"@.len() != "--chapter"@.len()); }
    assert("--pages"@ != "--start-page"@) by { assert("--pages"@.len() != "--start-page"@.len()); }
    assert("--width"@ != "--out"@) by { assert("--width"@.len() != "--out"@.len()); }
    assert("--width"@ != "--serve"@) by { assert("--width"@[2] != "--serve"@[2]); }
    assert("--width"@ != "--open"@) by { assert("--width"@.len() != "--open"@.len()); }
    assert("--width"@ != "--port"@) by { assert("--width"@.len() != "--port"@.len()); }
    assert("--width"@ != "--chapter"@) by { assert("--width"@.len() != "--chapter"@.len()); }
    assert("--width"@ != "--start-page"@) by { assert("--width"@.len() != "--start-page"@.len()); }
    assert("--width"@ != "--pages"@) by { assert("--width"@[2] != "--pages"@[2]); }
    assert("--height"@ != "--out"@) by { assert("--height"@.len() != "--out"@.len()); }
    assert("--height"@ != "--serve"@) by { assert("--height"@.len() != "--serve"@.len()); }
    assert("--height"@ != "--open"@) by { assert("--height"@.len() != "--open"@.len()); }
    assert("--height"@ != "--port"@) by { assert("--height"@.len() != "--port"@.len()); }
    assert("--height"@ != "--chapter"@) by { assert("--height"@.len() != "--chapter"@.len()); }
    assert("--height"@ != "--start-page"@) by { assert("--height"@.len() != "--start-page"@.len()); }
    assert("--height"@ != "--pages"@) by { assert("--height"@.len() != "--pages"@.len()); }
    assert("--height"@ != "--width"@) by { assert("--height"@.len() != "--width"@.len()); }
    assert("--justify"@ != "--out"@) by { assert("--justify"@.len() != "--out"@.len()); }
    assert("--justify"@ != "--serve"@) by { assert("--justify"@.len() != "--serve"@.len()); }
    assert("--justify"@ != "--open"@) by { assert("--justify"@.len() != "--open"@.len()); }
    assert("--justify"@ != "--port"@) by { assert("--justify"@.len() != "--port"@.len()); }
    assert("--justify"@ != "--chapter"@) by { assert("--justify"@[2] != "--chapter"@[2]); }
    assert("--justify"@ != "--start-page"@) by { assert("--justify"@.len() != "--start-page"@.len()); }
    assert("--justify"@ != "--pages"@) by { assert("--justify"@.len() != "--pages"@.len()); }
    assert("--justify"@ != "--width"@) by { assert("--justify"@.len() != "--width"@.len()); }
    assert("--justify"@ != "--height"@) by { assert("--justify"@.len() != "--height"@.len()); }
    assert("--no-justify"@ != "--out"@) by { assert("--no-justify"@.len() != "--out"@.len()); }
    assert("--no-justify"@ != "--serve"@) by { assert("--no-justify"@.len() != "--serve"@.len()); }
    assert("--no-justify"@ != "--open"@) by { assert("--no-justify"@.len() != "--open"@.len()); }
    assert("--no-justify"@ != "--port"@) by { assert("--no-justify"@.len() != "--port"@.len()); }
    assert("--no-justify"@ != "--chapter"@) by { assert("--no-justify"@.len() != "--chapter"@.len()); }
    assert("--no-justify"@ != "--start-page"@) by { assert("--no-justify"@[2] != "--start-page"@[2]); }
    assert("--no-justify"@ != "--pages"@) by { assert("--no-justify"@.len() != "--pages"@.len()); }
    assert("--no-justify"@ != "--width"@) by { assert("--no-justify"@.len() != "--width"@.len()); }
    assert("--no-justify"@ != "--height"@) by { assert("--no-justify"@.len() != "--height"@.len()); }
    assert("--no-justify"@ != "--justify"@) by { assert("--no-justify"@.len() != "--justify"@.len()); }
    assert("--justify-mode"@ != "--out"@) by { assert("--justify-mode"@.len() != "--out"@.len()); }
    assert("--justify-mode"@ != "--serve"@) by { assert("--justify-mode"@.len() != "--serve"@.len()); }
    assert("--justify-mode"@ != "--open"@) by { assert("--justify-mode"@.len() != "--open"@.len()); }
    assert("--justify-mode"@ != "--port"@) by { assert("--justify-mode"@.len() != "--port"@.len()); }
    assert("--justify-mode"@ != "--chapter"@) by { assert("--justify-mode"@.len() != "--chapter"@.len()); }
    assert("--justify-mode"@ != "--start-page"@) by { assert("--justify-mode"@.len() != "--start-page"@.len()); }
    assert("--justify-mode"@ != "--pages"@) by { assert("--justify-mode"@.len() != "--pages"@.len()); }
    assert("--justify-mode"@ != "--width"@) by { assert("--justify-mode"@.len() != "--width"@.len()); }
    assert("--justify-mode"@ != "--height"@) by { assert("--justify-mode"@.len() != "--height"@.len()); }
    assert("--justify-mode"@ != "--justify"@) by { assert("--justify-mode"@.len() != "--justify"@.len()); }
    assert("--justify-mode"@ != "--no-justify"@) by { assert("--justify-mode"@.len() != "--no-justify"@.len()); }
    assert("--cover-page-mode"@ != "--out"@) by { assert("--cover-page-mode"@.len() != "--out"@.len()); }
    assert("--cover-page-mode"@ != "--serve"@) by { assert("--cover-page-mode"@.len() != "--serve"@.len()); }
    assert("--cover-page-mode"@ != "--open"@) by { assert("--cover-page-mode"@.len() != "--open"@.len()); }
    assert("--cover-page-mode"@ != "--port"@) by { assert("--cover-page-mode"@.len() != "--port"@.len()); }
    assert("--cover-page-mode"@ != "--chapter"@) by { assert("--cover-page-mode"@.len() != "--chapter"@.len()); }
    assert("--cover-page-mode"@ != "--start-page"@) by { assert("--cover-page-mode"@.len() != "--start-page"@.len()); }
    assert("--cover-page-mode"@ != "--pages"@) by { assert("--cover-page-mode"@.len() != "--pages"@.len()); }
    assert("--cover-page-mode"@ != "--width"@) by { assert("--cover-page-mode"@.len() != "--width"@.len()); }
    assert("--cover-page-mode"@ != "--height"@) by { assert("--cover-page-mode"@.len() != "--height"@.len()); }
    assert("--cover-page-mode"@ != "--justify"@) by { assert("--cover-page-mode"@.len() != "--justify"@.len()); }
    assert("--cover-page-mode"@ != "--no-justify"@) by { assert("--cover-page-mode"@.len() != "--no-justify"@.len()); }
    assert("--cover-page-mode"@ != "--justify-mode"@) by { assert("--cover-page-mode"@.len() != "--justify-mode"@.len()); }
    assert("--font-size"@ != "--out"@) by { assert("--font-size"@.len() != "--out"@.len()); }
    assert("--font-size"@ != "--serve"@) by { assert("--font-size"@.len() != "--serve"@.len()); }
    assert("--font-size"@ != "--open"@) by { assert("--font-size"@.len() != "--open"@.len()); }
    assert("--font-size"@ != "--port"@) by { assert("--font-size"@.len() != "--port"@.len()); }
    assert("--font-size"@ != "--chapter"@) by { assert("--font-size"@.len() != "--chapter"@.len()); }
    assert("--font-size"@ != "--start-page"@) by { assert("--font-size"@.len() != "--start-page"@.len()); }
    assert("--font-size"@ != "--pages"@) by { assert("--font-size"@.len() != "--pages"@.len()); }
    assert("--font-size"@ != "--width"@) by { assert("--font-size"@.len() != "--width"@.len()); }
    assert("--font-size"@ != "--height"@) by { assert("--font-size"@.len() != "--height"@.len()); }
    assert("--font-size"@ != "--justify"@) by { assert("--font-size"@.len() != "--justify"@.len()); }
    assert("--font-size"@ != "--no-justify"@) by { assert("--font-size"@.len() != "--no-justify"@.len()); }
    assert("--font-size"@ != "--justify-mode"@) by { assert("--font-size"@.len() != "--justify-mode"@.len()); }
    assert("--font-size"@ != "--cover-page-mode"@) by { assert("--font-size"@.len() != "--cover-page-mode"@.len()); }
    assert("--text-scale"@ != "--out"@) by { assert("--text-scale"@.len() != "--out"@.len()); }
    assert("--text-scale"@ != "--serve"@) by { assert("--text-scale"@.len() != "--serve"@.len()); }
    assert("--text-scale"@ != "--open"@) by { assert("--text-scale"@.len() != "--open"@.len()); }
    assert("--text-scale"@ != "--port"@) by { assert("--text-scale"@.len() != "--port"@.len()); }
    assert("--text-scale"@ != "--chapter"@) by { assert("--text-scale"@.len() != "--chapter"@.len()); }
    assert("--text-scale"@ != "--start-page"@) by { assert("--text-scale"@[2] != "--start-page"@[2]); }
    assert("--text-scale"@ != "--pages"@) by { assert("--text-scale"@.len() != "--pages"@.len()); }
    assert("--text-scale"@ != "--width"@) by { assert("--text-scale"@.len() != "--width"@.len()); }
    assert("--text-scale"@ != "--height"@) by { assert("--text-scale"@.len() != "--height"@.len()); }
    assert("--text-scale"@ != "--justify"@) by { assert("--text-scale"@.len() != "--justify"@.len()); }
    assert("--text-scale"@ != "--no-justify"@) by { assert("--text-scale"@[2] != "--no-justify"@[2]); }
    assert("--text-scale"@ != "--justify-mode"@) by { assert("--text-scale"@.len() != "--justify-mode"@.len()); }
    assert("--text-scale"@ != "--cover-page-mode"@) by { assert("--text-scale"@.len() != "--cover-page-mode"@.len()); }
    assert("--text-scale"@ != "--font-size"@) by { assert("--text-scale"@.len() != "--font-size"@.len()); }
    assert("--line-gap"@ != "--out"@) by { assert("--line-gap"@.len() != "--out"@.len()); }
    assert("--line-gap"@ != "--serve"@) by { assert("--line-gap"@.len() != "--serve"@.len()); }
    assert("--line-gap"@ != "--open"@) by { assert("--line-gap"@.len() != "--open"@.len()); }
    assert("--line-gap"@ != "--port"@) by { assert("--line-gap"@.len() != "--port"@.len()); }
    assert("--line-gap"@ != "--chapter"@) by { assert("--line-gap"@.len() != "--chapter"@.len()); }
    assert("--line-gap"@ != "--start-page"@) by { assert("--line-gap"@.len() != "--start-page"@.len()); }
    assert("--line-gap"@ != "--pages"@) by { assert("--line-gap"@.len() != "--pages"@.len()); }
    assert("--line-gap"@ != "--width"@) by { assert("--line-gap"@.len() != "--width"@.len()); }
    assert("--line-gap"@ != "--height"@) by { assert("--line-gap"@.len() != "--height"@.len()); }
    assert("--line-gap"@ != "--justify"@) by { assert("--line-gap"@.len() != "--justify"@.len()); }
    assert("--line-gap"@ != "--no-justify"@) by { assert("--line-gap"@.len() != "--no-justify"@.len()); }
    assert("--line-gap"@ != "--justify-mode"@) by { assert("--line-gap"@.len() != "--justify-mode"@.len()); }
    assert("--line-gap"@ != "--cover-page-mode"@) by { assert("--line-gap"@.len() != "--cover-page-mode"@.len()); }
    assert("--line-gap"@ != "--font-size"@) by { assert("--line-gap"@.len() != "--font-size"@.len()); }
    assert("--line-gap"@ != "--text-scale"@) by { assert("--line-gap"@.len() != "--text-scale"@.len()); }
    assert("--paragraph-gap"@ != "--out"@) by { assert("--paragraph-gap"@.len() != "--out"@.len()); }
    assert("--paragraph-gap"@ != "--serve"@) by { assert("--paragraph-gap"@.len() != "--serve"@.len()); }
    assert("--paragraph-gap"@ != "--open"@) by { assert("--paragraph-gap"@.len() != "--open"@.len()); }
    assert("--paragraph-gap"@ != "--port"@) by { assert("--paragraph-gap"@.len() != "--port"@.len()); }
    assert("--paragraph-gap"@ != "--chapter"@) by { assert("--paragraph-gap"@.len() != "--chapter"@.len()); }
    assert("--paragraph-gap"@ != "--start-page"@) by { assert("--paragraph-gap"@.len() != "--start-page"@.len()); }
    assert("--paragraph-gap"@ != "--pages"@) by { assert("--paragraph-gap"@.len() != "--pages"@.len()); }
    assert("--paragraph-gap"@ != "--width"@) by { assert("--paragraph-gap"@.len() != "--width"@.len()); }
    assert("--paragraph-gap"@ != "--height"@) by { assert("--paragraph-gap"@.len() != "--height"@.len()); }
    assert("--paragraph-gap"@ != "--justify"@) by { assert("--paragraph-gap"@.len() != "--justify"@.len()); }
    assert("--paragraph-gap"@ != "--no-justify"@) by { assert("--paragraph-gap"@.len() != "--no-justify"@.len()); }
    assert("--paragraph-gap"@ != "--justify-mode"@) by { assert("--paragraph-gap"@.len() != "--justify-mode"@.len()); }
    assert("--paragraph-gap"@ != "--cover-page-mode"@) by { assert("--paragraph-gap"@.len() != "--cover-page-mode"@.len()); }
    assert("--paragraph-gap"@ != "--font-size"@) by { assert("--paragraph-gap"@.len() != "--font-size"@.len()); }
    assert("--paragraph-gap"@ != "--text-scale"@) by { assert("--paragraph-gap"@.len() != "--text-scale"@.len()); }
    assert("--paragraph-gap"@ != "--line-gap"@) by { assert("--paragraph-gap"@.len() != "--line-gap"@.len()); }
    assert("--margin-left"@ != "--out"@) by { assert("--margin-left"@.len() != "--out"@.len()); }
    assert("--margin-left"@ != "--serve"@) by { assert("--margin-left"@.len() != "--serve"@.len()); }
    assert("--margin-left"@ != "--open"@) by { assert("--margin-left"@.len() != "--open"@.len()); }
    assert("--margin-left"@ != "--port"@) by { assert("--margin-left"@.len() != "--port"@.len()); }
    assert("--margin-left"@ != "--chapter"@) by { assert("--margin-left"@.len() != "--chapter"@.len()); }
    assert("--margin-left"@ != "--start-page"@) by { assert("--margin-left"@.len() != "--start-page"@.len()); }
    assert("--margin-left"@ != "--pages"@) by { assert("--margin-left"@.len() != "--pages"@.len()); }
    assert("--margin-left"@ != "--width"@) by { assert("--margin-left"@.len() != "--width"@.len()); }
    assert("--margin-left"@ != "--height"@) by { assert("--margin-left"@.len() != "--height"@.len()); }
    assert("--margin-left"@ != "--justify"@) by { assert("--margin-left"@.len() != "--justify"@.len()); }
    assert("--margin-left"@ != "--no-justify"@) by { assert("--margin-left"@.len() != "--no-justify"@.len()); }
    assert("--margin-left"@ != "--justify-mode"@) by { assert("--margin-left"@.len() != "--justify-mode"@.len()); }
    assert("--margin-left"@ != "--cover-page-mode"@) by { assert("--margin-left"@.len() != "--cover-page-mode"@.len()); }
    assert("--margin-left"@ != "--font-size"@) by { assert("--margin-left"@.len() != "--font-size"@.len()); }
    assert("--margin-left"@ != "--text-scale"@) by { assert("--margin-left"@.len() != "--text-scale"@.len()); }
    assert("--margin-left"@ != "--line-gap"@) by { assert("--margin-left"@.len() != "--line-gap"@.len()); }
    assert("--margin-left"@ != "--paragraph-gap"@) by { assert("--margin-left"@.len() != "--paragraph-gap"@.len()); }
    assert("--margin-right"@ != "--out"@) by { assert("--margin-right"@.len() != "--out"@.len()); }
    assert("--margin-right"@ != "--serve"@) by { assert("--margin-right"@.len() != "--serve"@.len()); }
    assert("--margin-right"@ != "--open"@) by { assert("--margin-right"@.len() != "--open"@.len()); }
    assert("--margin-right"@ != "--port"@) by { assert("--margin-right"@.len() != "--port"@.len()); }
    assert("--margin-right"@ != "--chapter"@) by { assert("--margin-right"@.len() != "--chapter"@.len()); }
    assert("--margin-right"@ != "--start-page"@) by { assert("--margin-right"@.len() != "--start-page"@.len()); }
    assert("--margin-right"@ != "--pages"@) by { assert("--margin-right"@.len() != "--pages"@.len()); }
    assert("--margin-right"@ != "--width"@) by { assert("--margin-right"@.len() != "--width"@.len()); }
    assert("--margin-right"@ != "--height"@) by { assert("--margin-right"@.len() != "--height"@.len()); }
    assert("--margin-right"@ != "--justify"@) by { assert("--margin-right"@.len() != "--justify"@.len()); }
    assert("--margin-right"@ != "--no-justify"@) by { assert("--margin-right"@.len() != "--no-justify"@.len()); }
    assert("--margin-right"@ != "--justify-mode"@) by { assert("--margin-right"@[2] != "--justify-mode"@[2]); }
    assert("--margin-right"@ != "--cover-page-mode"@) by { assert("--margin-right"@.len() != "--cover-page-mode"@.len()); }
    assert("--margin-right"@ != "--font-size"@) by { assert("--margin-right"@.len() != "--font-size"@.len()); }
    assert("--margin-right"@ != "--text-scale"@) by { assert("--margin-right"@.len() != "--text-scale"@.len()); }
    assert("--margin-right"@ != "--line-gap"@) by { assert("--margin-right"@.len() != "--line-gap"@.len()); }
    assert("--margin-right"@ != "--paragraph-gap"@) by { assert("--margin-right"@.len() != "--paragraph-gap"@.len()); }
    assert("--margin-right"@ != "--margin-left"@) by { assert("--margin-right"@.len() != "--margin-left"@.len()); }
    assert("--margin-top"@ != "--out"@) by { assert("--margin-top"@.len() != "--out"@.len()); }
    assert("--margin-top"@ != "--serve"@) by { assert("--margin-top"@.len() != "--serve"@.len()); }
    assert("--margin-top"@ != "--open"@) by { assert("--margin-top"@.len() != "--open"@.len()); }
    assert("--margin-top"@ != "--port"@) by { assert("--margin-top"@.len() != "--port"@.len()); }
    assert("--margin-top"@ != "--chapter"@) by { assert("--margin-top"@.len() != "--chapter"@.len()); }
    assert("--margin-top"@ != "--start-page"@) by { assert("--margin-top"@[2] != "--start-page"@[2]); }
    assert("--margin-top"@ != "--pages"@) by { assert("--margin-top"@.len() != "--pages"@.len()); }
    assert("--margin-top"@ != "--width"@) by { assert("--margin-top"@.len() != "--width"@.len()); }
    assert("--margin-top"@ != "--height"@) by { assert("--margin-top"@.len() != "--height"@.len()); }
    assert("--margin-top"@ != "--justify"@) by { assert("--margin-top"@.len() != "--justify"@.len()); }
    assert("--margin-top"@ != "--no-justify"@) by { assert("--margin-top"@[2] != "--no-justify"@[2]); }
    assert("--margin-top"@ != "--justify-mode"@) by { assert("--margin-top"@.len() != "--justify-mode"@.len()); }
    assert("--margin-top"@ != "--cover-page-mode"@) by { assert("--margin-top"@.len() != "--cover-page-mode"@.len()); }
    assert("--margin-top"@ != "--font-size"@) by { assert("--margin-top"@.len() != "--font-size"@.len()); }
    assert("--margin-top"@ != "--text-scale"@) by { assert("--margin-top"@[2] != "--text-scale"@[2]); }
    assert("--margin-top"@ != "--line-gap"@) by { assert("--margin-top"@.len() != "--line-gap"@.len()); }
    assert("--margin-top"@ != "--paragraph-gap"@) by { assert("--margin-top"@.len() != "--paragraph-gap"@.len()); }
    assert("--margin-top"@ != "--margin-left"@) by { assert("--margin-top"@.len() != "--margin-left"@.len()); }
    assert("--margin-top"@ != "--margin-right"@) by { assert("--margin-top"@.len() != "--margin-right"@.len()); }
    assert("--margin-bottom"@ != "--out"@) by { assert("--margin-bottom"@.len() != "--out"@.len()); }
    assert("--margin-bottom"@ != "--serve"@) by { assert("--margin-bottom"@.len() != "--serve"@.len()); }
    assert("--margin-bottom"@ != "--open"@) by { assert("--margin-bottom"@.len() != "--open"@.len()); }
    assert("--margin-bottom"@ != "--port"@) by { assert("--margin-bottom"@.len() != "--port"@.len()); }
    assert("--margin-bottom"@ != "--chapter"@) by { assert("--margin-bottom"@.len() != "--chapter"@.len()); }
    assert("--margin-bottom"@ != "--start-page"@) by { assert("--margin-bottom"@.len() != "--start-page"@.len()); }
    assert("--margin-bottom"@ != "--pages"@) by { assert("--margin-bottom"@.len() != "--pages"@.len()); }
    assert("--margin-bottom"@ != "--width"@) by { assert("--margin-bottom"@.len() != "--width"@.len()); }
    assert("--margin-bottom"@ != "--height"@) by { assert("--margin-bottom"@.len() != "--height"@.len()); }
    assert("--margin-bottom"@ != "--justify"@) by { assert("--margin-bottom"@.len() != "--justify"@.len()); }
    assert("--margin-bottom"@ != "--no-justify"@) by { assert("--margin-bottom"@.len() != "--no-justify"@.len()); }
    assert("--margin-bottom"@ != "--justify-mode"@) by { assert("--margin-bottom"@.len() != "--justify-mode"@.len()); }
    assert("--margin-bottom"@ != "--cover-page-mode"@) by { assert("--margin-bottom"@.len() != "--cover-page-mode"@.len()); }
    assert("--margin-bottom"@ != "--font-size"@) by { assert("--margin-bottom"@.len() != "--font-size"@.len()); }
    assert("--margin-bottom"@ != "--text-scale"@) by { assert("--margin-bottom"@.len() != "--text-scale"@.len()); }
    assert("--margin-bottom"@ != "--line-gap"@) by { assert("--margin-bottom"@.len() != "--line-gap"@.len()); }
    assert("--margin-bottom"@ != "--paragraph-gap"@) by { assert("--margin-bottom"@[2] != "--paragraph-gap"@[2]); }
    assert("--margin-bottom"@ != "--margin-left"@) by { assert("--margin-bottom"@.len() != "--margin-left"@.len()); }
    assert("--margin-bottom"@ != "--margin-right"@) by { assert("--margin-bottom"@.len() != "--margin-right"@.len()); }
    assert("--margin-bottom"@ != "--margin-top"@) by { assert("--margin-bottom"@.len() != "--margin-top"@.len()); }
    assert("--justify-min-words"@ != "--out"@) by { assert("--justify-min-words"@.len() != "--out"@.len()); }
    assert("--justify-min-words"@ != "--serve"@) by { assert("--justify-min-words"@.len() != "--serve"@.len()); }
    assert("--justify-min-words"@ != "--open"@) by { assert("--justify-min-words"@.len() != "--open"@.len()); }
    assert("--justify-min-words"@ != "--port"@) by { assert("--justify-min-words"@.len() != "--port"@.len()); }
    assert("--justify-min-words"@ != "--chapter"@) by { assert("--justify-min-words"@.len() != "--chapter"@.len()); }
    assert("--justify-min-words"@ != "--start-page"@) by { assert("--justify-min-words"@.len() != "--start-page"@.len()); }
    assert("--justify-min-words"@ != "--pages"@) by { assert("--justify-min-words"@.len() != "--pages"@.len()); }
    assert("--justify-min-words"@ != "--width"@) by { assert("--justify-min-words"@.len() != "--width"@.len()); }
    assert("--justify-min-words"@ != "--height"@) by { assert("--justify-min-words"@.len() != "--height"@.len()); }
    assert("--justify-min-words"@ != "--justify"@) by { assert("--justify-min-words"@.len() != "--justify"@.len()); }
    assert("--justify-min-words"@ != "--no-justify"@) by { assert("--justify-min-words"@.len() != "--no-justify"@.len()); }
    assert("--justify-min-words"@ != "--justify-mode"@) by { assert("--justify-min-words"@.len() != "--justify-mode"@.len()); }
    assert("--justify-min-words"@ != "--cover-page-mode"@) by { assert("--justify-min-words"@.len() != "--cover-page-mode"@.len()); }
    assert("--justify-min-words"@ != "--font-size"@) by { assert("--justify-min-words"@.len() != "--font-size"@.len()); }
    assert("--justify-min-words"@ != "--text-scale"@) by { assert("--justify-min-words"@.len() != "--text-scale"@.len()); }
    assert("--justify-min-words"@ != "--line-gap"@) by { assert("--justify-min-words"@.len() != "--line-gap"@.len()); }
    assert("--justify-min-words"@ != "--paragraph-gap"@) by { assert("--justify-min-words"@.len() != "--paragraph-gap"@.len()); }
    assert("--justify-min-words"@ != "--margin-left"@) by { assert("--justify-min-words"@.len() != "--margin-left"@.len()); }
    assert("--justify-min-words"@ != "--margin-right"@) by { assert("--justify-min-words"@.len() != "--margin-right"@.len()); }
    assert("--justify-min-words"@ != "--margin-top"@) by { assert("--justify-min-words"@.len() != "--margin-top"@.len()); }
    assert("--justify-min-words"@ != "--margin-bottom"@) by { assert("--justify-min-words"@.len() != "--margin-bottom"@.len()); }
    assert("--justify-min-fill"@ != "--out"@) by { assert("--justify-min-fill"@.len() != "--out"@.len()); }
    assert("--justify-min-fill"@ != "--serve"@) by { assert("--justify-min-fill"@.len() != "--serve"@.len()); }
    assert("--justify-min-fill"@ != "--open"@) by { assert("--justify-min-fill"@.len() != "--open"@.len()); }
    assert("--justify-min-fill"@ != "--port"@) by { assert("--justify-min-fill"@.len() != "--port"@.len()); }
    assert("--justify-min-fill"@ != "--chapter"@) by { assert("--justify-min-fill"@.len() != "--chapter"@.len()); }
    assert("--justify-min-fill"@ != "--start-page"@) by { assert("--justify-min-fill"@.len() != "--start-page"@.len()); }
    assert("--justify-min-fill"@ != "--pages"@) by { assert("--justify-min-fill"@.len() != "--pages"@.len()); }
    assert("--justify-min-fill"@ != "--width"@) by { assert("--justify-min-fill"@.len() != "--width"@.len()); }
    assert("--justify-min-fill"@ != "--height"@) by { assert("--justify-min-fill"@.len() != "--height"@.len()); }
    assert("--justify-min-fill"@ != "--justify"@) by { assert("--justify-min-fill"@.len() != "--justify"@.len()); }
    assert("--justify-min-fill"@ != "--no-justify"@) by { assert("--justify-min-fill"@.len() != "--no-justify"@.len()); }
    assert("--justify-min-fill"@ != "--justify-mode"@) by { assert("--justify-min-fill"@.len() != "--justify-mode"@.len()); }
    assert("--justify-min-fill"@ != "--cover-page-mode"@) by { assert("--justify-min-fill"@.len() != "--cover-page-mode"@.len()); }
    assert("--justify-min-fill"@ != "--font-size"@) by { assert("--justify-min-fill"@.len() != "--font-size"@.len()); }
    assert("--justify-min-fill"@ != "--text-scale"@) by { assert("--justify-min-fill"@.len() != "--text-scale"@.len()); }
    assert("--justify-min-fill"@ != "--line-gap"@) by { assert("--justify-min-fill"@.len() != "--line-gap"@.len()); }
    assert("--justify-min-fill"@ != "--paragraph-gap"@) by { assert("--justify-min-fill"@.len() != "--paragraph-gap"@.len()); }
    assert("--justify-min-fill"@ != "--margin-left"@) by { assert("--justify-min-fill"@.len() != "--margin-left"@.len()); }
    assert("--justify-min-fill"@ != "--margin-right"@) by { assert("--justify-min-fill"@.len() != "--margin-right"@.len()); }
    assert("--justify-min-fill"@ != "--margin-top"@) by { assert("--justify-min-fill"@.len() != "--margin-top"@.len()); }
    assert("--justify-min-fill"@ != "--margin-bottom"@) by { assert("--justify-min-fill"@.len() != "--margin-bottom"@.len()); }
    assert("--justify-min-fill"@ != "--justify-min-words"@) by { assert("--justify-min-fill"@.len() != "--justify-min-words"@.len()); }
    assert("--justify-max-space-stretch"@ != "--out"@) by { assert("--justify-max-space-stretch"@.len() != "--out"@.len()); }
    assert("--justify-max-space-stretch"@ != "--serve"@) by { assert("--justify-max-space-stretch"@.len() != "--serve"@.len()); }
    assert("--justify-max-space-stretch"@ != "--open"@) by { assert("--justify-max-space-stretch"@.len() != "--open"@.len()); }
    assert("--justify-max-space-stretch"@ != "--port"@) by { assert("--justify-max-space-stretch"@.len() != "--port"@.len()); }
    assert("--justify-max-space-stretch"@ != "--chapter"@) by { assert("--justify-max-space-stretch"@.len() != "--chapter"@.len()); }
    assert("--justify-max-space-stretch"@ != "--start-page"@) by { assert("--justify-max-space-stretch"@.len() != "--start-page"@.len()); }
    assert("--justify-max-space-stretch"@ != "--pages"@) by { assert("--justify-max-space-stretch"@.len() != "--pages"@.len()); }
    assert("--justify-max-space-stretch"@ != "--width"@) by { assert("--justify-max-space-stretch"@.len() != "--width"@.len()); }
    assert("--justify-max-space-stretch"@ != "--height"@) by { assert("--justify-max-space-stretch"@.len() != "--height"@.len()); }
    assert("--justify-max-space-stretch"@ != "--justify"@) by { assert("--justify-max-space-stretch"@.len() != "--justify"@.len()); }
    assert("--justify-max-space-stretch"@ != "--no-justify"@) by { assert("--justify-max-space-stretch"@.len() != "--no-justify"@.len()); }
    assert("--justify-max-space-stretch"@ != "--justify-mode"@) by { assert("--justify-max-space-stretch"@.len() != "--justify-mode"@.len()); }
    assert("--justify-max-space-stretch"@ != "--cover-page-mode"@) by { assert("--justify-max-space-stretch"@.len() != "--cover-page-mode"@.len()); }
    assert("--justify-max-space-stretch"@ != "--font-size"@) by { assert("--justify-max-space-stretch"@.len() != "--font-size"@.len()); }
    assert("--justify-max-space-stretch"@ != "--text-scale"@) by { assert("--justify-max-space-stretch"@.len() != "--text-scale"@.len()); }
    assert("--justify-max-space-stretch"@ != "--line-gap"@) by { assert("--justify-max-space-stretch"@.len() != "--line-gap"@.len()); }
    assert("--justify-max-space-stretch"@ != "--paragraph-gap"@) by { assert("--justify-max-space-stretch"@.len() != "--paragraph-gap"@.len()); }
    assert("--justify-max-space-stretch"@ != "--margin-left"@) by { assert("--justify-max-space-stretch"@.len() != "--margin-left"@.len()); }
    assert("--justify-max-space-stretch"@ != "--margin-right"@) by { assert("--justify-max-space-stretch"@.len() != "--margin-right"@.len()); }
    assert("--justify-max-space-stretch"@ != "--margin-top"@) by { assert("--justify-max-space-stretch"@.len() != "--margin-top"@.len()); }
    assert("--justify-max-space-stretch"@ != "--margin-bottom"@) by { assert("--justify-max-space-stretch"@.len() != "--margin-bottom"@.len()); }
    assert("--justify-max-space-stretch"@ != "--justify-min-words"@) by { assert("--justify-max-space-stretch"@.len() != "--justify-min-words"@.len()); }
    assert("--justify-max-space-stretch"@ != "--justify-min-fill"@) by { assert("--justify-max-space-stretch"@.len() != "--justify-min-fill"@.len()); }
    assert("--no-widow-orphan"@ != "--out"@) by { assert("--no-widow-orphan"@.len() != "--out"@.len()); }
    assert("--no-widow-orphan"@ != "--serve"@) by { assert("--no-widow-orphan"@.len() != "--serve"@.len()); }
    assert("--no-widow-orphan"@ != "--open"@) by { assert("--no-widow-orphan"@.len() != "--open"@.len()); }
    assert("--no-widow-orphan"@ != "--port"@) by { assert("--no-widow-orphan"@.len() != "--port"@.len()); }
    assert("--no-widow-orphan"@ != "--chapter"@) by { assert("--no-widow-orphan"@.len() != "--chapter"@.len()); }
    assert("--no-widow-orphan"@ != "--start-page"@) by { assert("--no-widow-orphan"@.len() != "--start-page"@.len()); }
    assert("--no-widow-orphan"@ != "--pages"@) by { assert("--no-widow-orphan"@.len() != "--pages"@.len()); }
    assert("--no-widow-orphan"@ != "--width"@) by { assert("--no-widow-orphan"@.len() != "--width"@.len()); }
    assert("--no-widow-orphan"@ != "--height"@) by { assert("--no-widow-orphan"@.len() != "--height"@.len()); }
    assert("--no-widow-orphan"@ != "--justify"@) by { assert("--no-widow-orphan"@.len() != "--justify"@.len()); }
    assert("--no-widow-orphan"@ != "--no-justify"@) by { assert("--no-widow-orphan"@.len() != "--no-justify"@.len()); }
    assert("--no-widow-orphan"@ != "--justify-mode"@) by { assert("--no-widow-orphan"@.len() != "--justify-mode"@.len()); }
    assert("--no-widow-orphan"@ != "--cover-page-mode"@) by { assert("--no-widow-orphan"@[2] != "--cover-page-mode"@[2]); }
    assert("--no-widow-orphan"@ != "--font-size"@) by { assert("--no-widow-orphan"@.len() != "--font-size"@.len()); }
    assert("--no-widow-orphan"@ != "--text-scale"@) by { assert("--no-widow-orphan"@.len() != "--text-scale"@.len()); }
    assert("--no-widow-orphan"@ != "--line-gap"@) by { assert("--no-widow-orphan"@.len() != "--line-gap"@.len()); }
    assert("--no-widow-orphan"@ != "--paragraph-gap"@) by { assert("--no-widow-orphan"@.len() != "--paragraph-gap"@.len()); }
    assert("--no-widow-orphan"@ != "--margin-left"@) by { assert("--no-widow-orphan"@.len() != "--margin-left"@.len()); }
    assert("--no-widow-orphan"@ != "--margin-right"@) by { assert("--no-widow-orphan"@.len() != "--margin-right"@.len()); }
    assert("--no-widow-orphan"@ != "--margin-top"@) by { assert("--no-widow-orphan"@.len() != "--margin-top"@.len()); }
    assert("--no-widow-orphan"@ != "--margin-bottom"@) by { assert("--no-widow-orphan"@.len() != "--margin-bottom"@.len()); }
    assert("--no-widow-orphan"@ != "--justify-min-words"@) by { assert("--no-widow-orphan"@.len() != "--justify-min-words"@.len()); }
    assert("--no-widow-orphan"@ != "--justify-min-fill"@) by { assert("--no-widow-orphan"@.len() != "--justify-min-fill"@.len()); }
    assert("--no-widow-orphan"@ != "--justify-max-space-stretch"@) by { assert("--no-widow-orphan"@.len() != "--justify-max-space-stretch"@.len()); }
    assert("--widow-orphan-min-lines"@ != "--out"@) by { assert("--widow-orphan-min-lines"@.len() != "--out"@.len()); }
    assert("--widow-orphan-min-lines"@ != "--serve"@) by { assert("--widow-orphan-min-lines"@.len() != "--serve"@.len()); }
    assert("--widow-orphan-min-lines"@ != "--open"@) by { assert("--widow-orphan-min-lines"@.len() != "--open"@.len()); }
    assert("--widow-orphan-min-lines"@ != "--port"@) by { assert("--widow-orphan-min-lines"@.len() != "--port"@.len()); }
    assert("--widow-orphan-min-lines"@ != "--chapter"@) by { assert("--widow-orphan-min-lines"@.len() != "--chapter"@.len()); }
    assert("--widow-orphan-min-lines"@ != "--start-page"@) by { assert("--widow-orphan-min-lines"@.len() != "--start-page"@.len()); }
    assert("--widow-orphan-min-lines"@ != "--pages"@) by { assert("--widow-orphan-min-lines"@.len() != "--pages"@.len()); }
    assert("--widow-orphan-min-lines"@ != "--width"@) by { assert("--widow-orphan-min-lines"@.len() != "--width"@.len()); }
    assert("--widow-orphan-min-lines"@ != "--height"@) by { assert("--widow-orphan-min-lines"@.len() != "--height"@.len()); }
    assert("--widow-orphan-min-lines"@ != "--justify"@) by { assert("--widow-orphan-min-lines"@.len() != "--justify"@.len()); }
    assert("--widow-orphan-min-lines"@ != "--no-justify"@) by { assert("--widow-orphan-min-lines"@.len() != "--no-justify"@.len()); }
    assert("--widow-orphan-min-lines"@ != "--justify-mode"@) by { assert("--widow-orphan-min-lines"@.len() != "--justify-mode"@.len()); }
    assert("--widow-orphan-min-lines"@ != "--cover-page-mode"@) by { assert("--widow-orphan-min-lines"@.len() != "--cover-page-mode"@.len()); }
    assert("--widow-orphan-min-lines"@ != "--font-size"@) by { assert("--widow-orphan-min-lines"@.len() != "--font-size"@.len()); }
    assert("--widow-orphan-min-lines"@ != "--text-scale"@) by { assert("--widow-orphan-min-lines"@.len() != "--text-scale"@.len()); }
    assert("--widow-orphan-min-lines"@ != "--line-gap"@) by { assert("--widow-orphan-min-lines"@.len() != "--line-gap"@.len()); }
    assert("--widow-orphan-min-lines"@ != "--paragraph-gap"@) by { assert("--widow-orphan-min-lines"@.len() != "--paragraph-gap"@.len()); }
    assert("--widow-orphan-min-lines"@ != "--margin-left"@) by { assert("--widow-orphan-min-lines"@.len() != "--margin-left"@.len()); }
    assert("--widow-orphan-min-lines"@ != "--margin-right"@) by { assert("--widow-orphan-min-lines"@.len() != "--margin-right"@.len()); }
    assert("--widow-orphan-min-lines"@ != "--margin-top"@) by { assert("--widow-orphan-min-lines"@.len() != "--margin-top"@.len()); }
    assert("--widow-orphan-min-lines"@ != "--margin-bottom"@) by { assert("--widow-orphan-min-lines"@.len() != "--margin-bottom"@.len()); }
    assert("--widow-orphan-min-lines"@ != "--justify-min-words"@) by { assert("--widow-orphan-min-lines"@.len() != "--justify-min-words"@.len()); }
    assert("--widow-orphan-min-lines"@ != "--justify-min-fill"@) by { assert("--widow-orphan-min-lines"@.len() != "--justify-min-fill"@.len()); }
    assert("--widow-orphan-min-lines"@ != "--justify-max-space-stretch"@) by { assert("--widow-orphan-min-lines"@.len() != "--justify-max-space-stretch"@.len()); }
    assert("--widow-orphan-min-lines"@ != "--no-widow-orphan"@) by { assert("--widow-orphan-min-lines"@.len() != "--no-widow-orphan"@.len()); }
    assert("--no-hanging-punctuation"@ != "--out"@) by { assert("--no-hanging-punctuation"@.len() != "--out"@.len()); }
    assert("--no-hanging-punctuation"@ != "--serve"@) by { assert("--no-hanging-punctuation"@.len() != "--serve"@.len()); }
    assert("--no-hanging-punctuation"@ != "--open"@) by { assert("--no-hanging-punctuation"@.len() != "--open"@.len()); }
    assert("--no-hanging-punctuation"@ != "--port"@) by { assert("--no-hanging-punctuation"@.len() != "--port"@.len()); }
    assert("--no-hanging-punctuation"@ != "--chapter"@) by { assert("--no-hanging-punctuation"@.len() != "--chapter"@.len()); }
    assert("--no-hanging-punctuation"@ != "--start-page"@) by { assert("--no-hanging-punctuation"@.len() != "--start-page"@.len()); }
    assert("--no-hanging-punctuation"@ != "--pages"@) by { assert("--no-hanging-punctuation"@.len() != "--pages"@.len()); }
    assert("--no-hanging-punctuation"@ != "--width"@) by { assert("--no-hanging-punctuation"@.len() != "--width"@.len()); }
    assert("--no-hanging-punctuation"@ != "--height"@) by { assert("--no-hanging-punctuation"@.len() != "--height"@.len()); }
    assert("--no-hanging-punctuation"@ != "--justify"@) by { assert("--no-hanging-punctuation"@.len() != "--justify"@.len()); }
    assert("--no-hanging-punctuation"@ != "--no-justify"@) by { assert("--no-hanging-punctuation"@.len() != "--no-justify"@.len()); }
    assert("--no-hanging-punctuation"@ != "--justify-mode"@) by { assert("--no-hanging-punctuation"@.len() != "--justify-mode"@.len()); }
    assert("--no-hanging-punctuation"@ != "--cover-page-mode"@) by { assert("--no-hanging-punctuation"@.len() != "--cover-page-mode"@.len()); }
    assert("--no-hanging-punctuation"@ != "--font-size"@) by { assert("--no-hanging-punctuation"@.len() != "--font-size"@.len()); }
    assert("--no-hanging-punctuation"@ != "--text-scale"@) by { assert("--no-hanging-punctuation"@.len() != "--text-scale"@.len()); }
    assert("--no-hanging-punctuation"@ != "--line-gap"@) by { assert("--no-hanging-punctuation"@.len() != "--line-gap"@.len()); }
    assert("--no-hanging-punctuation"@ != "--paragraph-gap"@) by { assert("--no-hanging-punctuation"@.len() != "--paragraph-gap"@.len()); }
    assert("--no-hanging-punctuation"@ != "--margin-left"@) by { assert("--no-hanging-punctuation"@.len() != "--margin-left"@.len()); }
    assert("--no-hanging-punctuation"@ != "--margin-right"@) by { assert("--no-hanging-punctuation"@.len() != "--margin-right"@.len()); }
    assert("--no-hanging-punctuation"@ != "--margin-top"@) by { assert("--no-hanging-punctuation"@.len() != "--margin-top"@.len()); }
    assert("--no-hanging-punctuation"@ != "--margin-bottom"@) by { assert("--no-hanging-punctuation"@.len() != "--margin-bottom"@.len()); }
    assert("--no-hanging-punctuation"@ != "--justify-min-words"@) by { assert("--no-hanging-punctuation"@.len() != "--justify-min-words"@.len()); }
    assert("--no-hanging-punctuation"@ != "--justify-min-fill"@) by { assert("--no-hanging-punctuation"@.len() != "--justify-min-fill"@.len()); }
    assert("--no-hanging-punctuation"@ != "--justify-max-space-stretch"@) by { assert("--no-hanging-punctuation"@.len() != "--justify-max-space-stretch"@.len()); }
    assert("--no-hanging-punctuation"@ != "--no-widow-orphan"@) by { assert("--no-hanging-punctuation"@.len() != "--no-widow-orphan"@.len()); }
    assert("--no-hanging-punctuation"@ != "--widow-orphan-min-lines"@) by { assert("--no-hanging-punctuation"@[2] != "--widow-orphan-min-lines"@[2]); }
    assert("--max-image-bytes"@ != "--out"@) by { assert("--max-image-bytes"@.len() != "--out"@.len()); }
    assert("--max-image-bytes"@ != "--serve"@) by { assert("--max-image-bytes"@.len() != "--serve"@.len()); }
    assert("--max-image-bytes"@ != "--open"@) by { assert("--max-image-bytes"@.len() != "--open"@.len()); }
    assert("--max-image-bytes"@ != "--port"@) by { assert("--max-image-bytes"@.len() != "--port"@.len()); }
    assert("--max-image-bytes"@ != "--chapter"@) by { assert("--max-image-bytes"@.len() != "--chapter"@.len()); }
    assert("--max-image-bytes"@ != "--start-page"@) by { assert("--max-image-bytes"@.len() != "--start-page"@.len()); }
    assert("--max-image-bytes"@ != "--pages"@) by { assert("--max-image-bytes"@.len() != "--pages"@.len()); }
    assert("--max-image-bytes"@ != "--width"@) by { assert("--max-image-bytes"@.len() != "--width"@.len()); }
    assert("--max-image-bytes"@ != "--height"@) by { assert("--max-image-bytes"@.len() != "--height"@.len()); }
    assert("--max-image-bytes"@ != "--justify"@) by { assert("--max-image-bytes"@.len() != "--justify"@.len()); }
    assert("--max-image-bytes"@ != "--no-justify"@) by { assert("--max-image-bytes"@.len() != "--no-justify"@.len()); }
    assert("--max-image-bytes"@ != "--justify-mode"@) by { assert("--max-image-bytes"@.len() != "--justify-mode"@.len()); }
    assert("--max-image-bytes"@ != "--cover-page-mode"@) by { assert("--max-image-bytes"@[2] != "--cover-page-mode"@[2]); }
    assert("--max-image-bytes"@ != "--font-size"@) by { assert("--max-image-bytes"@.len() != "--font-size"@.len()); }
    assert("--max-image-bytes"@ != "--text-scale"@) by { assert("--max-image-bytes"@.len() != "--text-scale"@.len()); }
    assert("--max-image-bytes"@ != "--line-gap"@) by { assert("--max-image-bytes"@.len() != "--line-gap"@.len()); }
    assert("--max-image-bytes"@ != "--paragraph-gap"@) by { assert("--max-image-bytes"@.len() != "--paragraph-gap"@.len()); }
    assert("--max-image-bytes"@ != "--margin-left"@) by { assert("--max-image-bytes"@.len() != "--margin-left"@.len()); }
    assert("--max-image-bytes"@ != "--margin-right"@) by { assert("--max-image-bytes"@.len() != "--margin-right"@.len()); }
    assert("--max-image-bytes"@ != "--margin-top"@) by { assert("--max-image-bytes"@.len() != "--margin-top"@.len()); }
    assert("--max-image-bytes"@ != "--margin-bottom"@) by { assert("--max-image-bytes"@.len() != "--margin-bottom"@.len()); }
    assert("--max-image-bytes"@ != "--justify-min-words"@) by { assert("--max-image-bytes"@.len() != "--justify-min-words"@.len()); }
    assert("--max-image-bytes"@ != "--justify-min-fill"@) by { assert("--max-image-bytes"@.len() != "--justify-min-fill"@.len()); }
    assert("--max-image-bytes"@ != "--justify-max-space-stretch"@) by { assert("--max-image-bytes"@.len() != "--justify-max-space-stretch"@.len()); }
    assert("--max-image-bytes"@ != "--no-widow-orphan"@) by { assert("--max-image-bytes"@[2] != "--no-widow-orphan"@[2]); }
    assert("--max-image-bytes"@ != "--widow-orphan-min-lines"@) by { assert("--max-image-bytes"@.len() != "--widow-orphan-min-lines"@.len()); }
    assert("--max-image-bytes"@ != "--no-hanging-punctuation"@) by { assert("--max-image-bytes"@.len() != "--no-hanging-punctuation"@.len()); }
    assert("--max-font-bytes"@ != "--out"@) by { assert("--max-font-bytes"@.len() != "--out"@.len()); }
    assert("--max-font-bytes"@ != "--serve"@) by { assert("--max-font-bytes"@.len() != "--serve"@.len()); }
    assert("--max-font-bytes"@ != "--open"@) by { assert("--max-font-bytes"@.len() != "--open"@.len()); }
    assert("--max-font-bytes"@ != "--port"@) by { assert("--max-font-bytes"@.len() != "--port"@.len()); }
    assert("--max-font-bytes"@ != "--chapter"@) by { assert("--max-font-bytes"@.len() != "--chapter"@.len()); }
    assert("--max-font-bytes"@ != "--start-page"@) by { assert("--max-font-bytes"@.len() != "--start-page"@.len()); }
    assert("--max-font-bytes"@ != "--pages"@) by { assert("--max-font-bytes"@.len() != "--pages"@.len()); }
    assert("--max-font-bytes"@ != "--width"@) by { assert("--max-font-bytes"@.len() != "--width"@.len()); }
    assert("--max-font-bytes"@ != "--height"@) by { assert("--max-font-bytes"@.len() != "--height"@.len()); }
    assert("--max-font-bytes"@ != "--justify"@) by { assert("--max-font-bytes"@.len() != "--justify"@.len()); }
    assert("--max-font-bytes"@ != "--no-justify"@) by { assert("--max-font-bytes"@.len() != "--no-justify"@.len()); }
    assert("--max-font-bytes"@ != "--justify-mode"@) by { assert("--max-font-bytes"@.len() != "--justify-mode"@.len()); }
    assert("--max-font-bytes"@ != "--cover-page-mode"@) by { assert("--max-font-bytes"@.len() != "--cover-page-mode"@.len()); }
    assert("--max-font-bytes"@ != "--font-size"@) by { assert("--max-font-bytes"@.len() != "--font-size"@.len()); }
    assert("--max-font-bytes"@ != "--text-scale"@) by { assert("--max-font-bytes"@.len() != "--text-scale"@.len()); }
    assert("--max-font-bytes"@ != "--line-gap"@) by { assert("--max-font-bytes"@.len() != "--line-gap"@.len()); }
    assert("--max-font-bytes"@ != "--paragraph-gap"@) by { assert("--max-font-bytes"@.len() != "--paragraph-gap"@.len()); }
    assert("--max-font-bytes"@ != "--margin-left"@) by { assert("--max-font-bytes"@.len() != "--margin-left"@.len()); }
    assert("--max-font-bytes"@ != "--margin-right"@) by { assert("--max-font-bytes"@.len() != "--margin-right"@.len()); }
    assert("--max-font-bytes"@ != "--margin-top"@) by { assert("--max-font-bytes"@.len() != "--margin-top"@.len()); }
    assert("--max-font-bytes"@ != "--margin-bottom"@) by { assert("--max-font-bytes"@.len() != "--margin-bottom"@.len()); }
    assert("--max-font-bytes"@ != "--justify-min-words"@) by { assert("--max-font-bytes"@.len() != "--justify-min-words"@.len()); }
    assert("--max-font-bytes"@ != "--justify-min-fill"@) by { assert("--max-font-bytes"@.len() != "--justify-min-fill"@.len()); }
    assert("--max-font-bytes"@ != "--justify-max-space-stretch"@) by { assert("--max-font-bytes"@.len() != "--justify-max-space-stretch"@.len()); }
    assert("--max-font-bytes"@ != "--no-widow-orphan"@) by { assert("--max-font-bytes"@.len() != "--no-widow-orphan"@.len()); }
    assert("--max-font-bytes"@ != "--widow-orphan-min-lines"@) by { assert("--max-font-bytes"@.len() != "--widow-orphan-min-lines"@.len()); }
    assert("--max-font-bytes"@ != "--no-hanging-punctuation"@) by { assert("--max-font-bytes"@.len() != "--no-hanging-punctuation"@.len()); }
    assert("--max-font-bytes"@ != "--max-image-bytes"@) by { assert("--max-font-bytes"@.len() != "--max-image-bytes"@.len()); }
}

/// A switch sets the flag it names and reading goes on after it.
pub proof fn law_switches_set_their_flags(args: Seq<String>, facts: Seq<FloatArgFacts>, i: int, d: ArgsDraft)
    requires
        0 <= i,
        i < args.len(),
    ensures
        args[i]@ == "--serve"@ ==> read_options(args, facts, i, d) == read_options(args, facts, i + 1, ArgsDraft { serve: true, ..d }),
        args[i]@ == "--open"@ ==> read_options(args, facts, i, d) == read_options(args, facts, i + 1, ArgsDraft { open_browser: true, ..d }),
        args[i]@ == "--justify"@ ==> read_options(args, facts, i, d) == read_options(args, facts, i + 1, ArgsDraft { justify_enabled: true, ..d }),
        args[i]@ == "--no-justify"@ ==> read_options(args, facts, i, d) == read_options(args, facts, i + 1, ArgsDraft { justify_enabled: false, ..d }),
        args[i]@ == "--no-widow-orphan"@ ==> read_options(args, facts, i, d) == read_options(args, facts, i + 1, ArgsDraft { widow_orphan_enabled: false, ..d }),
        args[i]@ == "--no-hanging-punctuation"@ ==> read_options(args, facts, i, d) == read_options(args, facts, i + 1, ArgsDraft { hanging_punctuation_enabled: false, ..d }),
{
    law_flag_names();
    if args[i]@ == "--serve"@ {
        assert(flag_kind(args[i]@) == FlagKind::Switch(SwitchFlag::Serve));
    }
    if args[i]@ == "--open"@ {
        assert(flag_kind(args[i]@) == FlagKind::Switch(SwitchFlag::Open));
    }
    if args[i]@ == "--justify"@ {
        assert(flag_kind(args[i]@) == FlagKind::Switch(SwitchFlag::Justify));
    }
    if args[i]@ == "--no-justify"@ {
        assert(flag_kind(args[i]@) == FlagKind::Switch(SwitchFlag::NoJustify));
    }
    if args[i]@ == "--no-widow-orphan"@ {
        assert(flag_kind(args[i]@) == FlagKind::Switch(SwitchFlag::NoWidowOrphan));
    }
    if args[i]@ == "--no-hanging-punctuation"@ {
        assert(flag_kind(args[i]@) == FlagKind::Switch(SwitchFlag::NoHangingPunctuation));
    }
}

/// A text or float option records the argument after it as the setting it
/// names (a float only when that argument parses), and reading goes on
/// after the value.
pub proof fn law_text_options_take_their_argument(args: Seq<String>, facts: Seq<FloatArgFacts>, i: int, d: ArgsDraft)
    requires
        0 <= i,
        i + 1 < args.len(),
    ensures
        args[i]@ == "--out"@ ==> read_options(args, facts, i, d) == read_options(args, facts, i + 2, ArgsDraft { out_path: TextSetting::Arg((i + 1) as usize), ..d }),
        args[i]@ == "--justify-mode"@ ==> read_options(args, facts, i, d) == read_options(args, facts, i + 2, ArgsDraft { justify_strategy: TextSetting::Arg((i + 1) as usize), ..d }),
        args[i]@ == "--cover-page-mode"@ ==> read_options(args, facts, i, d) == read_options(args, facts, i + 2, ArgsDraft { cover_page_mode: TextSetting::Arg((i + 1) as usize), ..d }),
        args[i]@ == "--font-size"@ ==> read_options(args, facts, i, d) == if float_fact(facts, i + 1).parses {
            read_options(args, facts, i + 2, ArgsDraft { font_size: TextSetting::Arg((i + 1) as usize), ..d })
        } else {
            Err(ArgsError::InvalidValue(i as usize))
        },
        args[i]@ == "--text-scale"@ ==> read_options(args, facts, i, d) == if float_fact(facts, i + 1).parses {
            read_options(args, facts, i + 2, ArgsDraft { text_scale: TextSetting::Arg((i + 1) as usize), ..d })
        } else {
            Err(ArgsError::InvalidValue(i as usize))
        },
        args[i]@ == "--justify-min-fill"@ ==> read_options(args, facts, i, d) == if float_fact(facts, i + 1).parses {
            read_options(args, facts, i + 2, ArgsDraft { justify_min_fill: TextSetting::Arg((i + 1) as usize), ..d })
        } else {
            Err(ArgsError::InvalidValue(i as usize))
        },
        args[i]@ == "--justify-max-space-stretch"@ ==> read_options(args, facts, i, d) == if float_fact(facts, i + 1).parses {
            read_options(args, facts, i + 2, ArgsDraft { justify_max_space_stretch: TextSetting::Arg((i + 1) as usize), ..d })
        } else {
            Err(ArgsError::InvalidValue(i as usize))
        },
{
    law_flag_names();
    if args[i]@ == "--out"@ {
        assert(flag_kind(args[i]@) == FlagKind::Text(TextFlag::Out));
    }
    if args[i]@ == "--justify-mode"@ {
        assert(flag_kind(args[i]@) == FlagKind::Text(TextFlag::JustifyMode));
    }
    if args[i]@ == "--cover-page-mode"@ {
        assert(flag_kind(args[i]@) == FlagKind::Text(TextFlag::CoverPageMode));
    }
    if args[i]@ == "--font-size"@ {
        assert(flag_kind(args[i]@) == FlagKind::Float(FloatFlag::FontSize));
    }
    if args[i]@ == "--text-scale"@ {
        assert(flag_kind(args[i]@) == FlagKind::Float(FloatFlag::TextScale));
    }
    if args[i]@ == "--justify-min-fill"@ {
        assert(flag_kind(args[i]@) == FlagKind::Float(FloatFlag::JustifyMinFill));
    }
    if args[i]@ == "--justify-max-space-stretch"@ {
        assert(flag_kind(args[i]@) == FlagKind::Float(FloatFlag::JustifyMaxSpaceStretch));
    }
}

/// A numeric option sets the setting it names to the number after it, or
/// refuses an argument that is not such a number, and reading goes on after
/// the value.
pub proof fn law_number_options_set_their_settings(args: Seq<String>, facts: Seq<FloatArgFacts>, i: int, d: ArgsDraft)
    requires
        0 <= i,
        i + 1 < args.len(),
    ensures
        args[i]@ == "--port"@ ==> read_options(args, facts, i, d) == match parse_unsigned(args[i + 1]@, 0xffff) {
            Some(n) => read_options(args, facts, i + 2, ArgsDraft { port: n as u16, ..d }),
            None => Err(ArgsError::InvalidValue(i as usize)),
        },
        args[i]@ == "--chapter"@ ==> read_options(args, facts, i, d) == match parse_unsigned(args[i + 1]@, usize::MAX as int) {
            Some(n) => read_options(args, facts, i + 2, ArgsDraft { chapter: Some(n as usize), ..d }),
            None => Err(ArgsError::InvalidValue(i as usize)),
        },
        args[i]@ == "--start-page"@ ==> read_options(args, facts, i, d) == match parse_unsigned(args[i + 1]@, usize::MAX as int) {
            Some(n) => read_options(args, facts, i + 2, ArgsDraft { start_page: n as usize, ..d }),
            None => Err(ArgsError::InvalidValue(i as usize)),
        },
        args[i]@ == "--pages"@ ==> read_options(args, facts, i, d) == match parse_unsigned(args[i + 1]@, usize::MAX as int) {
            Some(n) => read_options(args, facts, i + 2, ArgsDraft { pages_per_chapter: Some(n as usize), ..d }),
            None => Err(ArgsError::InvalidValue(i as usize)),
        },
        args[i]@ == "--justify-min-words"@ ==> read_options(args, facts, i, d) == match parse_unsigned(args[i + 1]@, usize::MAX as int) {
            Some(n) => read_options(args, facts, i + 2, ArgsDraft { justify_min_words: n as usize, ..d }),
            None => Err(ArgsError::InvalidValue(i as usize)),
        },
        args[i]@ == "--max-image-bytes"@ ==> read_options(args, facts, i, d) == match parse_unsigned(args[i + 1]@, usize::MAX as int) {
            Some(n) => read_options(args, facts, i + 2, ArgsDraft { max_image_bytes: n as usize, ..d }),
            None => Err(ArgsError::InvalidValue(i as usize)),
        },
        args[i]@ == "--max-font-bytes"@ ==> read_options(args, facts, i, d) == match parse_unsigned(args[i + 1]@, usize::MAX as int) {
            Some(n) => read_options(args, facts, i + 2, ArgsDraft { max_font_bytes: n as usize, ..d }),
            None => Err(ArgsError::InvalidValue(i as usize)),
        },
        args[i]@ == "--width"@ ==> read_options(args, facts, i, d) == match parse_unsigned(args[i + 1]@, 0xffff_ffff) {
            Some(n) => read_options(args, facts, i + 2, ArgsDraft { display_width: n as u32, ..d }),
            None => Err(ArgsError::InvalidValue(i as usize)),
        },
        args[i]@ == "--height"@ ==> read_options(args, facts, i, d) == match parse_unsigned(args[i + 1]@, 0xffff_ffff) {
            Some(n) => read_options(args, facts, i + 2, ArgsDraft { display_height: n as u32, ..d }),
            None => Err(ArgsError::InvalidValue(i as usize)),
        },
        args[i]@ == "--line-gap"@ ==> read_options(args, facts, i, d) == match parse_i32_text(args[i + 1]@) {
            Some(n) => read_options(args, facts, i + 2, ArgsDraft { line_gap_px: n as i32, ..d }),
            None => Err(ArgsError::InvalidValue(i as usize)),
        },
        args[i]@ == "--paragraph-gap"@ ==> read_options(args, facts, i, d) == match parse_i32_text(args[i + 1]@) {
            Some(n) => read_options(args, facts, i + 2, ArgsDraft { paragraph_gap_px: n as i32, ..d }),
            None => Err(ArgsError::InvalidValue(i as usize)),
        },
        args[i]@ == "--margin-left"@ ==> read_options(args, facts, i, d) == match parse_i32_text(args[i + 1]@) {
            Some(n) => read_options(args, facts, i + 2, ArgsDraft { margin_left: n as i32, ..d }),
            None => Err(ArgsError::InvalidValue(i as usize)),
        },
        args[i]@ == "--margin-right"@ ==> read_options(args, facts, i, d) == match parse_i32_text(args[i + 1]@) {
            Some(n) => read_options(args, facts, i + 2, ArgsDraft { margin_right: n as i32, ..d }),
            None => Err(ArgsError::InvalidValue(i as usize)),
        },
        args[i]@ == "--margin-top"@ ==> read_options(args, facts, i, d) == match parse_i32_text(args[i + 1]@) {
            Some(n) => read_options(args, facts, i + 2, ArgsDraft { margin_top: n as i32, ..d }),
            None => Err(ArgsError::InvalidValue(i as usize)),
        },
        args[i]@ == "--margin-bottom"@ ==> read_options(args, facts, i, d) == match parse_i32_text(args[i + 1]@) {
            Some(n) => read_options(args, facts, i + 2, ArgsDraft { margin_bottom: n as i32, ..d }),
            None => Err(ArgsError::InvalidValue(i as usize)),
        },
        args[i]@ == "--widow-orphan-min-lines"@ ==> read_options(args, facts, i, d) == match parse_unsigned(args[i + 1]@, 0xff) {
            Some(n) => read_options(args, facts, i + 2, ArgsDraft { widow_orphan_min_lines: n as u8, ..d }),
            None => Err(ArgsError::InvalidValue(i as usize)),
        },
{
    law_flag_names();
    if args[i]@ == "--port"@ {
        assert(flag_kind(args[i]@) == FlagKind::Port);
    }
    if args[i]@ == "--chapter"@ {
        assert(flag_kind(args[i]@) == FlagKind::Count(CountFlag::Chapter));
    }
    if args[i]@ == "--start-page"@ {
        assert(flag_kind(args[i]@) == FlagKind::Count(CountFlag::StartPage));
    }
    if args[i]@ == "--pages"@ {
        assert(flag_kind(args[i]@) == FlagKind::Count(CountFlag::Pages));
    }
    if args[i]@ == "--justify-min-words"@ {
        assert(flag_kind(args[i]@) == FlagKind::Count(CountFlag::JustifyMinWords));
    }
    if args[i]@ == "--max-image-bytes"@ {
        assert(flag_kind(args[i]@) == FlagKind::Count(CountFlag::MaxImageBytes));
    }
    if args[i]@ == "--max-font-bytes"@ {
        assert(flag_kind(args[i]@) == FlagKind::Count(CountFlag::MaxFontBytes));
    }
    if args[i]@ == "--width"@ {
        assert(flag_kind(args[i]@) == FlagKind::Dimension(DimensionFlag::Width));
    }
    if args[i]@ == "--height"@ {
        assert(flag_kind(args[i]@) == FlagKind::Dimension(DimensionFlag::Height));
    }
    if args[i]@ == "--line-gap"@ {
        assert(flag_kind(args[i]@) == FlagKind::Offset(OffsetFlag::LineGap));
    }
    if args[i]@ == "--paragraph-gap"@ {
        assert(flag_kind(args[i]@) == FlagKind::Offset(OffsetFlag::ParagraphGap));
    }
    if args[i]@ == "--margin-left"@ {
        assert(flag_kind(args[i]@) == FlagKind::Offset(OffsetFlag::MarginLeft));
    }
    if args[i]@ == "--margin-right"@ {
        assert(flag_kind(args[i]@) == FlagKind::Offset(OffsetFlag::MarginRight));
    }
    if args[i]@ == "--margin-top"@ {
        assert(flag_kind(args[i]@) == FlagKind::Offset(OffsetFlag::MarginTop));
    }
    if args[i]@ == "--margin-bottom"@ {
        assert(flag_kind(args[i]@) == FlagKind::Offset(OffsetFlag::MarginBottom));
    }
    if args[i]@ == "--widow-orphan-min-lines"@ {
        assert(flag_kind(args[i]@) == FlagKind::MinLines);
    }
}

proof fn lemma_decimal_reads_back(n: nat)
    ensures
        decimal(n).len() > 0,
        all_digits(decimal(n)),
        digits_value(decimal(n)) == n,
    decreases n,
{
    if n >= 10 {
        lemma_decimal_reads_back(n / 10);
        let d = decimal(n / 10);
        let c = crate::engine::hex_digit((n % 10) as int);
        assert(decimal(n) == d.push(c));
        assert(d.push(c).drop_last() =~= d);
        vstd::arithmetic::div_mod::lemma_fundamental_div_mod(n as int, 10);
        assert(c as int == 48 + n % 10);
        assert(digits_value(d.push(c)) == digits_value(d) * 10 + (c as int - 48));
        assert forall|i: int| 0 <= i < d.push(c).len() implies is_digit(#[trigger] d.push(c)[i]) by {
            if i < d.len() {
                assert(d.push(c)[i] == d[i]);
            }
        }
    } else {
        let c = crate::engine::hex_digit(n as int);
        assert(decimal(n) == seq![c]);
        assert(seq![c].drop_last() =~= Seq::<char>::empty());
        assert(c as int == 48 + n);
        assert(digits_value(seq![c]) == digits_value(Seq::<char>::empty()) * 10 + (c as int - 48));
    }
}

/// Reading numbers back: the decimal digits of `n`, optionally after `+`,
/// read as `n` when `n` is at most the limit and as nothing above it; as an
/// `i32` they read as `n` up to `2^31 - 1`, and after `-` as `-n` up to
/// `2^31`.
pub proof fn law_numbers_read_back(n: nat, max: int)
    ensures
        n <= max ==> parse_unsigned(decimal(n), max) == Some(n as int),
        n <= max ==> parse_unsigned(seq!['+'] + decimal(n), max) == Some(n as int),
        n > max ==> parse_unsigned(decimal(n), max) is None,
        n <= 0x7fff_ffff ==> parse_i32_text(decimal(n)) == Some(n as int),
        n <= 0x8000_0000 ==> parse_i32_text(seq!['-'] + decimal(n)) == Some(-(n as int)),
{
    lemma_decimal_reads_back(n);
    let d = decimal(n);
    assert(is_digit(d[0]));
    assert((seq!['+'] + d).skip(1) =~= d);
    assert((seq!['-'] + d).skip(1) =~= d);
}

} // verus!
