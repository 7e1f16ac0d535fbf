use vstd::prelude::*;

use crate::engine::{decimal, push_decimal};
use crate::preview_args::{
    float_fact, parse_i32_exec, parse_i32_text, parse_unsigned, parse_unsigned_exec,
    FloatArgFacts, TextSetting,
};
use crate::render_ir::CoverPageMode;
use crate::text::{chars_eq_str, chars_of, str_eq, string_from_chars, trim_lower, trim_lower_chars};

verus! {

// ---------------------------------------------------------------------------
// Command line of the snapshot tool.
// ---------------------------------------------------------------------------

/// Cover-page mode named by a normalised keyword; unknown keywords name none.
pub open spec fn strict_cover_page_mode(key: Seq<char>) -> Option<CoverPageMode> {
    if key == "contain"@ {
        Some(CoverPageMode::Contain)
    } else if key == "full-bleed"@ || key == "full_bleed"@ || key == "fullbleed"@ {
        Some(CoverPageMode::FullBleed)
    } else if key == "respect-css"@ || key == "respect_css"@ || key == "respectcss"@ || key
        == "css"@ {
        Some(CoverPageMode::RespectCss)
    } else {
        None
    }
}

/// Parses a cover-page mode keyword (trimmed, any ASCII case, with its
/// spelling variants); an unknown keyword is refused.
pub fn parse_cover_page_mode_strict(value: &str) -> (r: Option<CoverPageMode>)
    ensures
        r == strict_cover_page_mode(trim_lower(value@)),
{
    let key = trim_lower_chars(value);
    if chars_eq_str(&key, "contain") {
        Some(CoverPageMode::Contain)
    } else if chars_eq_str(&key, "full-bleed") || chars_eq_str(&key, "full_bleed")
        || chars_eq_str(&key, "fullbleed") {
        Some(CoverPageMode::FullBleed)
    } else if chars_eq_str(&key, "respect-css") || chars_eq_str(&key, "respect_css")
        || chars_eq_str(&key, "respectcss") || chars_eq_str(&key, "css") {
        Some(CoverPageMode::RespectCss)
    } else {
        None
    }
}

/// Settings of the snapshot tool. Text and float values are named by the
/// index of the argument that holds them.
#[derive(Clone, Copy, Debug, PartialEq, Eq)]
pub struct VisualizeArgs {
    pub epub_path: TextSetting,
    pub chapter: usize,
    pub start_page: usize,
    pub pages: usize,
    pub out_dir: TextSetting,
    pub width: u32,
    pub height: u32,
    pub justify: bool,
    pub font_size: TextSetting,
    pub line_gap_px: i32,
    pub paragraph_gap_px: i32,
    pub margin_left: i32,
    pub margin_right: i32,
    pub margin_top: i32,
    pub margin_bottom: i32,
    pub justify_min_words: usize,
    pub justify_min_fill: TextSetting,
    pub cover_page_mode: CoverPageMode,
    pub widow_orphan: bool,
    pub widow_orphan_min_lines: u8,
    pub hanging_punctuation: bool,
}

/// Why the snapshot tool's command line was refused. Indices name the
/// offending option.
#[derive(Clone, Copy, Debug, PartialEq, Eq)]
pub enum VisualizeArgsError {
    /// `--help` or `-h` as the first argument.
    HelpRequested,
    /// The option at this index needs a value and is the last argument.
    MissingValue(usize),
    /// The value after the option at this index does not parse.
    InvalidValue(usize),
    /// The argument at this index is no known option.
    UnknownOption(usize),
    /// `--pages` is zero.
    ZeroPages,
    /// `--width` or `--height` is zero.
    ZeroDimensions,
    /// `--font-size` is not positive.
    FontSizeNotPositive,
    /// `--justify-min-fill` lies outside `0.0..=1.0`.
    FillRatioOutOfRange,
}

/// Options of the snapshot tool.
#[derive(Clone, Copy, Debug, PartialEq, Eq)]
pub enum VisualizeFlag {
    Chapter,
    StartPage,
    Pages,
    Out,
    Width,
    Height,
    Justify,
    FontSize,
    LineGap,
    ParagraphGap,
    MarginLeft,
    MarginRight,
    MarginTop,
    MarginBottom,
    JustifyMinWords,
    JustifyMinFill,
    CoverPageMode,
    NoWidowOrphan,
    WidowOrphanMinLines,
    NoHangingPunctuation,
    Unknown,
}

/// The option named by an argument.
pub open spec fn visualize_flag(a: Seq<char>) -> VisualizeFlag {
    if a == "--chapter"@ {
        VisualizeFlag::Chapter
    } else if a == "--start-page"@ {
        VisualizeFlag::StartPage
    } else if a == "--pages"@ {
        VisualizeFlag::Pages
    } else if a == "--out"@ {
        VisualizeFlag::Out
    } else if a == "--width"@ {
        VisualizeFlag::Width
    } else if a == "--height"@ {
        VisualizeFlag::Height
    } else if a == "--justify"@ {
        VisualizeFlag::Justify
    } else if a == "--font-size"@ {
        VisualizeFlag::FontSize
    } else if a == "--line-gap"@ {
        VisualizeFlag::LineGap
    } else if a == "--paragraph-gap"@ {
        VisualizeFlag::ParagraphGap
    } else if a == "--margin-left"@ {
        VisualizeFlag::MarginLeft
    } else if a == "--margin-right"@ {
        VisualizeFlag::MarginRight
    } else if a == "--margin-top"@ {
        VisualizeFlag::MarginTop
    } else if a == "--margin-bottom"@ {
        VisualizeFlag::MarginBottom
    } else if a == "--justify-min-words"@ {
        VisualizeFlag::JustifyMinWords
    } else if a == "--justify-min-fill"@ {
        VisualizeFlag::JustifyMinFill
    } else if a == "--cover-page-mode"@ {
        VisualizeFlag::CoverPageMode
    } else if a == "--no-widow-orphan"@ {
        VisualizeFlag::NoWidowOrphan
    } else if a == "--widow-orphan-min-lines"@ {
        VisualizeFlag::WidowOrphanMinLines
    } else if a == "--no-hanging-punctuation"@ {
        VisualizeFlag::NoHangingPunctuation
    } else {
        VisualizeFlag::Unknown
    }
}

/// The option named by an argument.
pub fn visualize_flag_of(a: &str) -> (r: VisualizeFlag)
    ensures
        r == visualize_flag(a@),
{
    if str_eq(a, "--chapter") {
        VisualizeFlag::Chapter
    } else if str_eq(a, "--start-page") {
        VisualizeFlag::StartPage
    } else if str_eq(a, "--pages") {
        VisualizeFlag::Pages
    } else if str_eq(a, "--out") {
        VisualizeFlag::Out
    } else if str_eq(a, "--width") {
        VisualizeFlag::Width
    } else if str_eq(a, "--height") {
        VisualizeFlag::Height
    } else if str_eq(a, "--justify") {
        VisualizeFlag::Justify
    } else if str_eq(a, "--font-size") {
        VisualizeFlag::FontSize
    } else if str_eq(a, "--line-gap") {
        VisualizeFlag::LineGap
    } else if str_eq(a, "--paragraph-gap") {
        VisualizeFlag::ParagraphGap
    } else if str_eq(a, "--margin-left") {
        VisualizeFlag::MarginLeft
    } else if str_eq(a, "--margin-right") {
        VisualizeFlag::MarginRight
    } else if str_eq(a, "--margin-top") {
        VisualizeFlag::MarginTop
    } else if str_eq(a, "--margin-bottom") {
        VisualizeFlag::MarginBottom
    } else if str_eq(a, "--justify-min-words") {
        VisualizeFlag::JustifyMinWords
    } else if str_eq(a, "--justify-min-fill") {
        VisualizeFlag::JustifyMinFill
    } else if str_eq(a, "--cover-page-mode") {
        VisualizeFlag::CoverPageMode
    } else if str_eq(a, "--no-widow-orphan") {
        VisualizeFlag::NoWidowOrphan
    } else if str_eq(a, "--widow-orphan-min-lines") {
        VisualizeFlag::WidowOrphanMinLines
    } else if str_eq(a, "--no-hanging-punctuation") {
        VisualizeFlag::NoHangingPunctuation
    } else {
        VisualizeFlag::Unknown
    }
}

/// Settings before any option: the built-in defaults, with the EPUB path
/// taken from the first argument when it is positional.
pub open spec fn visualize_defaults(positional: bool) -> VisualizeArgs {
    VisualizeArgs {
        epub_path: if positional {
            TextSetting::Arg(1)
        } else {
            TextSetting::Default
        },
        chapter: 5,
        start_page: 0,
        pages: 12,
        out_dir: TextSetting::Default,
        width: 480,
        height: 800,
        justify: false,
        font_size: TextSetting::Default,
        line_gap_px: 4,
        paragraph_gap_px: 8,
        margin_left: 10,
        margin_right: 10,
        margin_top: 8,
        margin_bottom: 24,
        justify_min_words: 6,
        justify_min_fill: TextSetting::Default,
        cover_page_mode: CoverPageMode::Contain,
        widow_orphan: true,
        widow_orphan_min_lines: 2,
        hanging_punctuation: true,
    }
}

/// Whether an option takes no value.
pub open spec fn is_switch(f: VisualizeFlag) -> bool {
    f is Justify || f is NoWidowOrphan || f is NoHangingPunctuation
}

/// Effect of a switch.
pub open spec fn visualize_switch(c: VisualizeArgs, f: VisualizeFlag) -> VisualizeArgs {
    match f {
        VisualizeFlag::Justify => VisualizeArgs { justify: true, ..c },
        VisualizeFlag::NoWidowOrphan => VisualizeArgs { widow_orphan: false, ..c },
        VisualizeFlag::NoHangingPunctuation => VisualizeArgs { hanging_punctuation: false, ..c },
        _ => c,
    }
}

/// Effect of the option at index `i` given its value at `i + 1`: the new
/// settings, or the error it raises.
pub open spec fn visualize_option(
    args: Seq<String>,
    facts: Seq<FloatArgFacts>,
    i: int,
    c: VisualizeArgs,
) -> Result<VisualizeArgs, VisualizeArgsError> {
    let v = args[i + 1]@;
    let bad = VisualizeArgsError::InvalidValue(i as usize);
    let count = parse_unsigned(v, usize::MAX as int);
    let dim = parse_unsigned(v, 0xffff_ffff);
    let off = parse_i32_text(v);
    match visualize_flag(args[i]@) {
        VisualizeFlag::Chapter => match count {
            Some(n) => Ok(VisualizeArgs { chapter: n as usize, ..c }),
            None => Err(bad),
        },
        VisualizeFlag::StartPage => match count {
            Some(n) => Ok(VisualizeArgs { start_page: n as usize, ..c }),
            None => Err(bad),
        },
        VisualizeFlag::Pages => match count {
            Some(n) => Ok(VisualizeArgs { pages: n as usize, ..c }),
            None => Err(bad),
        },
        VisualizeFlag::JustifyMinWords => match count {
            Some(n) => Ok(VisualizeArgs { justify_min_words: n as usize, ..c }),
            None => Err(bad),
        },
        VisualizeFlag::Out => Ok(VisualizeArgs { out_dir: TextSetting::Arg((i + 1) as usize), ..c }),
        VisualizeFlag::Width => match dim {
            Some(n) => Ok(VisualizeArgs { width: n as u32, ..c }),
            None => Err(bad),
        },
        VisualizeFlag::Height => match dim {
            Some(n) => Ok(VisualizeArgs { height: n as u32, ..c }),
            None => Err(bad),
        },
        VisualizeFlag::FontSize => if float_fact(facts, i + 1).parses {
            Ok(VisualizeArgs { font_size: TextSetting::Arg((i + 1) as usize), ..c })
        } else {
            Err(bad)
        },
        VisualizeFlag::JustifyMinFill => if float_fact(facts, i + 1).parses {
            Ok(VisualizeArgs { justify_min_fill: TextSetting::Arg((i + 1) as usize), ..c })
        } else {
            Err(bad)
        },
        VisualizeFlag::LineGap => match off {
            Some(n) => Ok(VisualizeArgs { line_gap_px: n as i32, ..c }),
            None => Err(bad),
        },
        VisualizeFlag::ParagraphGap => match off {
            Some(n) => Ok(VisualizeArgs { paragraph_gap_px: n as i32, ..c }),
            None => Err(bad),
        },
        VisualizeFlag::MarginLeft => match off {
            Some(n) => Ok(VisualizeArgs { margin_left: n as i32, ..c }),
            None => Err(bad),
        },
        VisualizeFlag::MarginRight => match off {
            Some(n) => Ok(VisualizeArgs { margin_right: n as i32, ..c }),
            None => Err(bad),
        },
        VisualizeFlag::MarginTop => match off {
            Some(n) => Ok(VisualizeArgs { margin_top: n as i32, ..c }),
            None => Err(bad),
        },
        VisualizeFlag::MarginBottom => match off {
            Some(n) => Ok(VisualizeArgs { margin_bottom: n as i32, ..c }),
            None => Err(bad),
        },
        VisualizeFlag::CoverPageMode => match strict_cover_page_mode(trim_lower(v)) {
            Some(m) => Ok(VisualizeArgs { cover_page_mode: m, ..c }),
            None => Err(bad),
        },
        VisualizeFlag::WidowOrphanMinLines => match parse_unsigned(v, 0xff) {
            Some(n) => Ok(VisualizeArgs { widow_orphan_min_lines: n as u8, ..c }),
            None => Err(bad),
        },
        _ => Ok(c),
    }
}

/// Settings after reading options from index `i` on, or the first error.
pub open spec fn visualize_read(
    args: Seq<String>,
    facts: Seq<FloatArgFacts>,
    i: int,
    c: VisualizeArgs,
) -> Result<VisualizeArgs, VisualizeArgsError>
    decreases args.len() - i,
{
    if i < 0 || i >= args.len() {
        Ok(c)
    } else {
        let f = visualize_flag(args[i]@);
        if f is Unknown {
            Err(VisualizeArgsError::UnknownOption(i as usize))
        } else if is_switch(f) {
            visualize_read(args, facts, i + 1, visualize_switch(c, f))
        } else if i + 1 >= args.len() {
            Err(VisualizeArgsError::MissingValue(i as usize))
        } else {
            match visualize_option(args, facts, i, c) {
                Ok(c2) => visualize_read(args, facts, i + 2, c2),
                Err(e) => Err(e),
            }
        }
    }
}

/// Checks made once all options are read, in order. A float left at its
/// default (22 px, fill 0.78) passes.
pub open spec fn visualize_check(facts: Seq<FloatArgFacts>, c: VisualizeArgs) -> Result<
    VisualizeArgs,
    VisualizeArgsError,
> {
    if c.pages == 0 {
        Err(VisualizeArgsError::ZeroPages)
    } else if c.width == 0 || c.height == 0 {
        Err(VisualizeArgsError::ZeroDimensions)
    } else if (c.font_size matches TextSetting::Arg(k) && float_fact(facts, k as int).le_zero) {
        Err(VisualizeArgsError::FontSizeNotPositive)
    } else if (c.justify_min_fill matches TextSetting::Arg(k) && !float_fact(facts, k as int).in_unit) {
        Err(VisualizeArgsError::FillRatioOutOfRange)
    } else {
        Ok(c)
    }
}

/// Whether the argument at index 1 is a positional EPUB path (it does not
/// start with `--`).
pub open spec fn visualize_positional(args: Seq<String>) -> bool {
    args.len() >= 2 && !(args[1]@.len() >= 2 && args[1]@[0] == '-' && args[1]@[1] == '-')
}

/// Outcome of parsing the snapshot tool's command line (`args[0]` is the
/// program name).
pub open spec fn visualize_args_outcome(args: Seq<String>, facts: Seq<FloatArgFacts>) -> Result<
    VisualizeArgs,
    VisualizeArgsError,
> {
    if args.len() >= 2 && (args[1]@ == "--help"@ || args[1]@ == "-h"@) {
        Err(VisualizeArgsError::HelpRequested)
    } else {
        let positional = visualize_positional(args);
        match visualize_read(
            args,
            facts,
            if positional {
                2
            } else {
                1
            },
            visualize_defaults(positional),
        ) {
            Ok(c) => visualize_check(facts, c),
            Err(e) => Err(e),
        }
    }
}

fn visualize_defaults_exec(positional: bool) -> (r: VisualizeArgs)
    ensures
        r == visualize_defaults(positional),
{
    VisualizeArgs {
        epub_path: if positional {
            TextSetting::Arg(1)
        } else {
            TextSetting::Default
        },
        chapter: 5,
        start_page: 0,
        pages: 12,
        out_dir: TextSetting::Default,
        width: 480,
        height: 800,
        justify: false,
        font_size: TextSetting::Default,
        line_gap_px: 4,
        paragraph_gap_px: 8,
        margin_left: 10,
        margin_right: 10,
        margin_top: 8,
        margin_bottom: 24,
        justify_min_words: 6,
        justify_min_fill: TextSetting::Default,
        cover_page_mode: CoverPageMode::Contain,
        widow_orphan: true,
        widow_orphan_min_lines: 2,
        hanging_punctuation: true,
    }
}

fn fact_at(facts: &Vec<FloatArgFacts>, k: usize) -> (r: FloatArgFacts)
    ensures
        r == float_fact(facts@, k as int),
{
    if k < facts.len() {
        facts[k]
    } else {
        FloatArgFacts { parses: false, le_zero: false, in_unit: false, lt_zero: false }
    }
}

fn visualize_option_exec(
    args: &Vec<String>,
    facts: &Vec<FloatArgFacts>,
    i: usize,
    f: VisualizeFlag,
    c: VisualizeArgs,
) -> (r: Result<VisualizeArgs, VisualizeArgsError>)
    requires
        i + 1 < args.len(),
        f == visualize_flag(args@[i as int]@),
    ensures
        r == visualize_option(args@, facts@, i as int, c),
{
    let v = args[i + 1].as_str();
    let bad = VisualizeArgsError::InvalidValue(i);
    match f {
        VisualizeFlag::Chapter => match parse_unsigned_exec(v, usize::MAX as u64) {
            Some(n) => Ok(VisualizeArgs { chapter: n as usize, ..c }),
            None => Err(bad),
        },
        VisualizeFlag::StartPage => match parse_unsigned_exec(v, usize::MAX as u64) {
            Some(n) => Ok(VisualizeArgs { start_page: n as usize, ..c }),
            None => Err(bad),
        },
        VisualizeFlag::Pages => match parse_unsigned_exec(v, usize::MAX as u64) {
            Some(n) => Ok(VisualizeArgs { pages: n as usize, ..c }),
            None => Err(bad),
        },
        VisualizeFlag::JustifyMinWords => match parse_unsigned_exec(v, usize::MAX as u64) {
            Some(n) => Ok(VisualizeArgs { justify_min_words: n as usize, ..c }),
            None => Err(bad),
        },
        VisualizeFlag::Out => Ok(VisualizeArgs { out_dir: TextSetting::Arg(i + 1), ..c }),
        VisualizeFlag::Width => match parse_unsigned_exec(v, 0xffff_ffff) {
            Some(n) => Ok(VisualizeArgs { width: n as u32, ..c }),
            None => Err(bad),
        },
        VisualizeFlag::Height => match parse_unsigned_exec(v, 0xffff_ffff) {
            Some(n) => Ok(VisualizeArgs { height: n as u32, ..c }),
            None => Err(bad),
        },
        VisualizeFlag::FontSize => {
            if fact_at(facts, i + 1).parses {
                Ok(VisualizeArgs { font_size: TextSetting::Arg(i + 1), ..c })
            } else {
                Err(bad)
            }
        },
        VisualizeFlag::JustifyMinFill => {
            if fact_at(facts, i + 1).parses {
                Ok(VisualizeArgs { justify_min_fill: TextSetting::Arg(i + 1), ..c })
            } else {
                Err(bad)
            }
        },
        VisualizeFlag::LineGap => match parse_i32_exec(v) {
            Some(n) => Ok(VisualizeArgs { line_gap_px: n, ..c }),
            None => Err(bad),
        },
        VisualizeFlag::ParagraphGap => match parse_i32_exec(v) {
            Some(n) => Ok(VisualizeArgs { paragraph_gap_px: n, ..c }),
            None => Err(bad),
        },
        VisualizeFlag::MarginLeft => match parse_i32_exec(v) {
            Some(n) => Ok(VisualizeArgs { margin_left: n, ..c }),
            None => Err(bad),
        },
        VisualizeFlag::MarginRight => match parse_i32_exec(v) {
            Some(n) => Ok(VisualizeArgs { margin_right: n, ..c }),
            None => Err(bad),
        },
        VisualizeFlag::MarginTop => match parse_i32_exec(v) {
            Some(n) => Ok(VisualizeArgs { margin_top: n, ..c }),
            None => Err(bad),
        },
        VisualizeFlag::MarginBottom => match parse_i32_exec(v) {
            Some(n) => Ok(VisualizeArgs { margin_bottom: n, ..c }),
            None => Err(bad),
        },
        VisualizeFlag::CoverPageMode => match parse_cover_page_mode_strict(v) {
            Some(m) => Ok(VisualizeArgs { cover_page_mode: m, ..c }),
            None => Err(bad),
        },
        VisualizeFlag::WidowOrphanMinLines => match parse_unsigned_exec(v, 0xff) {
            Some(n) => Ok(VisualizeArgs { widow_orphan_min_lines: n as u8, ..c }),
            None => Err(bad),
        },
        _ => Ok(c),
    }
}

/// Parses the snapshot tool's command line (`args[0]` is the program name).
///
/// The first argument is the EPUB path unless it starts with `--`; `--help`
/// or `-h` there asks for help. Options are read left to right; the first
/// missing value, unparsable value or unknown option is reported, then the
/// page count, dimensions, font size and fill ratio are checked in that
/// order. `facts` holds, per argument, what reading it as an `f32` gave.
pub fn parse_visualize_args(args: &Vec<String>, facts: &Vec<FloatArgFacts>) -> (r: Result<
    VisualizeArgs,
    VisualizeArgsError,
>)
    ensures
        r == visualize_args_outcome(args@, facts@),
{
    if args.len() >= 2 && (str_eq(args[1].as_str(), "--help") || str_eq(args[1].as_str(), "-h")) {
        return Err(VisualizeArgsError::HelpRequested);
    }
    let positional = if args.len() >= 2 {
        let first = chars_of(args[1].as_str());
        !(first.len() >= 2 && first[0] == '-' && first[1] == '-')
    } else {
        false
    };
    let ghost start: int = if positional {
        2
    } else {
        1
    };
    let mut c = visualize_defaults_exec(positional);
    let mut i: usize = if positional {
        2
    } else {
        1
    };
    while i < args.len()
        invariant
            i <= args.len() + 1,
            visualize_args_outcome(args@, facts@) == (match visualize_read(
                args@,
                facts@,
                start,
                visualize_defaults(positional),
            ) {
                Ok(c0) => visualize_check(facts@, c0),
                Err(e) => Err(e),
            }),
            visualize_read(args@, facts@, start, visualize_defaults(positional)) == visualize_read(
                args@,
                facts@,
                i as int,
                c,
            ),
        decreases args.len() + 1 - i,
    {
        let f = visualize_flag_of(args[i].as_str());
        match f {
            VisualizeFlag::Unknown => {
                return Err(VisualizeArgsError::UnknownOption(i));
            },
            VisualizeFlag::Justify => {
                c = VisualizeArgs { justify: true, ..c };
                i += 1;
            },
            VisualizeFlag::NoWidowOrphan => {
                c = VisualizeArgs { widow_orphan: false, ..c };
                i += 1;
            },
            VisualizeFlag::NoHangingPunctuation => {
                c = VisualizeArgs { hanging_punctuation: false, ..c };
                i += 1;
            },
            _ => {
                if i + 1 >= args.len() {
                    return Err(VisualizeArgsError::MissingValue(i));
                }
                match visualize_option_exec(args, facts, i, f, c) {
                    Ok(c2) => {
                        c = c2;
                        i += 2;
                    },
                    Err(e) => {
                        return Err(e);
                    },
                }
            },
        }
    }
    if c.pages == 0 {
        return Err(VisualizeArgsError::ZeroPages);
    }
    if c.width == 0 || c.height == 0 {
        return Err(VisualizeArgsError::ZeroDimensions);
    }
    if let TextSetting::Arg(k) = c.font_size {
        if fact_at(facts, k).le_zero {
            return Err(VisualizeArgsError::FontSizeNotPositive);
        }
    }
    if let TextSetting::Arg(k) = c.justify_min_fill {
        if !fact_at(facts, k).in_unit {
            return Err(VisualizeArgsError::FillRatioOutOfRange);
        }
    }
    Ok(c)
}

/// Every accepted command line asks for at least one page, has non-zero
/// dimensions, a font size that is not `<= 0` and a fill ratio within
/// `0.0..=1.0`.
pub proof fn law_accepted_snapshot_args_pass_validation(args: Seq<String>, facts: Seq<FloatArgFacts>)
    ensures
        visualize_args_outcome(args, facts) matches Ok(a) ==> {
            &&& a.pages > 0
            &&& a.width > 0
            &&& a.height > 0
            &&& a.font_size matches TextSetting::Arg(k) ==> !float_fact(facts, k as int).le_zero
            &&& a.justify_min_fill matches TextSetting::Arg(k) ==> float_fact(facts, k as int).in_unit
        },
{
}

// ---------------------------------------------------------------------------
// Snapshot bitmaps and their files.
// ---------------------------------------------------------------------------

/// `a * b`, saturating at `u32::MAX`.
pub open spec fn sat_mul_u32(a: int, b: int) -> int {
    if a * b > u32::MAX {
        u32::MAX as int
    } else {
        a * b
    }
}

/// A `u32` read as the `i32` with the same bits.
pub open spec fn as_signed(v: u32) -> int {
    if v < 0x8000_0000 {
        v as int
    } else {
        v - 0x1_0000_0000
    }
}

/// Index of pixel `(x, y)` in a row-major bitmap of the given size, when the
/// point lies inside it (sizes are compared as `i32`, as the display does).
pub open spec fn pixel_slot(width: u32, height: u32, x: i32, y: i32) -> Option<int> {
    if x < 0 || y < 0 || x >= as_signed(width) || y >= as_signed(height) {
        None
    } else {
        Some(y * width + x)
    }
}

/// One-bit page bitmap that snapshots are drawn into (row-major, `true` for
/// an inked pixel).
pub struct BitmapDisplay {
    width: u32,
    height: u32,
    pixels: Vec<bool>,
}

impl BitmapDisplay {
    pub closed spec fn spec_width(&self) -> u32 {
        self.width
    }

    pub closed spec fn spec_height(&self) -> u32 {
        self.height
    }

    /// The pixels, row by row.
    pub closed spec fn spec_pixels(&self) -> Seq<bool> {
        self.pixels@
    }

    /// The pixel buffer holds `width * height` pixels (saturating).
    pub open spec fn wf(&self) -> bool {
        self.spec_pixels().len() == sat_mul_u32(self.spec_width() as int, self.spec_height() as int)
    }

    /// A blank bitmap of the given size.
    pub fn new(width: u32, height: u32) -> (d: Self)
        ensures
            d.wf(),
            d.spec_width() == width,
            d.spec_height() == height,
            forall|i: int| 0 <= i < d.spec_pixels().len() ==> !#[trigger] d.spec_pixels()[i],
    {
        assert((width as u64) * (height as u64) <= 0xffff_ffff_ffff_ffff) by (nonlinear_arith)
            requires
                width <= 0xffff_ffff,
                height <= 0xffff_ffff,
        ;
        let product = (width as u64) * (height as u64);
        let len: usize = if product > 0xffff_ffff {
            0xffff_ffff
        } else {
            product as usize
        };
        let pixels: Vec<bool> = vec![false; len];
        BitmapDisplay { width, height, pixels }
    }

    /// Width and height.
    pub fn size(&self) -> (r: (u32, u32))
        ensures
            r == (self.spec_width(), self.spec_height()),
    {
        (self.width, self.height)
    }

    /// Pixel at `index`, when the bitmap has that many.
    pub fn pixel(&self, index: usize) -> (r: Option<bool>)
        ensures
            index < self.spec_pixels().len() ==> r == Some(self.spec_pixels()[index as int]),
            index >= self.spec_pixels().len() ==> r is None,
    {
        if index < self.pixels.len() {
            Some(self.pixels[index])
        } else {
            None
        }
    }

    /// Sets pixel `(x, y)`; points outside the bitmap are ignored.
    pub fn set_pixel(&mut self, x: i32, y: i32, on: bool)
        requires
            old(self).wf(),
            old(self).spec_width() * old(self).spec_height() <= u32::MAX,
        ensures
            final(self).wf(),
            final(self).spec_width() == old(self).spec_width(),
            final(self).spec_height() == old(self).spec_height(),
            match pixel_slot(old(self).spec_width(), old(self).spec_height(), x, y) {
                Some(i) => final(self).spec_pixels() == old(self).spec_pixels().update(i, on),
                None => final(self).spec_pixels() == old(self).spec_pixels(),
            },
    {
        if x < 0 || y < 0 || self.width >= 0x8000_0000 || self.height >= 0x8000_0000 {
            return;
        }
        let xu = x as u32;
        let yu = y as u32;
        if xu >= self.width || yu >= self.height {
            return;
        }
        let w = self.width as u64;
        let h = self.height as u64;
        assert((yu as u64) * w + (xu as u64) < w * h) by (nonlinear_arith)
            requires
                (yu as u64) < h,
                (xu as u64) < w,
        ;
        let idx = ((yu as u64) * w + (xu as u64)) as usize;
        self.pixels.set(idx, on);
    }

    /// Sets every pixel to `on`.
    pub fn clear(&mut self, on: bool)
        requires
            old(self).wf(),
        ensures
            final(self).wf(),
            final(self).spec_width() == old(self).spec_width(),
            final(self).spec_height() == old(self).spec_height(),
            final(self).spec_pixels().len() == old(self).spec_pixels().len(),
            forall|i: int| 0 <= i < final(self).spec_pixels().len() ==> #[trigger] final(self).spec_pixels()[i] == on,
    {
        let n = self.pixels.len();
        let mut i: usize = 0;
        while i < n
            invariant
                n == self.pixels@.len(),
                i <= n,
                self.pixels@.len() == old(self).pixels@.len(),
                self.width == old(self).width,
                self.height == old(self).height,
                forall|j: int| 0 <= j < i ==> #[trigger] self.pixels@[j] == on,
            decreases n - i,
        {
            self.pixels.set(i, on);
            i += 1;
        }
    }

    /// The bitmap as a binary PGM image (see [`pgm_image`]).
    pub fn pgm_bytes(&self) -> (r: Vec<u8>)
        ensures
            r@ == pgm_image(self.spec_width() as nat, self.spec_height() as nat, self.spec_pixels()),
    {
        let mut out: Vec<u8> = Vec::new();
        out.push(80u8);
        out.push(53u8);
        out.push(10u8);
        push_decimal_bytes(&mut out, self.width);
        out.push(32u8);
        push_decimal_bytes(&mut out, self.height);
        out.push(10u8);
        out.push(50u8);
        out.push(53u8);
        out.push(53u8);
        out.push(10u8);
        let ghost head = out@;
        assert(head =~= pgm_header(self.width as nat, self.height as nat));
        let mut i: usize = 0;
        while i < self.pixels.len()
            invariant
                i <= self.pixels@.len(),
                out@ == head + self.pixels@.take(i as int).map_values(|p: bool| pgm_pixel(p)),
            decreases self.pixels@.len() - i,
        {
            out.push(if self.pixels[i] { 0u8 } else { 255u8 });
            i += 1;
            assert(out@ =~= head + self.pixels@.take(i as int).map_values(|p: bool| pgm_pixel(p)));
        }
        assert(self.pixels@.take(self.pixels@.len() as int) =~= self.pixels@);
        out
    }
}

/// ASCII decimal digits of `n`, as bytes.
pub open spec fn decimal_bytes(n: nat) -> Seq<u8>
    decreases n,
{
    if n < 10 {
        seq![(48 + n) as u8]
    } else {
        decimal_bytes(n / 10).push((48 + n % 10) as u8)
    }
}

fn push_decimal_bytes(out: &mut Vec<u8>, n: u32)
    ensures
        final(out)@ == old(out)@ + decimal_bytes(n as nat),
    decreases n,
{
    if n >= 10 {
        push_decimal_bytes(out, n / 10);
    }
    out.push(48u8 + (n % 10) as u8);
    assert(out@ =~= old(out)@ + decimal_bytes(n as nat));
}

/// Header of a binary PGM image: `P5`, the size, and the maximum grey 255.
pub open spec fn pgm_header(width: nat, height: nat) -> Seq<u8> {
    seq![80u8, 53u8, 10u8] + decimal_bytes(width) + seq![32u8] + decimal_bytes(height) + seq![
        10u8,
        50u8,
        53u8,
        53u8,
        10u8,
    ]
}

/// Grey level of a pixel: black (0) when inked, white (255) otherwise.
pub open spec fn pgm_pixel(on: bool) -> u8 {
    if on {
        0
    } else {
        255
    }
}

/// A binary PGM image of the pixels: the header, then one grey byte per
/// pixel, row by row.
pub open spec fn pgm_image(width: nat, height: nat, pixels: Seq<bool>) -> Seq<u8> {
    pgm_header(width, height) + pixels.map_values(|p: bool| pgm_pixel(p))
}

/// Whether `s` starts with `prefix`.
pub open spec fn has_prefix(s: Seq<char>, prefix: Seq<char>) -> bool {
    prefix.len() <= s.len() && s.take(prefix.len() as int) == prefix
}

/// Whether `s` ends with `suffix`.
pub open spec fn has_suffix(s: Seq<char>, suffix: Seq<char>) -> bool {
    suffix.len() <= s.len() && s.skip(s.len() - suffix.len()) == suffix
}

/// Files an earlier snapshot run leaves in the output directory: page
/// images `chapter_*.pgm` / `chapter_*.png` and `manifest.tsv`.
pub open spec fn is_snapshot_output(name: Seq<char>) -> bool {
    (has_prefix(name, "chapter_"@) && (has_suffix(name, ".pgm"@) || has_suffix(name, ".png"@)))
        || name == "manifest.tsv"@
}

fn chars_start_with(v: &Vec<char>, prefix: &str) -> (r: bool)
    ensures
        r == has_prefix(v@, prefix@),
{
    let p = chars_of(prefix);
    if p.len() > v.len() {
        return false;
    }
    let mut i: usize = 0;
    while i < p.len()
        invariant
            p@ == prefix@,
            p.len() <= v.len(),
            i <= p.len(),
            forall|j: int| 0 <= j < i ==> v@[j] == p@[j],
        decreases p.len() - i,
    {
        if v[i] != p[i] {
            assert(v@.take(p.len() as int)[i as int] != p@[i as int]);
            return false;
        }
        i += 1;
    }
    assert(v@.take(p.len() as int) =~= p@);
    true
}

fn chars_end_with(v: &Vec<char>, suffix: &str) -> (r: bool)
    ensures
        r == has_suffix(v@, suffix@),
{
    let p = chars_of(suffix);
    if p.len() > v.len() {
        return false;
    }
    let off = v.len() - p.len();
    let mut i: usize = 0;
    while i < p.len()
        invariant
            p@ == suffix@,
            p.len() <= v.len(),
            off == v.len() - p.len(),
            i <= p.len(),
            forall|j: int| 0 <= j < i ==> v@[off + j] == p@[j],
        decreases p.len() - i,
    {
        if v[off + i] != p[i] {
            assert(v@.skip(off as int)[i as int] != p@[i as int]);
            return false;
        }
        i += 1;
    }
    assert(v@.skip(off as int) =~= p@);
    true
}

/// Whether a file of the output directory is left over from an earlier
/// snapshot run and is to be removed.
pub fn is_previous_output(name: &str) -> (r: bool)
    ensures
        r == is_snapshot_output(name@),
{
    let v = chars_of(name);
    (chars_start_with(&v, "chapter_") && (chars_end_with(&v, ".pgm") || chars_end_with(&v, ".png")))
        || str_eq(name, "manifest.tsv")
}

/// `s` padded on the left with `0` to at least `width` characters.
pub open spec fn zero_padded(s: Seq<char>, width: int) -> Seq<char> {
    if s.len() >= width {
        s
    } else {
        Seq::new((width - s.len()) as nat, |i: int| '0') + s
    }
}

/// File name of a page snapshot: `chapter_CCC_page_PPPP.pgm` with the
/// 1-based chapter and page numbers, zero-padded to three and four digits.
pub open spec fn snapshot_name(chapter: nat, page: nat) -> Seq<char> {
    "chapter_"@ + zero_padded(decimal(chapter + 1), 3) + "_page_"@ + zero_padded(decimal(page + 1), 4)
        + ".pgm"@
}

fn push_str_chars(out: &mut Vec<char>, s: &str)
    ensures
        final(out)@ == old(out)@ + s@,
{
    let v = chars_of(s);
    let ghost start = out@;
    let mut i: usize = 0;
    while i < v.len()
        invariant
            i <= v.len(),
            out@ == start + v@.take(i as int),
        decreases v.len() - i,
    {
        out.push(v[i]);
        i += 1;
        assert(out@ =~= start + v@.take(i as int));
    }
    assert(v@.take(v.len() as int) =~= v@);
}

fn push_padded_decimal(out: &mut Vec<char>, n: usize, width: usize)
    ensures
        final(out)@ == old(out)@ + zero_padded(decimal(n as nat), width as int),
{
    let mut digits: Vec<char> = Vec::new();
    push_decimal(&mut digits, n);
    assert(digits@ =~= decimal(n as nat));
    let ghost start = out@;
    if digits.len() < width {
        let pad = width - digits.len();
        let mut i: usize = 0;
        while i < pad
            invariant
                i <= pad,
                out@ == start + Seq::new(i as nat, |j: int| '0'),
            decreases pad - i,
        {
            out.push('0');
            i += 1;
            assert(out@ =~= start + Seq::new(i as nat, |j: int| '0'));
        }
    }
    let ghost mid = out@;
    let mut k: usize = 0;
    while k < digits.len()
        invariant
            k <= digits.len(),
            out@ == mid + digits@.take(k as int),
        decreases digits.len() - k,
    {
        out.push(digits[k]);
        k += 1;
        assert(out@ =~= mid + digits@.take(k as int));
    }
    assert(digits@.take(digits.len() as int) =~= digits@);
    assert(out@ =~= start + zero_padded(decimal(n as nat), width as int));
}

/// File name of the snapshot of a page (0-based chapter and page indices).
pub fn snapshot_file_name(chapter: usize, page: usize) -> (r: String)
    requires
        chapter < usize::MAX,
        page < usize::MAX,
    ensures
        r@ == snapshot_name(chapter as nat, page as nat),
{
    let mut out: Vec<char> = Vec::new();
    push_str_chars(&mut out, "chapter_");
    push_padded_decimal(&mut out, chapter + 1, 3);
    push_str_chars(&mut out, "_page_");
    push_padded_decimal(&mut out, page + 1, 4);
    push_str_chars(&mut out, ".pgm");
    assert(out@ =~= snapshot_name(chapter as nat, page as nat));
    string_from_chars(&out)
}

/// Usage text of the snapshot tool.
pub const SNAPSHOT_HELP_TEXT: &'static str = r#"visualize - render EPUB pages to PGM snapshots

USAGE:
  cargo run -p mu-epub-embedded-graphics --bin visualize -- [epub_path] [options]

OPTIONS:
  --chapter <n>       0-based chapter index (default: 5)
  --start-page <n>    0-based first page index (default: 0)
  --pages <n>         number of pages to render (default: 12)
  --out <dir>         output directory (default: target/visualize-default)
  --width <px>        viewport width (default: 480)
  --height <px>       viewport height (default: 800)
  --justify           enable inter-word justification (default: off)
  --font-size <px>    base font size in px (default: 22)
  --line-gap <px>     extra line gap in px (default: 4)
  --paragraph-gap <px> paragraph gap in px (default: 8)
  --margin-left <px>  left margin (default: 10)
  --margin-right <px> right margin (default: 10)
  --margin-top <px>   top margin (default: 8)
  --margin-bottom <px> bottom margin (default: 24)
  --justify-min-words <n> minimum words for justification (default: 6)
  --justify-min-fill <r> minimum fill ratio for justification (default: 0.78)
  --cover-page-mode <mode> contain|full-bleed|respect-css (default: contain)
  --no-widow-orphan   disable widow/orphan control
  --widow-orphan-min-lines <n> min lines for widow/orphan (default: 2)
  --no-hanging-punctuation disable hanging punctuation

DEFAULT EPUB:
  tests/fixtures/bench/pg84-frankenstein.epub
"#;

/// Usage text of the snapshot tool.
pub fn help_text() -> (r: &'static str)
    ensures
        r == SNAPSHOT_HELP_TEXT,
{
    SNAPSHOT_HELP_TEXT
}

/// Each option name of the snapshot tool stands for its option; any other
/// argument is unknown.
pub proof fn law_visualize_flag_names(key: Seq<char>)
    ensures
        key == "--chapter"@ ==> visualize_flag(key) == VisualizeFlag::Chapter,
        key == "--start-page"@ ==> visualize_flag(key) == VisualizeFlag::StartPage,
        key == "--pages"@ ==> visualize_flag(key) == VisualizeFlag::Pages,
        key == "--out"@ ==> visualize_flag(key) == VisualizeFlag::Out,
        key == "--width"@ ==> visualize_flag(key) == VisualizeFlag::Width,
        key == "--height"@ ==> visualize_flag(key) == VisualizeFlag::Height,
        key == "--justify"@ ==> visualize_flag(key) == VisualizeFlag::Justify,
        key == "--font-size"@ ==> visualize_flag(key) == VisualizeFlag::FontSize,
        key == "--line-gap"@ ==> visualize_flag(key) == VisualizeFlag::LineGap,
        key == "--paragraph-gap"@ ==> visualize_flag(key) == VisualizeFlag::ParagraphGap,
        key == "--margin-left"@ ==> visualize_flag(key) == VisualizeFlag::MarginLeft,
        key == "--margin-right"@ ==> visualize_flag(key) == VisualizeFlag::MarginRight,
        key == "--margin-top"@ ==> visualize_flag(key) == VisualizeFlag::MarginTop,
        key == "--margin-bottom"@ ==> visualize_flag(key) == VisualizeFlag::MarginBottom,
        key == "--justify-min-words"@ ==> visualize_flag(key) == VisualizeFlag::JustifyMinWords,
        key == "--justify-min-fill"@ ==> visualize_flag(key) == VisualizeFlag::JustifyMinFill,
        key == "--cover-page-mode"@ ==> visualize_flag(key) == VisualizeFlag::CoverPageMode,
        key == "--no-widow-orphan"@ ==> visualize_flag(key) == VisualizeFlag::NoWidowOrphan,
        key == "--widow-orphan-min-lines"@ ==> visualize_flag(key) == VisualizeFlag::WidowOrphanMinLines,
        key == "--no-hanging-punctuation"@ ==> visualize_flag(key) == VisualizeFlag::NoHangingPunctuation,
        key != "--chapter"@ && key != "--start-page"@ && key != "--pages"@ && key != "--out"@ && key != "--width"@ && key != "--height"@ && key != "--justify"@ && key != "--font-size"@ && key != "--line-gap"@ && key != "--paragraph-gap"@ && key != "--margin-left"@ && key != "--margin-right"@ && key != "--margin-top"@ && key != "--margin-bottom"@ && key != "--justify-min-words"@ && key != "--justify-min-fill"@ && key != "--cover-page-mode"@ && key != "--no-widow-orphan"@ && key != "--widow-orphan-min-lines"@ && key != "--no-hanging-punctuation"@ ==> visualize_flag(key) == VisualizeFlag::Unknown,
{
    reveal_strlit("--chapter");
    reveal_strlit("--start-page");
    reveal_strlit("--pages");
    reveal_strlit("--out");
    reveal_strlit("--width");
    reveal_strlit("--height");
    reveal_strlit("--justify");
    reveal_strlit("--font-size");
    reveal_strlit("--line-gap");
    reveal_strlit("--paragraph-gap");
    reveal_strlit("--margin-left");
    reveal_strlit("--margin-right");
    reveal_strlit("--margin-top");
    reveal_strlit("--margin-bottom");
    reveal_strlit("--justify-min-words");
    reveal_strlit("--justify-min-fill");
    reveal_strlit("--cover-page-mode");
    reveal_strlit("--no-widow-orphan");
    reveal_strlit("--widow-orphan-min-lines");
    reveal_strlit("--no-hanging-punctuation");
    assert("--chapter"@ != "--start-page"@) by { assert("--chapter"@.len() != "--start-page"@.len()); }
    assert("--chapter"@ != "--pages"@) by { assert("--chapter"@.len() != "--pages"@.len()); }
    assert("--chapter"@ != "--out"@) by { assert("--chapter"@.len() != "--out"@.len()); }
    assert("--chapter"@ != "--width"@) by { assert("--chapter"@.len() != "--width"@.len()); }
    assert("--chapter"@ != "--height"@) by { assert("--chapter"@.len() != "--height"@.len()); }
    assert("--chapter"@ != "--justify"@) by { assert("--chapter"@[2] != "--justify"@[2]); }
    assert("--chapter"@ != "--font-size"@) by { assert("--chapter"@.len() != "--font-size"@.len()); }
    assert("--chapter"@ != "--line-gap"@) by { assert("--chapter"@.len() != "--line-gap"@.len()); }
    assert("--chapter"@ != "--paragraph-gap"@) by { assert("--chapter"@.len() != "--paragraph-gap"@.len()); }
    assert("--chapter"@ != "--margin-left"@) by { assert("--chapter"@.len() != "--margin-left"@.len()); }
    assert("--chapter"@ != "--margin-right"@) by { assert("--chapter"@.len() != "--margin-right"@.len()); }
    assert("--chapter"@ != "--margin-top"@) by { assert("--chapter"@.len() != "--margin-top"@.len()); }
    assert("--chapter"@ != "--margin-bottom"@) by { assert("--chapter"@.len() != "--margin-bottom"@.len()); }
    assert("--chapter"@ != "--justify-min-words"@) by { assert("--chapter"@.len() != "--justify-min-words"@.len()); }
    assert("--chapter"@ != "--justify-min-fill"@) by { assert("--chapter"@.len() != "--justify-min-fill"@.len()); }
    assert("--chapter"@ != "--cover-page-mode"@) by { assert("--chapter"@.len() != "--cover-page-mode"@.len()); }
    assert("--chapter"@ != "--no-widow-orphan"@) by { assert("--chapter"@.len() != "--no-widow-orphan"@.len()); }
    assert("--chapter"@ != "--widow-orphan-min-lines"@) by { assert("--chapter"@.len() != "--widow-orphan-min-lines"@.len()); }
    assert("--chapter"@ != "--no-hanging-punctuation"@) by { assert("--chapter"@.len() != "--no-hanging-punctuation"@.len()); }
    assert("--start-page"@ != "--pages"@) by { assert("--start-page"@.len() != "--pages"@.len()); }
    assert("--start-page"@ != "--out"@) by { assert("--start-page"@.len() != "--out"@.len()); }
    assert("--start-page"@ != "--width"@) by { assert("--start-page"@.len() != "--width"@.len()); }
    assert("--start-page"@ != "--height"@) by { assert("--start-page"@.len() != "--height"@.len()); }
    assert("--start-page"@ != "--justify"@) by { assert("--start-page"@.len() != "--justify"@.len()); }
    assert("--start-page"@ != "--font-size"@) by { assert("--start-page"@.len() != "--font-size"@.len()); }
    assert("--start-page"@ != "--line-gap"@) by { assert("--start-page"@.len() != "--line-gap"@.len()); }
    assert("--start-page"@ != "--paragraph-gap"@) by { assert("--start-page"@.len() != "--paragraph-gap"@.len()); }
    assert("--start-page"@ != "--margin-left"@) by { assert("--start-page"@.len() != "--margin-left"@.len()); }
    assert("--start-page"@ != "--margin-right"@) by { assert("--start-page"@.len() != "--margin-right"@.len()); }
    assert("--start-page"@ != "--margin-top"@) by { assert("--start-page"@[2] != "--margin-top"@[2]); }
    assert("--start-page"@ != "--margin-bottom"@) by { assert("--start-page"@.len() != "--margin-bottom"@.len()); }
    assert("--start-page"@ != "--justify-min-words"@) by { assert("--start-page"@.len() != "--justify-min-words"@.len()); }
    assert("--start-page"@ != "--justify-min-fill"@) by { assert("--start-page"@.len() != "--justify-min-fill"@.len()); }
    assert("--start-page"@ != "--cover-page-mode"@) by { assert("--start-page"@.len() != "--cover-page-mode"@.len()); }
    assert("--start-page"@ != "--no-widow-orphan"@) by { assert("--start-page"@.len() != "--no-widow-orphan"@.len()); }
    assert("--start-page"@ != "--widow-orphan-min-lines"@) by { assert("--start-page"@.len() != "--widow-orphan-min-lines"@.len()); }
    assert("--start-page"@ != "--no-hanging-punctuation"@) by { assert("--start-page"@.len() != "--no-hanging-punctuation"@.len()); }
    assert("--pages"@ != "--out"@) by { assert("--pages"@.len() != "--out"@.len()); }
    assert("--pages"@ != "--width"@) by { assert("--pages"@[2] != "--width"@[2]); }
    assert("--pages"@ != "--height"@) by { assert("--pages"@.len() != "--height"@.len()); }
    assert("--pages"@ != "--justify"@) by { assert("--pages"@.len() != "--justify"@.len()); }
    assert("--pages"@ != "--font-size"@) by { assert("--pages"@.len() != "--font-size"@.len()); }
    assert("--pages"@ != "--line-gap"@) by { assert("--pages"@.len() != "--line-gap"@.len()); }
    assert("--pages"@ != "--paragraph-gap"@) by { assert("--pages"@.len() != "--paragraph-gap"@.len()); }
    assert("--pages"@ != "--margin-left"@) by { assert("--pages"@.len() != "--margin-left"@.len()); }
    assert("--pages"@ != "--margin-right"@) by { assert("--pages"@.len() != "--margin-right"@.len()); }
    assert("--pages"@ != "--margin-top"@) by { assert("--pages"@.len() != "--margin-top"@.len()); }
    assert("--pages"@ != "--margin-bottom"@) by { assert("--pages"@.len() != "--margin-bottom"@.len()); }
    assert("--pages"@ != "--justify-min-words"@) by { assert("--pages"@.len() != "--justify-min-words"@.len()); }
    assert("--pages"@ != "--justify-min-fill"@) by { assert("--pages"@.len() != "--justify-min-fill"@.len()); }
    assert("--pages"@ != "--cover-page-mode"@) by { assert("--pages"@.len() != "--cover-page-mode"@.len()); }
    assert("--pages"@ != "--no-widow-orphan"@) by { assert("--pages"@.len() != "--no-widow-orphan"@.len()); }
    assert("--pages"@ != "--widow-orphan-min-lines"@) by { assert("--pages"@.len() != "--widow-orphan-min-lines"@.len()); }
    assert("--pages"@ != "--no-hanging-punctuation"@) by { assert("--pages"@.len() != "--no-hanging-punctuation"@.len()); }
    assert("--out"@ != "--width"@) by { assert("--out"@.len() != "--width"@.len()); }
    assert("--out"@ != "--height"@) by { assert("--out"@.len() != "--height"@.len()); }
    assert("--out"@ != "--justify"@) by { assert("--out"@.len() != "--justify"@.len()); }
    assert("--out"@ != "--font-size"@) by { assert("--out"@.len() != "--font-size"@.len()); }
    assert("--out"@ != "--line-gap"@) by { assert("--out"@.len() != "--line-gap"@.len()); }
    assert("--out"@ != "--paragraph-gap"@) by { assert("--out"@.len() != "--paragraph-gap"@.len()); }
    assert("--out"@ != "--margin-left"@) by { assert("--out"@.len() != "--margin-left"@.len()); }
    assert("--out"@ != "--margin-right"@) by { assert("--out"@.len() != "--margin-right"@.len()); }
    assert("--out"@ != "--margin-top"@) by { assert("--out"@.len() != "--margin-top"@.len()); }
    assert("--out"@ != "--margin-bottom"@) by { assert("--out"@.len() != "--margin-bottom"@.len()); }
    assert("--out"@ != "--justify-min-words"@) by { assert("--out"@.len() != "--justify-min-words"@.len()); }
    assert("--out"@ != "--justify-min-fill"@) by { assert("--out"@.len() != "--justify-min-fill"@.len()); }
    assert("--out"@ != "--cover-page-mode"@) by { assert("--out"@.len() != "--cover-page-mode"@.len()); }
    assert("--out"@ != "--no-widow-orphan"@) by { assert("--out"@.len() != "--no-widow-orphan"@.len()); }
    assert("--out"@ != "--widow-orphan-min-lines"@) by { assert("--out"@.len() != "--widow-orphan-min-lines"@.len()); }
    assert("--out"@ != "--no-hanging-punctuation"@) by { assert("--out"@.len() != "--no-hanging-punctuation"@.len()); }
    assert("--width"@ != "--height"@) by { assert("--width"@.len() != "--height"@.len()); }
    assert("--width"@ != "--justify"@) by { assert("--width"@.len() != "--justify"@.len()); }
    assert("--width"@ != "--font-size"@) by { assert("--width"@.len() != "--font-size"@.len()); }
    assert("--width"@ != "--line-gap"@) by { assert("--width"@.len() != "--line-gap"@.len()); }
    assert("--width"@ != "--paragraph-gap"@) by { assert("--width"@.len() != "--paragraph-gap"@.len()); }
    assert("--width"@ != "--margin-left"@) by { assert("--width"@.len() != "--margin-left"@.len()); }
    assert("--width"@ != "--margin-right"@) by { assert("--width"@.len() != "--margin-right"@.len()); }
    assert("--width"@ != "--margin-top"@) by { assert("--width"@.len() != "--margin-top"@.len()); }
    assert("--width"@ != "--margin-bottom"@) by { assert("--width"@.len() != "--margin-bottom"@.len()); }
    assert("--width"@ != "--justify-min-words"@) by { assert("--width"@.len() != "--justify-min-words"@.len()); }
    assert("--width"@ != "--justify-min-fill"@) by { assert("--width"@.len() != "--justify-min-fill"@.len()); }
    assert("--width"@ != "--cover-page-mode"@) by { assert("--width"@.len() != "--cover-page-mode"@.len()); }
    assert("--width"@ != "--no-widow-orphan"@) by { assert("--width"@.len() != "--no-widow-orphan"@.len()); }
    assert("--width"@ != "--widow-orphan-min-lines"@) by { assert("--width"@.len() != "--widow-orphan-min-lines"@.len()); }
    assert("--width"@ != "--no-hanging-punctuation"@) by { assert("--width"@.len() != "--no-hanging-punctuation"@.len()); }
    assert("--height"@ != "--justify"@) by { assert("--height"@.len() != "--justify"@.len()); }
    assert("--height"@ != "--font-size"@) by { assert("--height"@.len() != "--font-size"@.len()); }
    assert("--height"@ != "--line-gap"@) by { assert("--height"@.len() != "--line-gap"@.len()); }
    assert("--height"@ != "--paragraph-gap"@) by { assert("--height"@.len() != "--paragraph-gap"@.len()); }
    assert("--height"@ != "--margin-left"@) by { assert("--height"@.len() != "--margin-left"@.len()); }
    assert("--height"@ != "--margin-right"@) by { assert("--height"@.len() != "--margin-right"@.len()); }
    assert("--height"@ != "--margin-top"@) by { assert("--height"@.len() != "--margin-top"@.len()); }
    assert("--height"@ != "--margin-bottom"@) by { assert("--height"@.len() != "--margin-bottom"@.len()); }
    assert("--height"@ != "--justify-min-words"@) by { assert("--height"@.len() != "--justify-min-words"@.len()); }
    assert("--height"@ != "--justify-min-fill"@) by { assert("--height"@.len() != "--justify-min-fill"@.len()); }
    assert("--height"@ != "--cover-page-mode"@) by { assert("--height"@.len() != "--cover-page-mode"@.len()); }
    assert("--height"@ != "--no-widow-orphan"@) by { assert("--height"@.len() != "--no-widow-orphan"@.len()); }
    assert("--height"@ != "--widow-orphan-min-lines"@) by { assert("--height"@.len() != "--widow-orphan-min-lines"@.len()); }
    assert("--height"@ != "--no-hanging-punctuation"@) by { assert("--height"@.len() != "--no-hanging-punctuation"@.len()); }
    assert("--justify"@ != "--font-size"@) by { assert("--justify"@.len() != "--font-size"@.len()); }
    assert("--justify"@ != "--line-gap"@) by { assert("--justify"@.len() != "--line-gap"@.len()); }
    assert("--justify"@ != "--paragraph-gap"@) by { assert("--justify"@.len() != "--paragraph-gap"@.len()); }
    assert("--justify"@ != "--margin-left"@) by { assert("--justify"@.len() != "--margin-left"@.len()); }
    assert("--justify"@ != "--margin-right"@) by { assert("--justify"@.len() != "--margin-right"@.len()); }
    assert("--justify"@ != "--margin-top"@) by { assert("--justify"@.len() != "--margin-top"@.len()); }
    assert("--justify"@ != "--margin-bottom"@) by { assert("--justify"@.len() != "--margin-bottom"@.len()); }
    assert("--justify"@ != "--justify-min-words"@) by { assert("--justify"@.len() != "--justify-min-words"@.len()); }
    assert("--justify"@ != "--justify-min-fill"@) by { assert("--justify"@.len() != "--justify-min-fill"@.len()); }
    assert("--justify"@ != "--cover-page-mode"@) by { assert("--justify"@.len() != "--cover-page-mode"@.len()); }
    assert("--justify"@ != "--no-widow-orphan"@) by { assert("--justify"@.len() != "--no-widow-orphan"@.len()); }
    assert("--justify"@ != "--widow-orphan-min-lines"@) by { assert("--justify"@.len() != "--widow-orphan-min-lines"@.len()); }
    assert("--justify"@ != "--no-hanging-punctuation"@) by { assert("--justify"@.len() != "--no-hanging-punctuation"@.len()); }
    assert("--font-size"@ != "--line-gap"@) by { assert("--font-size"@.len() != "--line-gap"@.len()); }
    assert("--font-size"@ != "--paragraph-gap"@) by { assert("--font-size"@.len() != "--paragraph-gap"@.len()); }
    assert("--font-size"@ != "--margin-left"@) by { assert("--font-size"@.len() != "--margin-left"@.len()); }
    assert("--font-size"@ != "--margin-right"@) by { assert("--font-size"@.len() != "--margin-right"@.len()); }
    assert("--font-size"@ != "--margin-top"@) by { assert("--font-size"@.len() != "--margin-top"@.len()); }
    assert("--font-size"@ != "--margin-bottom"@) by { assert("--font-size"@.len() != "--margin-bottom"@.len()); }
    assert("--font-size"@ != "--justify-min-words"@) by { assert("--font-size"@.len() != "--justify-min-words"@.len()); }
    assert("--font-size"@ != "--justify-min-fill"@) by { assert("--font-size"@.len() != "--justify-min-fill"@.len()); }
    assert("--font-size"@ != "--cover-page-mode"@) by { assert("--font-size"@.len() != "--cover-page-mode"@.len()); }
    assert("--font-size"@ != "--no-widow-orphan"@) by { assert("--font-size"@.len() != "--no-widow-orphan"@.len()); }
    assert("--font-size"@ != "--widow-orphan-min-lines"@) by { assert("--font-size"@.len() != "--widow-orphan-min-lines"@.len()); }
    assert("--font-size"@ != "--no-hanging-punctuation"@) by { assert("--font-size"@.len() != "--no-hanging-punctuation"@.len()); }
    assert("--line-gap"@ != "--paragraph-gap"@) by { assert("--line-gap"@.len() != "--paragraph-gap"@.len()); }
    assert("--line-gap"@ != "--margin-left"@) by { assert("--line-gap"@.len() != "--margin-left"@.len()); }
    assert("--line-gap"@ != "--margin-right"@) by { assert("--line-gap"@.len() != "--margin-right"@.len()); }
    assert("--line-gap"@ != "--margin-top"@) by { assert("--line-gap"@.len() != "--margin-top"@.len()); }
    assert("--line-gap"@ != "--margin-bottom"@) by { assert("--line-gap"@.len() != "--margin-bottom"@.len()); }
    assert("--line-gap"@ != "--justify-min-words"@) by { assert("--line-gap"@.len() != "--justify-min-words"@.len()); }
    assert("--line-gap"@ != "--justify-min-fill"@) by { assert("--line-gap"@.len() != "--justify-min-fill"@.len()); }
    assert("--line-gap"@ != "--cover-page-mode"@) by { assert("--line-gap"@.len() != "--cover-page-mode"@.len()); }
    assert("--line-gap"@ != "--no-widow-orphan"@) by { assert("--line-gap"@.len() != "--no-widow-orphan"@.len()); }
    assert("--line-gap"@ != "--widow-orphan-min-lines"@) by { assert("--line-gap"@.len() != "--widow-orphan-min-lines"@.len()); }
    assert("--line-gap"@ != "--no-hanging-punctuation"@) by { assert("--line-gap"@.len() != "--no-hanging-punctuation"@.len()); }
    assert("--paragraph-gap"@ != "--margin-left"@) by { assert("--paragraph-gap"@.len() != "--margin-left"@.len()); }
    assert("--paragraph-gap"@ != "--margin-right"@) by { assert("--paragraph-gap"@.len() != "--margin-right"@.len()); }
    assert("--paragraph-gap"@ != "--margin-top"@) by { assert("--paragraph-gap"@.len() != "--margin-top"@.len()); }
    assert("--paragraph-gap"@ != "--margin-bottom"@) by { assert("--paragraph-gap"@[2] != "--margin-bottom"@[2]); }
    assert("--paragraph-gap"@ != "--justify-min-words"@) by { assert("--paragraph-gap"@.len() != "--justify-min-words"@.len()); }
    assert("--paragraph-gap"@ != "--justify-min-fill"@) by { assert("--paragraph-gap"@.len() != "--justify-min-fill"@.len()); }
    assert("--paragraph-gap"@ != "--cover-page-mode"@) by { assert("--paragraph-gap"@.len() != "--cover-page-mode"@.len()); }
    assert("--paragraph-gap"@ != "--no-widow-orphan"@) by { assert("--paragraph-gap"@.len() != "--no-widow-orphan"@.len()); }
    assert("--paragraph-gap"@ != "--widow-orphan-min-lines"@) by { assert("--paragraph-gap"@.len() != "--widow-orphan-min-lines"@.len()); }
    assert("--paragraph-gap"@ != "--no-hanging-punctuation"@) by { assert("--paragraph-gap"@.len() != "--no-hanging-punctuation"@.len()); }
    assert("--margin-left"@ != "--margin-right"@) by { assert("--margin-left"@.len() != "--margin-right"@.len()); }
    assert("--margin-left"@ != "--margin-top"@) by { assert("--margin-left"@.len() != "--margin-top"@.len()); }
    assert("--margin-left"@ != "--margin-bottom"@) by { assert("--margin-left"@.len() != "--margin-bottom"@.len()); }
    assert("--margin-left"@ != "--justify-min-words"@) by { assert("--margin-left"@.len() != "--justify-min-words"@.len()); }
    assert("--margin-left"@ != "--justify-min-fill"@) by { assert("--margin-left"@.len() != "--justify-min-fill"@.len()); }
    assert("--margin-left"@ != "--cover-page-mode"@) by { assert("--margin-left"@.len() != "--cover-page-mode"@.len()); }
    assert("--margin-left"@ != "--no-widow-orphan"@) by { assert("--margin-left"@.len() != "--no-widow-orphan"@.len()); }
    assert("--margin-left"@ != "--widow-orphan-min-lines"@) by { assert("--margin-left"@.len() != "--widow-orphan-min-lines"@.len()); }
    assert("--margin-left"@ != "--no-hanging-punctuation"@) by { assert("--margin-left"@.len() != "--no-hanging-punctuation"@.len()); }
    assert("--margin-right"@ != "--margin-top"@) by { assert("--margin-right"@.len() != "--margin-top"@.len()); }
    assert("--margin-right"@ != "--margin-bottom"@) by { assert("--margin-right"@.len() != "--margin-bottom"@.len()); }
    assert("--margin-right"@ != "--justify-min-words"@) by { assert("--margin-right"@.len() != "--justify-min-words"@.len()); }
    assert("--margin-right"@ != "--justify-min-fill"@) by { assert("--margin-right"@.len() != "--justify-min-fill"@.len()); }
    assert("--margin-right"@ != "--cover-page-mode"@) by { assert("--margin-right"@.len() != "--cover-page-mode"@.len()); }
    assert("--margin-right"@ != "--no-widow-orphan"@) by { assert("--margin-right"@.len() != "--no-widow-orphan"@.len()); }
    assert("--margin-right"@ != "--widow-orphan-min-lines"@) by { assert("--margin-right"@.len() != "--widow-orphan-min-lines"@.len()); }
    assert("--margin-right"@ != "--no-hanging-punctuation"@) by { assert("--margin-right"@.len() != "--no-hanging-punctuation"@.len()); }
    assert("--margin-top"@ != "--margin-bottom"@) by { assert("--margin-top"@.len() != "--margin-bottom"@.len()); }
    assert("--margin-top"@ != "--justify-min-words"@) by { assert("--margin-top"@.len() != "--justify-min-words"@.len()); }
    assert("--margin-top"@ != "--justify-min-fill"@) by { assert("--margin-top"@.len() != "--justify-min-fill"@.len()); }
    assert("--margin-top"@ != "--cover-page-mode"@) by { assert("--margin-top"@.len() != "--cover-page-mode"@.len()); }
    assert("--margin-top"@ != "--no-widow-orphan"@) by { assert("--margin-top"@.len() != "--no-widow-orphan"@.len()); }
    assert("--margin-top"@ != "--widow-orphan-min-lines"@) by { assert("--margin-top"@.len() != "--widow-orphan-min-lines"@.len()); }
    assert("--margin-top"@ != "--no-hanging-punctuation"@) by { assert("--margin-top"@.len() != "--no-hanging-punctuation"@.len()); }
    assert("--margin-bottom"@ != "--justify-min-words"@) by { assert("--margin-bottom"@.len() != "--justify-min-words"@.len()); }
    assert("--margin-bottom"@ != "--justify-min-fill"@) by { assert("--margin-bottom"@.len() != "--justify-min-fill"@.len()); }
    assert("--margin-bottom"@ != "--cover-page-mode"@) by { assert("--margin-bottom"@.len() != "--cover-page-mode"@.len()); }
    assert("--margin-bottom"@ != "--no-widow-orphan"@) by { assert("--margin-bottom"@.len() != "--no-widow-orphan"@.len()); }
    assert("--margin-bottom"@ != "--widow-orphan-min-lines"@) by { assert("--margin-bottom"@.len() != "--widow-orphan-min-lines"@.len()); }
    assert("--margin-bottom"@ != "--no-hanging-punctuation"@) by { assert("--margin-bottom"@.len() != "--no-hanging-punctuation"@.len()); }
    assert("--justify-min-words"@ != "--justify-min-fill"@) by { assert("--justify-min-words"@.len() != "--justify-min-fill"@.len()); }
    assert("--justify-min-words"@ != "--cover-page-mode"@) by { assert("--justify-min-words"@.len() != "--cover-page-mode"@.len()); }
    assert("--justify-min-words"@ != "--no-widow-orphan"@) by { assert("--justify-min-words"@.len() != "--no-widow-orphan"@.len()); }
    assert("--justify-min-words"@ != "--widow-orphan-min-lines"@) by { assert("--justify-min-words"@.len() != "--widow-orphan-min-lines"@.len()); }
    assert("--justify-min-words"@ != "--no-hanging-punctuation"@) by { assert("--justify-min-words"@.len() != "--no-hanging-punctuation"@.len()); }
    assert("--justify-min-fill"@ != "--cover-page-mode"@) by { assert("--justify-min-fill"@.len() != "--cover-page-mode"@.len()); }
    assert("--justify-min-fill"@ != "--no-widow-orphan"@) by { assert("--justify-min-fill"@.len() != "--no-widow-orphan"@.len()); }
    assert("--justify-min-fill"@ != "--widow-orphan-min-lines"@) by { assert("--justify-min-fill"@.len() != "--widow-orphan-min-lines"@.len()); }
    assert("--justify-min-fill"@ != "--no-hanging-punctuation"@) by { assert("--justify-min-fill"@.len() != "--no-hanging-punctuation"@.len()); }
    assert("--cover-page-mode"@ != "--no-widow-orphan"@) by { assert("--cover-page-mode"@[2] != "--no-widow-orphan"@[2]); }
    assert("--cover-page-mode"@ != "--widow-orphan-min-lines"@) by { assert("--cover-page-mode"@.len() != "--widow-orphan-min-lines"@.len()); }
    assert("--cover-page-mode"@ != "--no-hanging-punctuation"@) by { assert("--cover-page-mode"@.len() != "--no-hanging-punctuation"@.len()); }
    assert("--no-widow-orphan"@ != "--widow-orphan-min-lines"@) by { assert("--no-widow-orphan"@.len() != "--widow-orphan-min-lines"@.len()); }
    assert("--no-widow-orphan"@ != "--no-hanging-punctuation"@) by { assert("--no-widow-orphan"@.len() != "--no-hanging-punctuation"@.len()); }
    assert("--widow-orphan-min-lines"@ != "--no-hanging-punctuation"@) by { assert("--widow-orphan-min-lines"@[2] != "--no-hanging-punctuation"@[2]); }
}

/// `contain`, `full-bleed` (`full_bleed`, `fullbleed`) and `respect-css`
/// (`respect_css`, `respectcss`, `css`) name the cover-page modes; any other
/// key names none.
pub proof fn law_strict_cover_page_mode_keywords(key: Seq<char>)
    ensures
        key == "contain"@ ==> strict_cover_page_mode(key) == Some(CoverPageMode::Contain),
        key == "full-bleed"@ || key == "full_bleed"@ || key == "fullbleed"@ ==> strict_cover_page_mode(key) == Some(CoverPageMode::FullBleed),
        key == "respect-css"@ || key == "respect_css"@ || key == "respectcss"@ || key == "css"@ ==> strict_cover_page_mode(key) == Some(CoverPageMode::RespectCss),
        key != "contain"@ && key != "full-bleed"@ && key != "full_bleed"@ && key != "fullbleed"@ && key != "respect-css"@ && key != "respect_css"@ && key != "respectcss"@ && key != "css"@ ==> strict_cover_page_mode(key) == None::<CoverPageMode>,
{
    reveal_strlit("contain");
    reveal_strlit("full-bleed");
    reveal_strlit("full_bleed");
    reveal_strlit("fullbleed");
    reveal_strlit("respect-css");
    reveal_strlit("respect_css");
    reveal_strlit("respectcss");
    reveal_strlit("css");
    assert("contain"@ != "full-bleed"@) by { assert("contain"@.len() != "full-bleed"@.len()); }
    assert("contain"@ != "full_bleed"@) by { assert("contain"@.len() != "full_bleed"@.len()); }
    assert("contain"@ != "fullbleed"@) by { assert("contain"@.len() != "fullbleed"@.len()); }
    assert("contain"@ != "respect-css"@) by { assert("contain"@.len() != "respect-css"@.len()); }
    assert("contain"@ != "respect_css"@) by { assert("contain"@.len() != "respect_css"@.len()); }
    assert("contain"@ != "respectcss"@) by { assert("contain"@.len() != "respectcss"@.len()); }
    assert("contain"@ != "css"@) by { assert("contain"@.len() != "css"@.len()); }
    assert("full-bleed"@ != "full_bleed"@) by { assert("full-bleed"@[4] != "full_bleed"@[4]); }
    assert("full-bleed"@ != "fullbleed"@) by { assert("full-bleed"@.len() != "fullbleed"@.len()); }
    assert("full-bleed"@ != "respect-css"@) by { assert("full-bleed"@.len() != "respect-css"@.len()); }
    assert("full-bleed"@ != "respect_css"@) by { assert("full-bleed"@.len() != "respect_css"@.len()); }
    assert("full-bleed"@ != "respectcss"@) by { assert("full-bleed"@[0] != "respectcss"@[0]); }
    assert("full-bleed"@ != "css"@) by { assert("full-bleed"@.len() != "css"@.len()); }
    assert("full_bleed"@ != "fullbleed"@) by { assert("full_bleed"@.len() != "fullbleed"@.len()); }
    assert("full_bleed"@ != "respect-css"@) by { assert("full_bleed"@.len() != "respect-css"@.len()); }
    assert("full_bleed"@ != "respect_css"@) by { assert("full_bleed"@.len() != "respect_css"@.len()); }
    assert("full_bleed"@ != "respectcss"@) by { assert("full_bleed"@[0] != "respectcss"@[0]); }
    assert("full_bleed"@ != "css"@) by { assert("full_bleed"@.len() != "css"@.len()); }
    assert("fullbleed"@ != "respect-css"@) by { assert("fullbleed"@.len() != "respect-css"@.len()); }
    assert("fullbleed"@ != "respect_css"@) by { assert("fullbleed"@.len() != "respect_css"@.len()); }
    assert("fullbleed"@ != "respectcss"@) by { assert("fullbleed"@.len() != "respectcss"@.len()); }
    assert("fullbleed"@ != "css"@) by { assert("fullbleed"@.len() != "css"@.len()); }
    assert("respect-css"@ != "respect_css"@) by { assert("respect-css"@[7] != "respect_css"@[7]); }
    assert("respect-css"@ != "respectcss"@) by { assert("respect-css"@.len() != "respectcss"@.len()); }
    assert("respect-css"@ != "css"@) by { assert("respect-css"@.len() != "css"@.len()); }
    assert("respect_css"@ != "respectcss"@) by { assert("respect_css"@.len() != "respectcss"@.len()); }
    assert("respect_css"@ != "css"@) by { assert("respect_css"@.len() != "css"@.len()); }
    assert("respectcss"@ != "css"@) by { assert("respectcss"@.len() != "css"@.len()); }
}

/// Each option of the snapshot tool sets the setting it names, and only
/// that one: a switch sets its flag and reading goes on after it; an option
/// with a value takes the next argument (parsed as the option asks, or
/// refused with `InvalidValue` at the option's index) and reading goes on
/// after the value.
pub proof fn law_visualize_options_set_their_settings(
    args: Seq<String>,
    facts: Seq<FloatArgFacts>,
    i: int,
    c: VisualizeArgs,
)
    requires
        0 <= i,
        i + 1 < args.len(),
    ensures
        args[i]@ == "--justify"@ ==> visualize_read(args, facts, i, c) == visualize_read(args, facts, i + 1, VisualizeArgs { justify: true, ..c }),
        args[i]@ == "--no-widow-orphan"@ ==> visualize_read(args, facts, i, c) == visualize_read(args, facts, i + 1, VisualizeArgs { widow_orphan: false, ..c }),
        args[i]@ == "--no-hanging-punctuation"@ ==> visualize_read(args, facts, i, c) == visualize_read(args, facts, i + 1, VisualizeArgs { hanging_punctuation: false, ..c }),
        args[i]@ == "--chapter"@ ==> visualize_read(args, facts, i, c) == match parse_unsigned(args[i + 1]@, usize::MAX as int) {
            Some(n) => visualize_read(args, facts, i + 2, VisualizeArgs { chapter: n as usize, ..c }),
            None => Err(VisualizeArgsError::InvalidValue(i as usize)),
        },
        args[i]@ == "--start-page"@ ==> visualize_read(args, facts, i, c) == match parse_unsigned(args[i + 1]@, usize::MAX as int) {
            Some(n) => visualize_read(args, facts, i + 2, VisualizeArgs { start_page: n as usize, ..c }),
            None => Err(VisualizeArgsError::InvalidValue(i as usize)),
        },
        args[i]@ == "--pages"@ ==> visualize_read(args, facts, i, c) == match parse_unsigned(args[i + 1]@, usize::MAX as int) {
            Some(n) => visualize_read(args, facts, i + 2, VisualizeArgs { pages: n as usize, ..c }),
            None => Err(VisualizeArgsError::InvalidValue(i as usize)),
        },
        args[i]@ == "--justify-min-words"@ ==> visualize_read(args, facts, i, c) == match parse_unsigned(args[i + 1]@, usize::MAX as int) {
            Some(n) => visualize_read(args, facts, i + 2, VisualizeArgs { justify_min_words: n as usize, ..c }),
            None => Err(VisualizeArgsError::InvalidValue(i as usize)),
        },
        args[i]@ == "--width"@ ==> visualize_read(args, facts, i, c) == match parse_unsigned(args[i + 1]@, 0xffff_ffff) {
            Some(n) => visualize_read(args, facts, i + 2, VisualizeArgs { width: n as u32, ..c }),
            None => Err(VisualizeArgsError::InvalidValue(i as usize)),
        },
        args[i]@ == "--height"@ ==> visualize_read(args, facts, i, c) == match parse_unsigned(args[i + 1]@, 0xffff_ffff) {
            Some(n) => visualize_read(args, facts, i + 2, VisualizeArgs { height: n as u32, ..c }),
            None => Err(VisualizeArgsError::InvalidValue(i as usize)),
        },
        args[i]@ == "--line-gap"@ ==> visualize_read(args, facts, i, c) == match parse_i32_text(args[i + 1]@) {
            Some(n) => visualize_read(args, facts, i + 2, VisualizeArgs { line_gap_px: n as i32, ..c }),
            None => Err(VisualizeArgsError::InvalidValue(i as usize)),
        },
        args[i]@ == "--paragraph-gap"@ ==> visualize_read(args, facts, i, c) == match parse_i32_text(args[i + 1]@) {
            Some(n) => visualize_read(args, facts, i + 2, VisualizeArgs { paragraph_gap_px: n as i32, ..c }),
            None => Err(VisualizeArgsError::InvalidValue(i as usize)),
        },
        args[i]@ == "--margin-left"@ ==> visualize_read(args, facts, i, c) == match parse_i32_text(args[i + 1]@) {
            Some(n) => visualize_read(args, facts, i + 2, VisualizeArgs { margin_left: n as i32, ..c }),
            None => Err(VisualizeArgsError::InvalidValue(i as usize)),
        },
        args[i]@ == "--margin-right"@ ==> visualize_read(args, facts, i, c) == match parse_i32_text(args[i + 1]@) {
            Some(n) => visualize_read(args, facts, i + 2, VisualizeArgs { margin_right: n as i32, ..c }),
            None => Err(VisualizeArgsError::InvalidValue(i as usize)),
        },
        args[i]@ == "--margin-top"@ ==> visualize_read(args, facts, i, c) == match parse_i32_text(args[i + 1]@) {
            Some(n) => visualize_read(args, facts, i + 2, VisualizeArgs { margin_top: n as i32, ..c }),
            None => Err(VisualizeArgsError::InvalidValue(i as usize)),
        },
        args[i]@ == "--margin-bottom"@ ==> visualize_read(args, facts, i, c) == match parse_i32_text(args[i + 1]@) {
            Some(n) => visualize_read(args, facts, i + 2, VisualizeArgs { margin_bottom: n as i32, ..c }),
            None => Err(VisualizeArgsError::InvalidValue(i as usize)),
        },
        args[i]@ == "--widow-orphan-min-lines"@ ==> visualize_read(args, facts, i, c) == match parse_unsigned(args[i + 1]@, 0xff) {
            Some(n) => visualize_read(args, facts, i + 2, VisualizeArgs { widow_orphan_min_lines: n as u8, ..c }),
            None => Err(VisualizeArgsError::InvalidValue(i as usize)),
        },
        args[i]@ == "--cover-page-mode"@ ==> visualize_read(args, facts, i, c) == match strict_cover_page_mode(trim_lower(args[i + 1]@)) {
            Some(n) => visualize_read(args, facts, i + 2, VisualizeArgs { cover_page_mode: n, ..c }),
            None => Err(VisualizeArgsError::InvalidValue(i as usize)),
        },
        args[i]@ == "--out"@ ==> visualize_read(args, facts, i, c) == visualize_read(args, facts, i + 2, VisualizeArgs { out_dir: TextSetting::Arg((i + 1) as usize), ..c }),
        args[i]@ == "--font-size"@ ==> visualize_read(args, facts, i, c) == if float_fact(facts, i + 1).parses {
            visualize_read(args, facts, i + 2, VisualizeArgs { font_size: TextSetting::Arg((i + 1) as usize), ..c })
        } else {
            Err(VisualizeArgsError::InvalidValue(i as usize))
        },
        args[i]@ == "--justify-min-fill"@ ==> visualize_read(args, facts, i, c) == if float_fact(facts, i + 1).parses {
            visualize_read(args, facts, i + 2, VisualizeArgs { justify_min_fill: TextSetting::Arg((i + 1) as usize), ..c })
        } else {
            Err(VisualizeArgsError::InvalidValue(i as usize))
        },
{
    law_visualize_flag_names(args[i]@);
    if args[i]@ == "--chapter"@ {
        assert(visualize_flag(args[i]@) == VisualizeFlag::Chapter);
    }
    if args[i]@ == "--start-page"@ {
        assert(visualize_flag(args[i]@) == VisualizeFlag::StartPage);
    }
    if args[i]@ == "--pages"@ {
        assert(visualize_flag(args[i]@) == VisualizeFlag::Pages);
    }
    if args[i]@ == "--out"@ {
        assert(visualize_flag(args[i]@) == VisualizeFlag::Out);
    }
    if args[i]@ == "--width"@ {
        assert(visualize_flag(args[i]@) == VisualizeFlag::Width);
    }
    if args[i]@ == "--height"@ {
        assert(visualize_flag(args[i]@) == VisualizeFlag::Height);
    }
    if args[i]@ == "--justify"@ {
        assert(visualize_flag(args[i]@) == VisualizeFlag::Justify);
    }
    if args[i]@ == "--font-size"@ {
        assert(visualize_flag(args[i]@) == VisualizeFlag::FontSize);
    }
    if args[i]@ == "--line-gap"@ {
        assert(visualize_flag(args[i]@) == VisualizeFlag::LineGap);
    }
    if args[i]@ == "--paragraph-gap"@ {
        assert(visualize_flag(args[i]@) == VisualizeFlag::ParagraphGap);
    }
    if args[i]@ == "--margin-left"@ {
        assert(visualize_flag(args[i]@) == VisualizeFlag::MarginLeft);
    }
    if args[i]@ == "--margin-right"@ {
        assert(visualize_flag(args[i]@) == VisualizeFlag::MarginRight);
    }
    if args[i]@ == "--margin-top"@ {
        assert(visualize_flag(args[i]@) == VisualizeFlag::MarginTop);
    }
    if args[i]@ == "--margin-bottom"@ {
        assert(visualize_flag(args[i]@) == VisualizeFlag::MarginBottom);
    }
    if args[i]@ == "--justify-min-words"@ {
        assert(visualize_flag(args[i]@) == VisualizeFlag::JustifyMinWords);
    }
    if args[i]@ == "--justify-min-fill"@ {
        assert(visualize_flag(args[i]@) == VisualizeFlag::JustifyMinFill);
    }
    if args[i]@ == "--cover-page-mode"@ {
        assert(visualize_flag(args[i]@) == VisualizeFlag::CoverPageMode);
    }
    if args[i]@ == "--no-widow-orphan"@ {
        assert(visualize_flag(args[i]@) == VisualizeFlag::NoWidowOrphan);
    }
    if args[i]@ == "--widow-orphan-min-lines"@ {
        assert(visualize_flag(args[i]@) == VisualizeFlag::WidowOrphanMinLines);
    }
    if args[i]@ == "--no-hanging-punctuation"@ {
        assert(visualize_flag(args[i]@) == VisualizeFlag::NoHangingPunctuation);
    }
}

/// Every page image a snapshot run writes, and its manifest, is cleared by
/// the next run: names `chapter_<x>.pgm` and `chapter_<x>.png` and
/// `manifest.tsv` count as earlier output, the snapshot file names among
/// them; a name not starting with `chapter_` and other than `manifest.tsv`
/// does not.
pub proof fn law_snapshot_outputs_are_cleared(chapter: nat, page: nat, x: Seq<char>, other: Seq<char>)
    requires
        !has_prefix(other, "chapter_"@),
        other != "manifest.tsv"@,
    ensures
        is_snapshot_output(snapshot_name(chapter, page)),
        is_snapshot_output("chapter_"@ + x + ".pgm"@),
        is_snapshot_output("chapter_"@ + x + ".png"@),
        is_snapshot_output("manifest.tsv"@),
        !is_snapshot_output(other),
{
    let a = "chapter_"@ + x + ".pgm"@;
    let b = "chapter_"@ + x + ".png"@;
    assert(a.take("chapter_"@.len() as int) =~= "chapter_"@);
    assert(a.skip(a.len() - ".pgm"@.len()) =~= ".pgm"@);
    assert(b.take("chapter_"@.len() as int) =~= "chapter_"@);
    assert(b.skip(b.len() - ".png"@.len()) =~= ".png"@);
    let n = snapshot_name(chapter, page);
    let mid = zero_padded(decimal(chapter + 1), 3) + "_page_"@ + zero_padded(decimal(page + 1), 4);
    assert(n =~= "chapter_"@ + mid + ".pgm"@);
    assert(n.take("chapter_"@.len() as int) =~= "chapter_"@);
    assert(n.skip(n.len() - ".pgm"@.len()) =~= ".pgm"@);
}

/// A PGM image is the header `P5`, newline, width, space, height, newline,
/// `255`, newline, followed by one byte per pixel: 0 for an inked pixel and
/// 255 for a blank one.
pub proof fn law_pgm_layout(width: nat, height: nat, pixels: Seq<bool>, i: int)
    requires
        0 <= i < pixels.len(),
    ensures
        pgm_header(width, height) == seq![80u8, 53u8, 10u8] + decimal_bytes(width) + seq![32u8]
            + decimal_bytes(height) + seq![10u8, 50u8, 53u8, 53u8, 10u8],
        pgm_image(width, height, pixels).len() == pgm_header(width, height).len() + pixels.len(),
        pgm_image(width, height, pixels)[pgm_header(width, height).len() + i] == (if pixels[i] { 0u8 } else { 255u8 }),
{
}

} // verus!
