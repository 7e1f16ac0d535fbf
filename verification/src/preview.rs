use vstd::prelude::*;

use crate::engine::{decimal, push_decimal};
use crate::paths::{find_char_from, last_index_of, path_extension};
use vstd::string::StrSliceExecFns;
use vstd::utf8::encode_utf8;
use crate::page_map::{count_equal, first_equal_from, ChapterRef};
use crate::paths::{basename, normalized_path};
use crate::persisted::opt_view;
use crate::render_ir::{
    BlockRole, JustifyMode, PageChromeKind, CoverPageMode, DitherMode, FloatSupport, GrayscaleMode, HyphenationMode, JustificationStrategy,
    PageChromeTextStyle, SoftHyphenPolicy, SvgMode,
};
use crate::text::{chars_of, string_from_chars, trim_bounds, chars_eq_str, is_ws, lower_char, lower_seq, trim_lower, trim_lower_chars, trim_seq, first_non_ws_from, trimmed_end_from};

verus! {

/// A string with no surrounding whitespace and no upper-case ASCII letter.
pub open spec fn is_plain_key(s: Seq<char>) -> bool {
    forall|i: int| 0 <= i < s.len() ==> !is_ws(#[trigger] s[i]) && !('A' <= s[i] && s[i] <= 'Z')
}

/// Trimming and lower-casing leave a plain key unchanged.
pub proof fn lemma_trim_lower_plain(s: Seq<char>)
    requires
        is_plain_key(s),
    ensures
        trim_lower(s) == s,
{
    assert(first_non_ws_from(s, 0) == 0);
    if s.len() > 0 {
        assert(!is_ws(s[s.len() - 1]));
    }
    assert(trimmed_end_from(s, 0, s.len() as int) == s.len());
    assert(trim_seq(s) =~= s);
    assert(lower_seq(s) =~= s) by {
        assert forall|i: int| 0 <= i < s.len() implies lower_char(s[i]) == s[i] by {}
    }
}

// ---------------------------------------------------------------------------
// Option keywords accepted by the preview UI.
// ---------------------------------------------------------------------------

/// Soft-hyphen policy named by a normalised key.
pub open spec fn soft_hyphen_policy_for(key: Seq<char>) -> SoftHyphenPolicy {
    if key == "ignore"@ {
        SoftHyphenPolicy::Ignore
    } else {
        SoftHyphenPolicy::Discretionary
    }
}

/// Parses a soft-hyphen policy keyword (trimmed, case-insensitive); unknown
/// keywords select `Discretionary`.
pub fn parse_soft_hyphen_policy(value: &str) -> (r: SoftHyphenPolicy)
    ensures
        r == soft_hyphen_policy_for(trim_lower(value@)),
{
    let key = trim_lower_chars(value);
    if chars_eq_str(&key, "ignore") {
        SoftHyphenPolicy::Ignore
    } else {
        SoftHyphenPolicy::Discretionary
    }
}

/// Hyphenation mode named by a normalised key.
pub open spec fn hyphenation_mode_for(key: Seq<char>) -> HyphenationMode {
    if key == "ignore"@ {
        HyphenationMode::Ignore
    } else {
        HyphenationMode::Discretionary
    }
}

/// Parses a hyphenation mode keyword; unknown keywords select `Discretionary`.
pub fn parse_hyphenation_mode(value: &str) -> (r: HyphenationMode)
    ensures
        r == hyphenation_mode_for(trim_lower(value@)),
{
    let key = trim_lower_chars(value);
    if chars_eq_str(&key, "ignore") {
        HyphenationMode::Ignore
    } else {
        HyphenationMode::Discretionary
    }
}

/// Cover-page mode named by a normalised key.
pub open spec fn cover_page_mode_for(key: Seq<char>) -> CoverPageMode {
    if key == "full-bleed"@ || key == "full_bleed"@ || key == "fullbleed"@ {
        CoverPageMode::FullBleed
    } else if key == "respect-css"@ || key == "respect_css"@ || key == "respectcss"@ || key
        == "css"@ {
        CoverPageMode::RespectCss
    } else {
        CoverPageMode::Contain
    }
}

/// Parses a cover-page mode keyword (with its spelling variants); unknown
/// keywords select `Contain`.
pub fn parse_cover_page_mode(value: &str) -> (r: CoverPageMode)
    ensures
        r == cover_page_mode_for(trim_lower(value@)),
{
    let key = trim_lower_chars(value);
    if chars_eq_str(&key, "full-bleed") || chars_eq_str(&key, "full_bleed") || chars_eq_str(
        &key,
        "fullbleed",
    ) {
        CoverPageMode::FullBleed
    } else if chars_eq_str(&key, "respect-css") || chars_eq_str(&key, "respect_css")
        || chars_eq_str(&key, "respectcss") || chars_eq_str(&key, "css") {
        CoverPageMode::RespectCss
    } else {
        CoverPageMode::Contain
    }
}

/// Canonical keyword of a cover-page mode.
pub open spec fn cover_page_mode_name(mode: CoverPageMode) -> Seq<char> {
    match mode {
        CoverPageMode::Contain => "contain"@,
        CoverPageMode::FullBleed => "full-bleed"@,
        CoverPageMode::RespectCss => "respect-css"@,
    }
}

/// Canonical keyword of a cover-page mode.
pub fn cover_page_mode_to_string(mode: CoverPageMode) -> (r: &'static str)
    ensures
        r@ == cover_page_mode_name(mode),
{
    match mode {
        CoverPageMode::Contain => "contain",
        CoverPageMode::FullBleed => "full-bleed",
        CoverPageMode::RespectCss => "respect-css",
    }
}

/// Parsing the canonical keyword of a cover-page mode gives that mode back,
/// so normalising a keyword twice changes nothing.
pub proof fn law_cover_page_mode_keyword_roundtrip(mode: CoverPageMode)
    ensures
        cover_page_mode_for(trim_lower(cover_page_mode_name(mode))) == mode,
{
    reveal_strlit("contain");
    reveal_strlit("full-bleed");
    reveal_strlit("respect-css");
    reveal_strlit("full_bleed");
    reveal_strlit("fullbleed");
    reveal_strlit("respect_css");
    reveal_strlit("respectcss");
    reveal_strlit("css");
    lemma_trim_lower_plain(cover_page_mode_name(mode));
}

/// Float support named by a normalised key.
pub open spec fn float_support_for(key: Seq<char>) -> FloatSupport {
    if key == "basic"@ {
        FloatSupport::Basic
    } else {
        FloatSupport::NoFloats
    }
}

/// Parses a float-support keyword; unknown keywords disable floats.
pub fn parse_float_support(value: &str) -> (r: FloatSupport)
    ensures
        r == float_support_for(trim_lower(value@)),
{
    let key = trim_lower_chars(value);
    if chars_eq_str(&key, "basic") {
        FloatSupport::Basic
    } else {
        FloatSupport::NoFloats
    }
}

/// SVG mode named by a normalised key.
pub open spec fn svg_mode_for(key: Seq<char>) -> SvgMode {
    if key == "ignore"@ {
        SvgMode::Ignore
    } else if key == "native"@ {
        SvgMode::Native
    } else {
        SvgMode::RasterizeFallback
    }
}

/// Parses an SVG mode keyword; unknown keywords select `RasterizeFallback`.
pub fn parse_svg_mode(value: &str) -> (r: SvgMode)
    ensures
        r == svg_mode_for(trim_lower(value@)),
{
    let key = trim_lower_chars(value);
    if chars_eq_str(&key, "ignore") {
        SvgMode::Ignore
    } else if chars_eq_str(&key, "native") {
        SvgMode::Native
    } else {
        SvgMode::RasterizeFallback
    }
}

/// Grayscale mode named by a normalised key.
pub open spec fn grayscale_mode_for(key: Seq<char>) -> GrayscaleMode {
    if key == "luminosity"@ {
        GrayscaleMode::Luminosity
    } else {
        GrayscaleMode::Off
    }
}

/// Parses a grayscale mode keyword; unknown keywords select `Off`.
pub fn parse_grayscale_mode(value: &str) -> (r: GrayscaleMode)
    ensures
        r == grayscale_mode_for(trim_lower(value@)),
{
    let key = trim_lower_chars(value);
    if chars_eq_str(&key, "luminosity") {
        GrayscaleMode::Luminosity
    } else {
        GrayscaleMode::Off
    }
}

/// Dither mode named by a normalised key.
pub open spec fn dither_mode_for(key: Seq<char>) -> DitherMode {
    if key == "ordered"@ {
        DitherMode::Ordered
    } else if key == "error-diffusion"@ {
        DitherMode::ErrorDiffusion
    } else {
        DitherMode::NoDither
    }
}

/// Parses a dither mode keyword; unknown keywords disable dithering.
pub fn parse_dither_mode(value: &str) -> (r: DitherMode)
    ensures
        r == dither_mode_for(trim_lower(value@)),
{
    let key = trim_lower_chars(value);
    if chars_eq_str(&key, "ordered") {
        DitherMode::Ordered
    } else if chars_eq_str(&key, "error-diffusion") {
        DitherMode::ErrorDiffusion
    } else {
        DitherMode::NoDither
    }
}

/// Chrome text style named by a normalised key.
pub open spec fn chrome_text_style_for(key: Seq<char>) -> PageChromeTextStyle {
    if key == "bold"@ {
        PageChromeTextStyle::Bold
    } else if key == "italic"@ {
        PageChromeTextStyle::Italic
    } else if key == "bold-italic"@ {
        PageChromeTextStyle::BoldItalic
    } else {
        PageChromeTextStyle::Regular
    }
}

/// Parses a chrome text style keyword; unknown keywords select `Regular`.
pub fn parse_chrome_text_style(value: &str) -> (r: PageChromeTextStyle)
    ensures
        r == chrome_text_style_for(trim_lower(value@)),
{
    let key = trim_lower_chars(value);
    if chars_eq_str(&key, "bold") {
        PageChromeTextStyle::Bold
    } else if chars_eq_str(&key, "italic") {
        PageChromeTextStyle::Italic
    } else if chars_eq_str(&key, "bold-italic") {
        PageChromeTextStyle::BoldItalic
    } else {
        PageChromeTextStyle::Regular
    }
}

/// Justification strategy named by a normalised key.
pub open spec fn justification_strategy_for(key: Seq<char>) -> JustificationStrategy {
    if key == "full-inter-word"@ || key == "full"@ {
        JustificationStrategy::FullInterWord
    } else if key == "align-left"@ || key == "left"@ {
        JustificationStrategy::AlignLeft
    } else if key == "align-right"@ || key == "right"@ {
        JustificationStrategy::AlignRight
    } else if key == "align-center"@ || key == "center"@ || key == "centre"@ {
        JustificationStrategy::AlignCenter
    } else {
        JustificationStrategy::AdaptiveInterWord
    }
}

/// Parses a justification strategy keyword (long or short form); unknown
/// keywords select `AdaptiveInterWord`.
pub fn parse_justification_strategy(value: &str) -> (r: JustificationStrategy)
    ensures
        r == justification_strategy_for(trim_lower(value@)),
{
    let key = trim_lower_chars(value);
    if chars_eq_str(&key, "full-inter-word") || chars_eq_str(&key, "full") {
        JustificationStrategy::FullInterWord
    } else if chars_eq_str(&key, "align-left") || chars_eq_str(&key, "left") {
        JustificationStrategy::AlignLeft
    } else if chars_eq_str(&key, "align-right") || chars_eq_str(&key, "right") {
        JustificationStrategy::AlignRight
    } else if chars_eq_str(&key, "align-center") || chars_eq_str(&key, "center")
        || chars_eq_str(&key, "centre") {
        JustificationStrategy::AlignCenter
    } else {
        JustificationStrategy::AdaptiveInterWord
    }
}

/// Canonical keyword of a justification strategy.
pub open spec fn justification_strategy_name(strategy: JustificationStrategy) -> Seq<char> {
    match strategy {
        JustificationStrategy::AdaptiveInterWord => "adaptive-inter-word"@,
        JustificationStrategy::FullInterWord => "full-inter-word"@,
        JustificationStrategy::AlignLeft => "align-left"@,
        JustificationStrategy::AlignRight => "align-right"@,
        JustificationStrategy::AlignCenter => "align-center"@,
    }
}

/// Canonical keyword of a justification strategy.
pub fn justification_strategy_to_string(strategy: JustificationStrategy) -> (r: &'static str)
    ensures
        r@ == justification_strategy_name(strategy),
{
    match strategy {
        JustificationStrategy::AdaptiveInterWord => "adaptive-inter-word",
        JustificationStrategy::FullInterWord => "full-inter-word",
        JustificationStrategy::AlignLeft => "align-left",
        JustificationStrategy::AlignRight => "align-right",
        JustificationStrategy::AlignCenter => "align-center",
    }
}

/// Parsing the canonical keyword of a justification strategy gives that
/// strategy back.
pub proof fn law_justification_keyword_roundtrip(strategy: JustificationStrategy)
    ensures
        justification_strategy_for(trim_lower(justification_strategy_name(strategy)))
            == strategy,
{
    reveal_strlit("adaptive-inter-word");
    reveal_strlit("full-inter-word");
    reveal_strlit("align-left");
    reveal_strlit("align-right");
    reveal_strlit("align-center");
    reveal_strlit("full");
    reveal_strlit("left");
    reveal_strlit("right");
    reveal_strlit("center");
    reveal_strlit("centre");
    lemma_trim_lower_plain(justification_strategy_name(strategy));
}

// ---------------------------------------------------------------------------
// Labels sent to the preview front end.
// ---------------------------------------------------------------------------

/// Name of a chrome kind in preview payloads.
pub open spec fn page_chrome_kind_name(kind: PageChromeKind) -> Seq<char> {
    match kind {
        PageChromeKind::Header => "header"@,
        PageChromeKind::Footer => "footer"@,
        PageChromeKind::Progress => "progress"@,
    }
}

/// Name of a chrome kind in preview payloads.
pub fn page_chrome_kind_to_string(kind: PageChromeKind) -> (r: String)
    ensures
        r@ == page_chrome_kind_name(kind),
{
    match kind {
        PageChromeKind::Header => "header".to_owned(),
        PageChromeKind::Footer => "footer".to_owned(),
        PageChromeKind::Progress => "progress".to_owned(),
    }
}

/// Name of a block role in preview payloads; headings carry their level.
pub open spec fn block_role_name(role: BlockRole) -> Seq<char> {
    match role {
        BlockRole::Body => "body"@,
        BlockRole::Paragraph => "paragraph"@,
        BlockRole::Heading(level) => "heading-"@ + decimal(level as nat),
        BlockRole::ListItem => "list-item"@,
        BlockRole::FigureCaption => "figure-caption"@,
        BlockRole::Preformatted => "preformatted"@,
    }
}

/// Name of a block role in preview payloads; headings carry their level
/// (`heading-2`).
pub fn block_role_to_string(role: BlockRole) -> (r: String)
    ensures
        r@ == block_role_name(role),
{
    match role {
        BlockRole::Body => "body".to_owned(),
        BlockRole::Paragraph => "paragraph".to_owned(),
        BlockRole::Heading(level) => {
            let mut out = chars_of("heading-");
            push_decimal(&mut out, level as usize);
            string_from_chars(&out)
        },
        BlockRole::ListItem => "list-item".to_owned(),
        BlockRole::FigureCaption => "figure-caption".to_owned(),
        BlockRole::Preformatted => "preformatted".to_owned(),
    }
}

/// Justification of a text run as sent to the preview front end.
#[derive(Clone, Debug, PartialEq, Eq)]
pub struct JustifyPayload {
    /// `none`, `inter-word`, `align-right` or `align-center`.
    pub mode: String,
    /// Extra inter-word pixels for `inter-word`.
    pub extra_px_total: Option<i32>,
    /// Horizontal offset for right or centred alignment.
    pub offset_px: Option<i32>,
}

/// Payload form of a justification mode.
pub fn justify_mode_to_payload(mode: JustifyMode) -> (r: JustifyPayload)
    ensures
        match mode {
            JustifyMode::NoJustify => r.mode@ == "none"@ && r.extra_px_total is None
                && r.offset_px is None,
            JustifyMode::InterWord { extra_px_total } => r.mode@ == "inter-word"@
                && r.extra_px_total == Some(extra_px_total) && r.offset_px is None,
            JustifyMode::AlignRight { offset_px } => r.mode@ == "align-right"@
                && r.extra_px_total is None && r.offset_px == Some(offset_px),
            JustifyMode::AlignCenter { offset_px } => r.mode@ == "align-center"@
                && r.extra_px_total is None && r.offset_px == Some(offset_px),
        },
{
    match mode {
        JustifyMode::NoJustify => JustifyPayload {
            mode: "none".to_owned(),
            extra_px_total: None,
            offset_px: None,
        },
        JustifyMode::InterWord { extra_px_total } => JustifyPayload {
            mode: "inter-word".to_owned(),
            extra_px_total: Some(extra_px_total),
            offset_px: None,
        },
        JustifyMode::AlignRight { offset_px } => JustifyPayload {
            mode: "align-right".to_owned(),
            extra_px_total: None,
            offset_px: Some(offset_px),
        },
        JustifyMode::AlignCenter { offset_px } => JustifyPayload {
            mode: "align-center".to_owned(),
            extra_px_total: None,
            offset_px: Some(offset_px),
        },
    }
}

/// Style of an embedded font face.
#[derive(Clone, Copy, Debug, PartialEq, Eq)]
pub enum EmbeddedFontStyle {
    Normal,
    Italic,
    Oblique,
}

/// CSS `font-style` value of an embedded face.
pub open spec fn embedded_style_css(style: EmbeddedFontStyle) -> Seq<char> {
    match style {
        EmbeddedFontStyle::Normal => "normal"@,
        EmbeddedFontStyle::Italic => "italic"@,
        EmbeddedFontStyle::Oblique => "oblique"@,
    }
}

/// CSS `font-style` value of an embedded face.
pub fn embedded_style_to_css(style: EmbeddedFontStyle) -> (r: &'static str)
    ensures
        r@ == embedded_style_css(style),
{
    match style {
        EmbeddedFontStyle::Normal => "normal",
        EmbeddedFontStyle::Italic => "italic",
        EmbeddedFontStyle::Oblique => "oblique",
    }
}

// ---------------------------------------------------------------------------
// Media types of embedded resources.
// ---------------------------------------------------------------------------

/// Image media type for a lower-cased extension.
pub open spec fn image_mime_for_ext(ext: Seq<char>) -> Option<Seq<char>> {
    if ext == "png"@ {
        Some("image/png"@)
    } else if ext == "jpg"@ || ext == "jpeg"@ {
        Some("image/jpeg"@)
    } else if ext == "gif"@ {
        Some("image/gif"@)
    } else if ext == "webp"@ {
        Some("image/webp"@)
    } else if ext == "bmp"@ {
        Some("image/bmp"@)
    } else if ext == "svg"@ {
        Some("image/svg+xml"@)
    } else if ext == "avif"@ {
        Some("image/avif"@)
    } else {
        None
    }
}

/// Image media type of a resource path, from its extension.
pub open spec fn image_mime_for_path(path: Seq<char>) -> Option<Seq<char>> {
    match path_extension(path) {
        Some(ext) => image_mime_for_ext(ext),
        None => None,
    }
}

/// Image media type of a resource path, from its (case-insensitive) extension.
pub fn mime_from_path(path: &str) -> (r: Option<&'static str>)
    ensures
        match r {
            Some(m) => image_mime_for_path(path@) == Some(m@),
            None => image_mime_for_path(path@) is None,
        },
{
    let ext = match crate::paths::extension_of(path) {
        Some(e) => e,
        None => return None,
    };
    let e = ext.as_str();
    if crate::text::str_eq(e, "png") {
        Some("image/png")
    } else if crate::text::str_eq(e, "jpg") || crate::text::str_eq(e, "jpeg") {
        Some("image/jpeg")
    } else if crate::text::str_eq(e, "gif") {
        Some("image/gif")
    } else if crate::text::str_eq(e, "webp") {
        Some("image/webp")
    } else if crate::text::str_eq(e, "bmp") {
        Some("image/bmp")
    } else if crate::text::str_eq(e, "svg") {
        Some("image/svg+xml")
    } else if crate::text::str_eq(e, "avif") {
        Some("image/avif")
    } else {
        None
    }
}

/// CSS `@font-face` format name for a lower-cased extension.
pub open spec fn font_format_for_ext(ext: Seq<char>) -> Option<Seq<char>> {
    if ext == "ttf"@ {
        Some("truetype"@)
    } else if ext == "otf"@ {
        Some("opentype"@)
    } else if ext == "woff"@ {
        Some("woff"@)
    } else if ext == "woff2"@ {
        Some("woff2"@)
    } else {
        None
    }
}

/// CSS `@font-face` format name of a font path, from its extension.
pub fn font_format_from_path(path: &str) -> (r: Option<&'static str>)
    ensures
        match r {
            Some(f) => match path_extension(path@) {
                Some(ext) => font_format_for_ext(ext) == Some(f@),
                None => false,
            },
            None => match path_extension(path@) {
                Some(ext) => font_format_for_ext(ext) is None,
                None => true,
            },
        },
{
    let ext = match crate::paths::extension_of(path) {
        Some(e) => e,
        None => return None,
    };
    let e = ext.as_str();
    if crate::text::str_eq(e, "ttf") {
        Some("truetype")
    } else if crate::text::str_eq(e, "otf") {
        Some("opentype")
    } else if crate::text::str_eq(e, "woff") {
        Some("woff")
    } else if crate::text::str_eq(e, "woff2") {
        Some("woff2")
    } else {
        None
    }
}

/// Whether `t` occurs in `s` at offset `i`.
pub open spec fn occurs_in_at(s: Seq<char>, t: Seq<char>, i: int) -> bool {
    0 <= i && i + t.len() <= s.len() && s.subrange(i, i + t.len()) == t
}

/// Whether `t` occurs anywhere in `s` (`str::contains`).
pub open spec fn contains_seq(s: Seq<char>, t: Seq<char>) -> bool {
    exists|i: int| #[trigger] occurs_in_at(s, t, i)
}

/// Whether the characters of `s` contain `lit`.
fn chars_contain(s: &Vec<char>, lit: &str) -> (b: bool)
    ensures
        b == contains_seq(s@, lit@),
{
    let t = chars_of(lit);
    if t.len() > s.len() {
        assert forall|i: int| !occurs_in_at(s@, lit@, i) by {}
        return false;
    }
    let last = s.len() - t.len();
    let mut i: usize = 0;
    while i <= last
        invariant
            last + t.len() == s.len(),
            t@ == lit@,
            forall|j: int| 0 <= j < i ==> !occurs_in_at(s@, lit@, j),
        decreases last + 1 - i,
    {
        let mut k: usize = 0;
        let mut same = true;
        while k < t.len()
            invariant
                i <= last,
                last + t.len() == s.len(),
                k <= t.len(),
                same == (forall|m: int| 0 <= m < k ==> s@[i + m] == t@[m]),
            decreases t.len() - k,
        {
            if s[i + k] != t[k] {
                same = false;
            }
            k += 1;
        }
        if same {
            assert(s@.subrange(i as int, i + t.len()) =~= t@);
            assert(occurs_in_at(s@, lit@, i as int));
            return true;
        }
        assert(!occurs_in_at(s@, lit@, i as int)) by {
            if s@.subrange(i as int, i + t.len()) == t@ {
                assert forall|m: int| 0 <= m < t.len() implies s@[i + m] == t@[m] by {
                    assert(s@.subrange(i as int, i + t.len())[m] == s@[i + m]);
                }
            }
        }
        i += 1;
    }
    assert forall|j: int| !occurs_in_at(s@, lit@, j) by {
        if 0 <= j && j < i {
        }
    }
    false
}

/// Font media type named by a `@font-face` format hint, if it names one.
pub open spec fn font_mime_for_hint(hint: Seq<char>) -> Option<Seq<char>> {
    let n = trim_lower(hint);
    if contains_seq(n, "woff2"@) {
        Some("font/woff2"@)
    } else if contains_seq(n, "woff"@) {
        Some("font/woff"@)
    } else if contains_seq(n, "opentype"@) || contains_seq(n, "otf"@) {
        Some("font/otf"@)
    } else if contains_seq(n, "truetype"@) || contains_seq(n, "ttf"@) {
        Some("font/ttf"@)
    } else {
        None
    }
}

/// Font media type for a lower-cased extension.
pub open spec fn font_mime_for_ext(ext: Seq<char>) -> Option<Seq<char>> {
    if ext == "woff2"@ {
        Some("font/woff2"@)
    } else if ext == "woff"@ {
        Some("font/woff"@)
    } else if ext == "otf"@ {
        Some("font/otf"@)
    } else if ext == "ttf"@ {
        Some("font/ttf"@)
    } else {
        None
    }
}

/// Font media type: the format hint decides when it names a format, the path's
/// extension otherwise.
pub open spec fn font_mime_for(hint: Option<Seq<char>>, path: Seq<char>) -> Option<Seq<char>> {
    let from_hint = match hint {
        Some(h) => font_mime_for_hint(h),
        None => None,
    };
    if from_hint is Some {
        from_hint
    } else {
        match path_extension(path) {
            Some(ext) => font_mime_for_ext(ext),
            None => None,
        }
    }
}

/// Font media type of an embedded face, preferring its format hint over the
/// extension of its path.
pub fn font_mime_type(format_hint: Option<&str>, path: &str) -> (r: Option<&'static str>)
    ensures
        match r {
            Some(m) => font_mime_for(
                match format_hint {
                    Some(h) => Some(h@),
                    None => None,
                },
                path@,
            ) == Some(m@),
            None => font_mime_for(
                match format_hint {
                    Some(h) => Some(h@),
                    None => None,
                },
                path@,
            ) is None,
        },
{
    if let Some(hint) = format_hint {
        let n = trim_lower_chars(hint);
        if chars_contain(&n, "woff2") {
            return Some("font/woff2");
        }
        if chars_contain(&n, "woff") {
            return Some("font/woff");
        }
        if chars_contain(&n, "opentype") || chars_contain(&n, "otf") {
            return Some("font/otf");
        }
        if chars_contain(&n, "truetype") || chars_contain(&n, "ttf") {
            return Some("font/ttf");
        }
    }
    let ext = match crate::paths::extension_of(path) {
        Some(e) => e,
        None => return None,
    };
    let e = ext.as_str();
    if crate::text::str_eq(e, "woff2") {
        Some("font/woff2")
    } else if crate::text::str_eq(e, "woff") {
        Some("font/woff")
    } else if crate::text::str_eq(e, "otf") {
        Some("font/otf")
    } else if crate::text::str_eq(e, "ttf") {
        Some("font/ttf")
    } else {
        None
    }
}

// ---------------------------------------------------------------------------
// Table of contents.
// ---------------------------------------------------------------------------

/// An href split at its first `#`: the part before it, and the fragment after
/// it when there is a `#` (possibly empty).
pub fn split_href_fragment(href: &str) -> (r: (String, Option<String>))
    ensures
        r.0@ == href@.take(find_char_from(href@, '#', 0)),
        find_char_from(href@, '#', 0) < href@.len() ==> r.1 is Some && r.1->0@ == href@.skip(
            find_char_from(href@, '#', 0) + 1,
        ),
        find_char_from(href@, '#', 0) >= href@.len() ==> r.1 is None,
{
    let v = chars_of(href);
    proof {
        crate::paths::lemma_find_char_bounds(v@, '#', 0);
    }
    let k = crate::paths::find_char_exec(&v, '#', 0);
    let base = href.substring_char(0, k).to_owned();
    if k < v.len() {
        let frag = href.substring_char(k + 1, v.len()).to_owned();
        assert(frag@ =~= href@.skip(k + 1));
        (base, Some(frag))
    } else {
        (base, None)
    }
}

/// One flattened table-of-contents entry of the preview payload.
#[derive(Clone, Debug, PartialEq, Eq)]
pub struct TocEntryPayload {
    /// Label shown for the entry.
    pub label: String,
    /// Href of the entry as written in the navigation document.
    pub href: String,
    /// Nesting depth (0 for top-level entries).
    pub depth: usize,
    /// Chapter the entry resolves to, if any.
    pub target_chapter: Option<usize>,
    /// First global page of that chapter, if known.
    pub target_page_global: Option<usize>,
    /// Fragment of the href, if any.
    pub fragment: Option<String>,
}

/// Length in bytes of the UTF-8 encoding of `s`, as `str::len` reports it.
pub open spec fn byte_len(s: Seq<char>) -> usize {
    encode_utf8(s).len() as usize
}

/// Whether a TOC entry can name chapter `c`: it targets `c` and has a
/// non-blank label.
pub open spec fn names_chapter(entry: TocEntryPayload, c: int) -> bool {
    &&& entry.target_chapter is Some
    &&& entry.target_chapter->0 == c
    &&& trim_seq(entry.label@).len() > 0
}

/// Whether `entry` is a better title than the current choice: shallower, or
/// as deep with a shorter trimmed label.
pub open spec fn better_title(entry: TocEntryPayload, current: Option<(usize, Seq<char>)>) -> bool {
    match current {
        None => true,
        Some((depth, label)) => entry.depth < depth || (entry.depth == depth
            && byte_len(trim_seq(entry.label@)) < byte_len(label)),
    }
}

/// The title chosen for chapter `c` among the first `k` entries, with its depth.
pub open spec fn title_choice(toc: Seq<TocEntryPayload>, k: int, c: int) -> Option<(usize, Seq<char>)>
    decreases k,
{
    if k <= 0 {
        None
    } else {
        let prev = title_choice(toc, k - 1, c);
        if names_chapter(toc[k - 1], c) && better_title(toc[k - 1], prev) {
            Some((toc[k - 1].depth, trim_seq(toc[k - 1].label@)))
        } else {
            prev
        }
    }
}

/// The title of chapter `c`: the trimmed label of its shallowest TOC entry,
/// shorter labels winning among equally deep ones, the first winning a tie.
pub open spec fn chapter_title(toc: Seq<TocEntryPayload>, c: int) -> Option<Seq<char>> {
    match title_choice(toc, toc.len() as int, c) {
        Some((_, label)) => Some(label),
        None => None,
    }
}

/// The chosen title comes from an entry that names the chapter, and no entry
/// that names the chapter is a better title; without such an entry there is
/// no title.
pub proof fn law_chapter_title_is_best(toc: Seq<TocEntryPayload>, k: int, c: int)
    requires
        0 <= k <= toc.len(),
    ensures
        title_choice(toc, k, c) is None <==> (forall|j: int|
            0 <= j < k ==> !names_chapter(#[trigger] toc[j], c)),
        title_choice(toc, k, c) matches Some((d, l)) ==> exists|j: int|
            0 <= j < k && names_chapter(#[trigger] toc[j], c) && toc[j].depth == d && trim_seq(
                toc[j].label@,
            ) == l,
        forall|j: int|
            0 <= j < k && names_chapter(#[trigger] toc[j], c) ==> !better_title(
                toc[j],
                title_choice(toc, k, c),
            ),
    decreases k,
{
    if k > 0 {
        law_chapter_title_is_best(toc, k - 1, c);
        let prev = title_choice(toc, k - 1, c);
        let cur = title_choice(toc, k, c);
        if names_chapter(toc[k - 1], c) && better_title(toc[k - 1], prev) {
            assert(names_chapter(toc[k - 1], c));
        }
        assert forall|j: int| 0 <= j < k && names_chapter(#[trigger] toc[j], c) implies !better_title(
            toc[j],
            cur,
        ) by {
            if j < k - 1 {
                assert(!better_title(toc[j], prev));
            }
        }
        if cur is None {
            assert forall|j: int| 0 <= j < k implies !names_chapter(#[trigger] toc[j], c) by {
                if j == k - 1 {
                    assert(prev is None);
                }
            }
        }
    }
}

/// Spec form of a stored best title.
pub open spec fn best_view(b: Option<(usize, String)>) -> Option<(usize, Seq<char>)> {
    match b {
        Some((d, l)) => Some((d, l@)),
        None => None,
    }
}

/// Trimmed copy of `s`, as a sub-slice.
pub(crate) fn trimmed(s: &str) -> (r: &str)
    ensures
        r@ == trim_seq(s@),
{
    let v = chars_of(s);
    let (lo, hi) = trim_bounds(&v);
    s.substring_char(lo, hi)
}

/// Chapter titles from the flattened TOC: for each chapter below
/// `chapter_count`, the trimmed label of the shallowest entry that targets it
/// (shorter labels winning among equally deep entries), or `None`.
pub fn build_chapter_title_lookup(toc: &[TocEntryPayload], chapter_count: usize) -> (r: Vec<Option<String>>)
    ensures
        r.len() == chapter_count,
        forall|c: int| 0 <= c < chapter_count ==> opt_view(#[trigger] r@[c]) == chapter_title(toc@, c),
{
    let mut best: Vec<Option<(usize, String)>> = Vec::new();
    let mut c: usize = 0;
    while c < chapter_count
        invariant
            c <= chapter_count,
            best.len() == c,
            forall|j: int| 0 <= j < c ==> #[trigger] best@[j] is None,
        decreases chapter_count - c,
    {
        best.push(None);
        c += 1;
    }
    let mut i: usize = 0;
    while i < toc.len()
        invariant
            i <= toc.len(),
            best.len() == chapter_count,
            forall|j: int| 0 <= j < chapter_count ==> best_view(#[trigger] best@[j]) == title_choice(toc@, i as int, j),
        decreases toc.len() - i,
    {
        let entry = &toc[i];
        let ghost old_best = best@;
        let mut handled = false;
        if let Some(ci) = entry.target_chapter {
            if ci < chapter_count {
                let label = trimmed(entry.label.as_str());
                if label.unicode_len() > 0 {
                    handled = true;
                    let replace = match &best[ci] {
                        None => true,
                        Some((best_depth, best_label)) => entry.depth < *best_depth || (entry.depth
                            == *best_depth && label.len() < best_label.as_str().len()),
                    };
                    proof {
                        assert(names_chapter(toc@[i as int], ci as int));
                        assert(label.len() == byte_len(trim_seq(entry.label@)));
                        assert(replace == better_title(toc@[i as int], best_view(old_best[ci as int])));
                    }
                    if replace {
                        best.set(ci, Some((entry.depth, label.to_owned())));
                    }
                    proof {
                        assert forall|j: int| 0 <= j < chapter_count implies best_view(#[trigger] best@[j]) == title_choice(toc@, i + 1, j) by {
                            if j != ci {
                                assert(!names_chapter(toc@[i as int], j));
                                assert(best@[j] == old_best[j]);
                            }
                        }
                    }
                }
            }
        }
        if !handled {
            proof {
                assert forall|j: int| 0 <= j < chapter_count implies best_view(#[trigger] best@[j]) == title_choice(toc@, i + 1, j) by {
                    assert(!names_chapter(toc@[i as int], j));
                }
            }
        }
        i += 1;
    }
    let mut out: Vec<Option<String>> = Vec::new();
    let mut k: usize = 0;
    while k < chapter_count
        invariant
            k <= chapter_count,
            best.len() == chapter_count,
            out.len() == k,
            forall|j: int| 0 <= j < chapter_count ==> best_view(#[trigger] best@[j]) == title_choice(toc@, toc@.len() as int, j),
            forall|j: int| 0 <= j < k ==> opt_view(#[trigger] out@[j]) == chapter_title(toc@, j),
        decreases chapter_count - k,
    {
        let item = match &best[k] {
            Some((_, label)) => Some(label.clone()),
            None => None,
        };
        out.push(item);
        k += 1;
    }
    out
}

// ---------------------------------------------------------------------------
// Embedded resources as data URIs.
// ---------------------------------------------------------------------------

/// Digit of the standard base64 alphabet (`A-Z a-z 0-9 + /`).
pub open spec fn b64_digit(v: int) -> char {
    if v < 26 {
        (('A' as int) + v) as char
    } else if v < 52 {
        (('a' as int) + v - 26) as char
    } else if v < 62 {
        (('0' as int) + v - 52) as char
    } else if v == 62 {
        '+'
    } else {
        '/'
    }
}

/// Standard base64 encoding with `=` padding (RFC 4648).
pub open spec fn base64_standard(b: Seq<u8>) -> Seq<char>
    decreases b.len(),
{
    if b.len() == 0 {
        Seq::<char>::empty()
    } else if b.len() == 1 {
        seq![b64_digit(b[0] as int / 4), b64_digit((b[0] % 4) * 16), '=', '=']
    } else if b.len() == 2 {
        seq![
            b64_digit(b[0] as int / 4),
            b64_digit((b[0] % 4) * 16 + b[1] / 16),
            b64_digit((b[1] % 16) * 4),
            '=',
        ]
    } else {
        seq![
            b64_digit(b[0] as int / 4),
            b64_digit((b[0] % 4) * 16 + b[1] / 16),
            b64_digit((b[1] % 16) * 4 + b[2] / 64),
            b64_digit(b[2] as int % 64),
        ] + base64_standard(b.skip(3))
    }
}

/// Standard base64 of `bytes`, padded (`base64::engine::general_purpose::STANDARD.encode`).
/// The engine encodes with the RFC 4648 alphabet and `=` padding; it panics only when the
/// encoded length overflows `usize`, which the bound on the input rules out.
#[verifier::external_body]
fn base64_encode(bytes: &[u8]) -> (r: String)
    requires
        bytes@.len() <= usize::MAX / 2,
    ensures
        r@ == base64_standard(bytes@),
{
    base64::Engine::encode(&base64::engine::general_purpose::STANDARD, bytes)
}

/// `data:` URI carrying `bytes` of media type `mime`, base64-encoded.
pub open spec fn data_uri_of(mime: Seq<char>, bytes: Seq<u8>) -> Seq<char> {
    "data:"@ + mime + ";base64,"@ + base64_standard(bytes)
}

/// `data:` URI carrying `bytes` of media type `mime`, base64-encoded.
pub fn data_uri(mime: &str, bytes: &[u8]) -> (r: String)
    requires
        bytes@.len() <= usize::MAX / 2,
    ensures
        r@ == data_uri_of(mime@, bytes@),
{
    let encoded = base64_encode(bytes);
    let mut out = chars_of("data:");
    let m = chars_of(mime);
    let tail = chars_of(";base64,");
    let e = chars_of(encoded.as_str());
    let ghost start = out@;
    let mut i: usize = 0;
    while i < m.len()
        invariant
            i <= m.len(),
            out@ == start + m@.take(i as int),
        decreases m.len() - i,
    {
        out.push(m[i]);
        i += 1;
        assert(out@ =~= start + m@.take(i as int));
    }
    assert(m@.take(m.len() as int) =~= m@);
    let ghost mid = out@;
    let mut j: usize = 0;
    while j < tail.len()
        invariant
            j <= tail.len(),
            out@ == mid + tail@.take(j as int),
        decreases tail.len() - j,
    {
        out.push(tail[j]);
        j += 1;
        assert(out@ =~= mid + tail@.take(j as int));
    }
    assert(tail@.take(tail.len() as int) =~= tail@);
    let ghost mid2 = out@;
    let mut k: usize = 0;
    while k < e.len()
        invariant
            k <= e.len(),
            out@ == mid2 + e@.take(k as int),
        decreases e.len() - k,
    {
        out.push(e[k]);
        k += 1;
        assert(out@ =~= mid2 + e@.take(k as int));
    }
    assert(e@.take(e.len() as int) =~= e@);
    string_from_chars(&out)
}

/// Media type of an image payload, `application/octet-stream` when the
/// extension names none.
pub open spec fn image_payload_mime(src: Seq<char>) -> Seq<char> {
    match image_mime_for_path(src) {
        Some(m) => m,
        None => "application/octet-stream"@,
    }
}

/// Data URI for an image resource, or `None` when it is larger than
/// `max_image_bytes`.
pub fn image_data_uri(src: &str, bytes: &[u8], max_image_bytes: usize) -> (r: Option<String>)
    requires
        bytes@.len() <= usize::MAX / 2,
    ensures
        bytes@.len() > max_image_bytes ==> r is None,
        bytes@.len() <= max_image_bytes ==> (r matches Some(u) && u@ == data_uri_of(
            image_payload_mime(src@),
            bytes@,
        )),
{
    if bytes.len() > max_image_bytes {
        return None;
    }
    let mime = match mime_from_path(src) {
        Some(m) => m,
        None => "application/octet-stream",
    };
    Some(data_uri(mime, bytes))
}

/// An embedded font face as sent to the preview front end.
#[derive(Clone, Debug, PartialEq, Eq)]
pub struct FontFacePayload {
    pub family: String,
    pub weight: u16,
    pub style: String,
    pub href: String,
    pub format: Option<String>,
    pub data_uri: String,
}

/// Format hint of a face: the declared one, else the one its extension names.
pub open spec fn face_format_hint(declared: Option<Seq<char>>, href: Seq<char>) -> Option<Seq<char>> {
    match declared {
        Some(f) => Some(f),
        None => match path_extension(href) {
            Some(ext) => font_format_for_ext(ext),
            None => None,
        },
    }
}

/// Payload of an embedded font face, or `None` when its data is larger than
/// `max_font_bytes`: the format hint is the declared format or the one the
/// extension names, and the data URI uses the media type those give
/// (`application/octet-stream` when none).
pub fn font_face_payload(
    family: &str,
    weight: u16,
    style: EmbeddedFontStyle,
    href: &str,
    format: Option<&str>,
    bytes: &[u8],
    max_font_bytes: usize,
) -> (r: Option<FontFacePayload>)
    requires
        bytes@.len() <= usize::MAX / 2,
    ensures
        bytes@.len() > max_font_bytes ==> r is None,
        bytes@.len() <= max_font_bytes ==> r is Some,
        r matches Some(p) ==> {
            let hint = face_format_hint(
                match format {
                    Some(f) => Some(f@),
                    None => None,
                },
                href@,
            );
            &&& p.family@ == family@
            &&& p.weight == weight
            &&& p.style@ == embedded_style_css(style)
            &&& p.href@ == href@
            &&& opt_view(p.format) == hint
            &&& p.data_uri@ == data_uri_of(
                match font_mime_for(hint, href@) {
                    Some(m) => m,
                    None => "application/octet-stream"@,
                },
                bytes@,
            )
        },
{
    if bytes.len() > max_font_bytes {
        return None;
    }
    let format_hint: Option<String> = match format {
        Some(f) => Some(f.to_owned()),
        None => match font_format_from_path(href) {
            Some(f) => Some(f.to_owned()),
            None => None,
        },
    };
    let mime = match &format_hint {
        Some(h) => font_mime_type(Some(h.as_str()), href),
        None => font_mime_type(None, href),
    };
    let mime_text = match mime {
        Some(m) => m,
        None => "application/octet-stream",
    };
    let uri = data_uri(mime_text, bytes);
    Some(
        FontFacePayload {
            family: family.to_owned(),
            weight,
            style: embedded_style_to_css(style).to_owned(),
            href: href.to_owned(),
            format: format_hint,
            data_uri: uri,
        },
    )
}

/// Views of keyword lists.
pub open spec fn keyword_views(v: Seq<&'static str>) -> Seq<Seq<char>> {
    v.map_values(|s: &'static str| s@)
}

/// Keywords offered for `justification_strategy`.
pub open spec fn offered_justification_strategy() -> Seq<Seq<char>> {
    seq!["adaptive-inter-word"@, "full-inter-word"@, "align-left"@, "align-right"@, "align-center"@]
}

/// Keywords offered for `cover_page_mode`.
pub open spec fn offered_cover_page_mode() -> Seq<Seq<char>> {
    seq!["contain"@, "full-bleed"@, "respect-css"@]
}

/// Keywords offered for `soft_hyphen_policy`.
pub open spec fn offered_soft_hyphen_policy() -> Seq<Seq<char>> {
    seq!["discretionary"@, "ignore"@]
}

/// Keywords offered for `hyphenation_mode`.
pub open spec fn offered_hyphenation_mode() -> Seq<Seq<char>> {
    seq!["discretionary"@, "ignore"@]
}

/// Keywords offered for `object_float_support`.
pub open spec fn offered_object_float_support() -> Seq<Seq<char>> {
    seq!["none"@, "basic"@]
}

/// Keywords offered for `object_svg_mode`.
pub open spec fn offered_object_svg_mode() -> Seq<Seq<char>> {
    seq!["ignore"@, "rasterize-fallback"@, "native"@]
}

/// Keywords offered for `render_grayscale_mode`.
pub open spec fn offered_render_grayscale_mode() -> Seq<Seq<char>> {
    seq!["off"@, "luminosity"@]
}

/// Keywords offered for `render_dither_mode`.
pub open spec fn offered_render_dither_mode() -> Seq<Seq<char>> {
    seq!["none"@, "ordered"@, "error-diffusion"@]
}

/// Keywords offered for `chrome_text_style`.
pub open spec fn offered_chrome_text_style() -> Seq<Seq<char>> {
    seq!["regular"@, "bold"@, "italic"@, "bold-italic"@]
}

/// Keyword choices offered by the preview front end for each option.
#[derive(Clone, Debug, PartialEq, Eq)]
pub struct OptionLists {
    pub justification_strategy: Vec<&'static str>,
    pub cover_page_mode: Vec<&'static str>,
    pub soft_hyphen_policy: Vec<&'static str>,
    pub hyphenation_mode: Vec<&'static str>,
    pub object_float_support: Vec<&'static str>,
    pub object_svg_mode: Vec<&'static str>,
    pub render_grayscale_mode: Vec<&'static str>,
    pub render_dither_mode: Vec<&'static str>,
    pub chrome_text_style: Vec<&'static str>,
}

impl Default for OptionLists {
    fn default() -> (r: Self)
        ensures
            keyword_views(r.justification_strategy@) == offered_justification_strategy(),
            keyword_views(r.cover_page_mode@) == offered_cover_page_mode(),
            keyword_views(r.soft_hyphen_policy@) == offered_soft_hyphen_policy(),
            keyword_views(r.hyphenation_mode@) == offered_hyphenation_mode(),
            keyword_views(r.object_float_support@) == offered_object_float_support(),
            keyword_views(r.object_svg_mode@) == offered_object_svg_mode(),
            keyword_views(r.render_grayscale_mode@) == offered_render_grayscale_mode(),
            keyword_views(r.render_dither_mode@) == offered_render_dither_mode(),
            keyword_views(r.chrome_text_style@) == offered_chrome_text_style(),
    {
        let mut justification_strategy: Vec<&'static str> = Vec::new();
        justification_strategy.push("adaptive-inter-word");
        justification_strategy.push("full-inter-word");
        justification_strategy.push("align-left");
        justification_strategy.push("align-right");
        justification_strategy.push("align-center");
        assert(keyword_views(justification_strategy@) =~= offered_justification_strategy());
        let mut cover_page_mode: Vec<&'static str> = Vec::new();
        cover_page_mode.push("contain");
        cover_page_mode.push("full-bleed");
        cover_page_mode.push("respect-css");
        assert(keyword_views(cover_page_mode@) =~= offered_cover_page_mode());
        let mut soft_hyphen_policy: Vec<&'static str> = Vec::new();
        soft_hyphen_policy.push("discretionary");
        soft_hyphen_policy.push("ignore");
        assert(keyword_views(soft_hyphen_policy@) =~= offered_soft_hyphen_policy());
        let mut hyphenation_mode: Vec<&'static str> = Vec::new();
        hyphenation_mode.push("discretionary");
        hyphenation_mode.push("ignore");
        assert(keyword_views(hyphenation_mode@) =~= offered_hyphenation_mode());
        let mut object_float_support: Vec<&'static str> = Vec::new();
        object_float_support.push("none");
        object_float_support.push("basic");
        assert(keyword_views(object_float_support@) =~= offered_object_float_support());
        let mut object_svg_mode: Vec<&'static str> = Vec::new();
        object_svg_mode.push("ignore");
        object_svg_mode.push("rasterize-fallback");
        object_svg_mode.push("native");
        assert(keyword_views(object_svg_mode@) =~= offered_object_svg_mode());
        let mut render_grayscale_mode: Vec<&'static str> = Vec::new();
        render_grayscale_mode.push("off");
        render_grayscale_mode.push("luminosity");
        assert(keyword_views(render_grayscale_mode@) =~= offered_render_grayscale_mode());
        let mut render_dither_mode: Vec<&'static str> = Vec::new();
        render_dither_mode.push("none");
        render_dither_mode.push("ordered");
        render_dither_mode.push("error-diffusion");
        assert(keyword_views(render_dither_mode@) =~= offered_render_dither_mode());
        let mut chrome_text_style: Vec<&'static str> = Vec::new();
        chrome_text_style.push("regular");
        chrome_text_style.push("bold");
        chrome_text_style.push("italic");
        chrome_text_style.push("bold-italic");
        assert(keyword_views(chrome_text_style@) =~= offered_chrome_text_style());
        OptionLists { justification_strategy, cover_page_mode, soft_hyphen_policy, hyphenation_mode, object_float_support, object_svg_mode, render_grayscale_mode, render_dither_mode, chrome_text_style }
    }
}

/// Every justification strategy and cover-page mode the front end offers is
/// a canonical keyword: it parses to a value whose name it is.
pub proof fn law_offered_keywords_are_canonical()
    ensures
        forall|i: int|
            0 <= i < offered_justification_strategy().len() ==> justification_strategy_name(
                justification_strategy_for(trim_lower(#[trigger] offered_justification_strategy()[i])),
            ) == offered_justification_strategy()[i],
        forall|i: int|
            0 <= i < offered_cover_page_mode().len() ==> cover_page_mode_name(
                cover_page_mode_for(trim_lower(#[trigger] offered_cover_page_mode()[i])),
            ) == offered_cover_page_mode()[i],
{
    let js = offered_justification_strategy();
    assert(js[0] == justification_strategy_name(JustificationStrategy::AdaptiveInterWord));
    assert(js[1] == justification_strategy_name(JustificationStrategy::FullInterWord));
    assert(js[2] == justification_strategy_name(JustificationStrategy::AlignLeft));
    assert(js[3] == justification_strategy_name(JustificationStrategy::AlignRight));
    assert(js[4] == justification_strategy_name(JustificationStrategy::AlignCenter));
    law_justification_keyword_roundtrip(JustificationStrategy::AdaptiveInterWord);
    law_justification_keyword_roundtrip(JustificationStrategy::FullInterWord);
    law_justification_keyword_roundtrip(JustificationStrategy::AlignLeft);
    law_justification_keyword_roundtrip(JustificationStrategy::AlignRight);
    law_justification_keyword_roundtrip(JustificationStrategy::AlignCenter);
    let cs = offered_cover_page_mode();
    assert(cs[0] == cover_page_mode_name(CoverPageMode::Contain));
    assert(cs[1] == cover_page_mode_name(CoverPageMode::FullBleed));
    assert(cs[2] == cover_page_mode_name(CoverPageMode::RespectCss));
    law_cover_page_mode_keyword_roundtrip(CoverPageMode::Contain);
    law_cover_page_mode_keyword_roundtrip(CoverPageMode::FullBleed);
    law_cover_page_mode_keyword_roundtrip(CoverPageMode::RespectCss);
}

// ---------------------------------------------------------------------------
// Chapters named by TOC hrefs.
// ---------------------------------------------------------------------------

/// Index (in `chapters`) of the last chapter among the first `n` whose href,
/// as written or normalised, is `key`; `-1` when none is.
pub open spec fn last_href_match(chapters: Seq<ChapterRef>, key: Seq<char>, n: int) -> int
    decreases n,
{
    if n <= 0 {
        -1
    } else if chapters[n - 1].href@ == key || normalized_path(chapters[n - 1].href@) == key {
        n - 1
    } else {
        last_href_match(chapters, key, n - 1)
    }
}

/// Base names of the chapters' normalised hrefs.
pub open spec fn chapter_basenames(chapters: Seq<ChapterRef>) -> Seq<Seq<char>> {
    chapters.map_values(|c: ChapterRef| basename(normalized_path(c.href@)))
}

/// Chapter a TOC href base names: the last chapter whose href (as written or
/// normalised) equals the normalised base, else the one chapter whose
/// normalised href has the same base name, if exactly one has.
pub open spec fn toc_chapter_for(chapters: Seq<ChapterRef>, base: Seq<char>) -> Option<usize> {
    let key = normalized_path(base);
    let j = last_href_match(chapters, key, chapters.len() as int);
    let names = chapter_basenames(chapters);
    let name = basename(key);
    if j >= 0 {
        Some(chapters[j].index)
    } else if count_equal(names, name, names.len() as int) == 1 {
        Some(chapters[first_equal_from(names, name, 0)].index)
    } else {
        None
    }
}

proof fn lemma_last_href_match_bounds(chapters: Seq<ChapterRef>, key: Seq<char>, n: int)
    requires
        0 <= n <= chapters.len(),
    ensures
        -1 <= last_href_match(chapters, key, n) < n,
    decreases n,
{
    if n > 0 {
        lemma_last_href_match_bounds(chapters, key, n - 1);
    }
}

proof fn lemma_unique_name_found(names: Seq<Seq<char>>, t: Seq<char>, n: int)
    requires
        0 <= n <= names.len(),
        count_equal(names, t, n) >= 1,
    ensures
        first_equal_from(names, t, 0) < n,
    decreases n,
{
    if count_equal(names, t, n - 1) >= 1 {
        lemma_unique_name_found(names, t, n - 1);
    } else {
        lemma_first_equal_none_before(names, t, 0, n - 1);
    }
}

proof fn lemma_first_equal_none_before(names: Seq<Seq<char>>, t: Seq<char>, i: int, m: int)
    requires
        0 <= i <= m < names.len(),
        names[m] == t,
        count_equal(names, t, m) == 0,
    ensures
        first_equal_from(names, t, i) <= m,
    decreases m - i,
{
    if i < m && names[i] != t {
        lemma_first_equal_none_before(names, t, i + 1, m);
    }
}

/// Chapter (spine index) a TOC href base names, by normalised href or by a
/// unique base name.
pub fn toc_chapter_index(chapters: &[ChapterRef], base_href: &str) -> (r: Option<usize>)
    ensures
        r == toc_chapter_for(chapters@, base_href@),
{
    let key = crate::paths::normalize_rel_path(base_href);
    let mut last: Option<usize> = None;
    let mut i: usize = 0;
    while i < chapters.len()
        invariant
            i <= chapters.len(),
            match last {
                Some(j) => j < i && last_href_match(chapters@, key@, i as int) == j,
                None => last_href_match(chapters@, key@, i as int) == -1,
            },
        decreases chapters.len() - i,
    {
        let href = chapters[i].href.as_str();
        let norm = crate::paths::normalize_rel_path(href);
        if crate::text::str_eq(href, key.as_str()) || crate::text::str_eq(norm.as_str(), key.as_str()) {
            last = Some(i);
        }
        i += 1;
    }
    if let Some(j) = last {
        return Some(chapters[j].index);
    }
    let name = crate::paths::basename_of(key.as_str());
    let ghost names = chapter_basenames(chapters@);
    let mut count: usize = 0;
    let mut first: usize = chapters.len();
    let mut k: usize = 0;
    while k < chapters.len()
        invariant
            k <= chapters.len(),
            names == chapter_basenames(chapters@),
            name@ == basename(key@),
            count == count_equal(names, name@, k as int),
            count <= k,
            first == (if count == 0 { chapters.len() as int } else { first_equal_from(names, name@, 0) }),
            count > 0 ==> first < k,
        decreases chapters.len() - k,
    {
        let norm = crate::paths::normalize_rel_path(chapters[k].href.as_str());
        let b = crate::paths::basename_of(norm.as_str());
        proof {
            assert(names[k as int] == basename(normalized_path(chapters@[k as int].href@)));
        }
        if crate::text::str_eq(b, name) {
            if count == 0 {
                proof {
                    lemma_first_equal_none_before(names, name@, 0, k as int);
                    assert(first_equal_from(names, name@, 0) == k) by {
                        lemma_first_equal_is_first(names, name@, 0, k as int);
                    }
                }
                first = k;
            }
            count += 1;
        }
        k += 1;
    }
    if count == 1 {
        Some(chapters[first].index)
    } else {
        None
    }
}

/// With no match before `m` and a match at `m`, the first match is `m`.
proof fn lemma_first_equal_is_first(names: Seq<Seq<char>>, t: Seq<char>, i: int, m: int)
    requires
        0 <= i <= m < names.len(),
        names[m] == t,
        count_equal(names, t, m) == 0,
    ensures
        first_equal_from(names, t, i) == m,
    decreases m - i,
{
    lemma_count_zero_no_match(names, t, m);
    if i < m {
        assert(names[i] != t);
        lemma_first_equal_is_first(names, t, i + 1, m);
    }
}

proof fn lemma_count_zero_no_match(names: Seq<Seq<char>>, t: Seq<char>, m: int)
    requires
        0 <= m <= names.len(),
        count_equal(names, t, m) == 0,
    ensures
        forall|j: int| 0 <= j < m ==> names[j] != t,
    decreases m,
{
    if m > 0 {
        crate::page_map::lemma_count_equal_nonneg(names, t, m - 1);
        lemma_count_zero_no_match(names, t, m - 1);
    }
}

/// An embedded font face the book declares.
#[derive(Clone, Debug, PartialEq, Eq)]
pub struct EmbeddedFontFace {
    pub family: String,
    pub weight: u16,
    pub style: EmbeddedFontStyle,
    pub href: String,
    pub format: Option<String>,
}

/// Key under which two declared faces count as the same: family, weight,
/// CSS style and href joined by `|`.
pub open spec fn font_face_key(f: EmbeddedFontFace) -> Seq<char> {
    f.family@ + seq!['|'] + decimal(f.weight as nat) + seq!['|'] + embedded_style_css(f.style)
        + seq!['|'] + f.href@
}

/// Whether some face before index `i` has the key of face `i`.
pub open spec fn face_seen_before(faces: Seq<EmbeddedFontFace>, i: int) -> bool {
    exists|j: int| 0 <= j < i && font_face_key(#[trigger] faces[j]) == font_face_key(faces[i])
}

/// Indices, in order, of the faces among the first `n` whose key no earlier
/// face has.
pub open spec fn distinct_face_indices(faces: Seq<EmbeddedFontFace>, n: int) -> Seq<usize>
    decreases n,
{
    if n <= 0 {
        seq![]
    } else if face_seen_before(faces, n - 1) {
        distinct_face_indices(faces, n - 1)
    } else {
        distinct_face_indices(faces, n - 1).push((n - 1) as usize)
    }
}

fn push_chars(out: &mut Vec<char>, s: &str)
    ensures
        final(out)@ == old(out)@ + s@,
{
    let v = chars_of(s);
    let ghost start = out@;
    let mut i: usize = 0;
    while i < v.len()
        invariant
            i <= v.len(),
            out@ == start + v@.take(i as int),
        decreases v.len() - i,
    {
        out.push(v[i]);
        i += 1;
        assert(out@ =~= start + v@.take(i as int));
    }
    assert(v@.take(v.len() as int) =~= v@);
}

fn font_face_key_chars(f: &EmbeddedFontFace) -> (r: Vec<char>)
    ensures
        r@ == font_face_key(*f),
{
    let mut out = chars_of(f.family.as_str());
    out.push('|');
    push_decimal(&mut out, f.weight as usize);
    out.push('|');
    push_chars(&mut out, embedded_style_to_css(f.style));
    out.push('|');
    push_chars(&mut out, f.href.as_str());
    assert(out@ =~= font_face_key(*f));
    out
}

fn same_chars(a: &Vec<char>, b: &Vec<char>) -> (r: bool)
    ensures
        r == (a@ == b@),
{
    if a.len() != b.len() {
        return false;
    }
    let mut i: usize = 0;
    while i < a.len()
        invariant
            a.len() == b.len(),
            i <= a.len(),
            forall|j: int| 0 <= j < i ==> a@[j] == b@[j],
        decreases a.len() - i,
    {
        if a[i] != b[i] {
            return false;
        }
        i += 1;
    }
    assert(a@ =~= b@);
    true
}

/// Indices of the declared faces to load: each face whose family, weight,
/// style and href no earlier face shares, in declaration order.
pub fn distinct_font_faces(faces: &Vec<EmbeddedFontFace>) -> (r: Vec<usize>)
    ensures
        r@ == distinct_face_indices(faces@, faces@.len() as int),
{
    let mut seen: Vec<Vec<char>> = Vec::new();
    let mut out: Vec<usize> = Vec::new();
    let mut i: usize = 0;
    while i < faces.len()
        invariant
            i <= faces@.len(),
            seen@.len() == i,
            forall|j: int| 0 <= j < i ==> #[trigger] seen@[j]@ == font_face_key(faces@[j]),
            out@ == distinct_face_indices(faces@, i as int),
        decreases faces@.len() - i,
    {
        let key = font_face_key_chars(&faces[i]);
        let mut dup = false;
        let mut j: usize = 0;
        while j < seen.len()
            invariant
                i < faces@.len(),
                seen@.len() == i,
                j <= i,
                key@ == font_face_key(faces@[i as int]),
                forall|t: int| 0 <= t < i ==> #[trigger] seen@[t]@ == font_face_key(faces@[t]),
                dup == exists|t: int|
                    0 <= t < j && font_face_key(#[trigger] faces@[t]) == font_face_key(
                        faces@[i as int],
                    ),
            decreases i - j,
        {
            if same_chars(&seen[j], &key) {
                dup = true;
            }
            j += 1;
        }
        if !dup {
            out.push(i);
        }
        seen.push(key);
        i += 1;
    }
    out
}

/// Why a preview cannot be rendered.
#[derive(Clone, Copy, Debug, PartialEq, Eq)]
pub enum PreviewPlanError {
    /// The book has no chapters.
    NoChapters,
    /// The requested chapter does not exist.
    ChapterOutOfRange { chapter: usize, chapter_count: usize },
    /// The requested chapters and page window hold no page.
    NoPagesRendered,
}

/// Chapters a preview renders: the requested one, else all of them in
/// spine order.
pub fn chapters_to_render(chapter_count: usize, chapter: Option<usize>) -> (r: Result<
    Vec<usize>,
    PreviewPlanError,
>)
    ensures
        chapter_count == 0 ==> r == Err::<Vec<usize>, PreviewPlanError>(
            PreviewPlanError::NoChapters,
        ),
        chapter_count > 0 ==> match chapter {
            Some(c) => if c >= chapter_count {
                r == Err::<Vec<usize>, PreviewPlanError>(
                    PreviewPlanError::ChapterOutOfRange { chapter: c, chapter_count },
                )
            } else {
                r matches Ok(v) && v@ == seq![c]
            },
            None => r matches Ok(v) && v@.len() == chapter_count && forall|i: int|
                0 <= i < chapter_count ==> #[trigger] v@[i] == i,
        },
{
    if chapter_count == 0 {
        return Err(PreviewPlanError::NoChapters);
    }
    match chapter {
        Some(c) => {
            if c >= chapter_count {
                return Err(PreviewPlanError::ChapterOutOfRange { chapter: c, chapter_count });
            }
            let mut v: Vec<usize> = Vec::new();
            v.push(c);
            assert(v@ =~= seq![c]);
            Ok(v)
        },
        None => {
            let mut v: Vec<usize> = Vec::new();
            let mut i: usize = 0;
            while i < chapter_count
                invariant
                    i <= chapter_count,
                    v@.len() == i,
                    forall|j: int| 0 <= j < i ==> #[trigger] v@[j] == j,
                decreases chapter_count - i,
            {
                v.push(i);
                i += 1;
            }
            Ok(v)
        },
    }
}

/// Pages of a rendered chapter a preview keeps: from `start_page` (clamped
/// to the chapter) for at most `pages_per_chapter` pages, as a half-open
/// range of page indices.
pub fn chapter_page_window(rendered_pages: usize, start_page: usize, pages_per_chapter: Option<
    usize,
>) -> (r: (usize, usize))
    ensures
        r.0 == (if start_page < rendered_pages {
            start_page
        } else {
            rendered_pages
        }),
        r.1 == (match pages_per_chapter {
            Some(limit) => if r.0 + limit < rendered_pages {
                r.0 + limit
            } else {
                rendered_pages as int
            },
            None => rendered_pages as int,
        }),
        r.0 <= r.1 <= rendered_pages,
{
    let start = if start_page < rendered_pages {
        start_page
    } else {
        rendered_pages
    };
    let end = match pages_per_chapter {
        Some(limit) => if limit < rendered_pages - start {
            start + limit
        } else {
            rendered_pages
        },
        None => rendered_pages,
    };
    (start, end)
}

/// Where a chapter's pages start in the preview: when its page window
/// starts inside the `rendered_pages` pages it rendered, at global page
/// `pages_so_far` (the number of pages kept before it); otherwise the
/// chapter gets no first page.
pub fn chapter_first_global_page(window_start: usize, rendered_pages: usize, pages_so_far: usize) -> (r: Option<usize>)
    ensures
        r == (if window_start < rendered_pages {
            Some(pages_so_far)
        } else {
            None::<usize>
        }),
{
    if window_start < rendered_pages {
        Some(pages_so_far)
    } else {
        None
    }
}

/// A preview with no kept page fails; otherwise it goes on with its pages.
pub fn preview_pages_outcome(page_count: usize) -> (r: Result<usize, PreviewPlanError>)
    ensures
        page_count == 0 ==> r == Err::<usize, PreviewPlanError>(PreviewPlanError::NoPagesRendered),
        page_count > 0 ==> r == Ok::<usize, PreviewPlanError>(page_count),
{
    if page_count == 0 {
        Err(PreviewPlanError::NoPagesRendered)
    } else {
        Ok(page_count)
    }
}

proof fn lemma_find_absent(s: Seq<char>, c: char, i: int)
    requires
        0 <= i <= s.len(),
        forall|k: int| i <= k < s.len() ==> s[k] != c,
    ensures
        find_char_from(s, c, i) == s.len(),
    decreases s.len() - i,
{
    if i < s.len() {
        lemma_find_absent(s, c, i + 1);
    }
}

proof fn lemma_last_is(s: Seq<char>, c: char, m: int, j: int)
    requires
        0 <= m < j <= s.len(),
        s[m] == c,
        forall|k: int| m < k < j ==> s[k] != c,
    ensures
        last_index_of(s, c, j) == m,
    decreases j,
{
    if j - 1 > m {
        lemma_last_is(s, c, m, j - 1);
    }
}

/// The extension of `p.x`, for a path `p` and an extension `x` without `#`
/// or `?` (and `x` without `.`), is `x` lower-cased.
pub proof fn law_extension_after_last_dot(p: Seq<char>, x: Seq<char>)
    requires
        forall|k: int| 0 <= k < p.len() ==> p[k] != '#' && p[k] != '?',
        forall|k: int| 0 <= k < x.len() ==> x[k] != '#' && x[k] != '?' && x[k] != '.',
    ensures
        path_extension(p + seq!['.'] + x) == Some(lower_seq(x)),
{
    let s = p + seq!['.'] + x;
    assert forall|k: int| 0 <= k < s.len() implies s[k] != '#' && s[k] != '?' by {
        if k > p.len() {
            assert(s[k] == x[k - p.len() - 1]);
        }
    }
    lemma_find_absent(s, '#', 0);
    let a = s.take(find_char_from(s, '#', 0));
    assert(a =~= s);
    lemma_find_absent(a, '?', 0);
    let b = a.take(find_char_from(a, '?', 0));
    assert(b =~= s);
    assert forall|k: int| p.len() < k < b.len() implies b[k] != '.' by {
        assert(b[k] == x[k - p.len() - 1]);
    }
    lemma_last_is(b, '.', p.len() as int, b.len() as int);
    assert(b.skip(p.len() as int + 1) =~= x);
}

/// Images are typed by their (case-insensitive) extension: `png`, `jpg` or
/// `jpeg`, `gif`, `webp`, `bmp`, `svg` and `avif` give `image/png`,
/// `image/jpeg`, `image/gif`, `image/webp`, `image/bmp`, `image/svg+xml` and
/// `image/avif`; any other extension gives no image type.
pub proof fn law_image_mime_by_extension(p: Seq<char>, x: Seq<char>)
    requires
        forall|k: int| 0 <= k < p.len() ==> p[k] != '#' && p[k] != '?',
        forall|k: int| 0 <= k < x.len() ==> x[k] != '#' && x[k] != '?' && x[k] != '.',
    ensures
        ({
            let m = image_mime_for_path(p + seq!['.'] + x);
            let e = lower_seq(x);
            &&& e == "png"@ ==> m == Some("image/png"@)
            &&& e == "jpg"@ || e == "jpeg"@ ==> m == Some("image/jpeg"@)
            &&& e == "gif"@ ==> m == Some("image/gif"@)
            &&& e == "webp"@ ==> m == Some("image/webp"@)
            &&& e == "bmp"@ ==> m == Some("image/bmp"@)
            &&& e == "svg"@ ==> m == Some("image/svg+xml"@)
            &&& e == "avif"@ ==> m == Some("image/avif"@)
            &&& m is Some ==> e == "png"@ || e == "jpg"@ || e == "jpeg"@ || e == "gif"@ || e
                == "webp"@ || e == "bmp"@ || e == "svg"@ || e == "avif"@
        }),
{
    law_extension_after_last_dot(p, x);
    reveal_strlit("png");
    reveal_strlit("jpg");
    reveal_strlit("jpeg");
    reveal_strlit("gif");
    reveal_strlit("webp");
    reveal_strlit("bmp");
    reveal_strlit("svg");
    reveal_strlit("avif");
    reveal_strlit("image/png");
    reveal_strlit("image/jpeg");
    reveal_strlit("image/gif");
    reveal_strlit("image/webp");
    reveal_strlit("image/bmp");
    reveal_strlit("image/svg+xml");
    reveal_strlit("image/avif");
    assert("png"@ != "jpg"@) by { assert("png"@[0] != "jpg"@[0]); }
    assert("png"@ != "jpeg"@) by { assert("png"@.len() != "jpeg"@.len()); }
    assert("png"@ != "gif"@) by { assert("png"@[0] != "gif"@[0]); }
    assert("png"@ != "webp"@) by { assert("png"@.len() != "webp"@.len()); }
    assert("png"@ != "bmp"@) by { assert("png"@[0] != "bmp"@[0]); }
    assert("png"@ != "svg"@) by { assert("png"@[0] != "svg"@[0]); }
    assert("png"@ != "avif"@) by { assert("png"@.len() != "avif"@.len()); }
    assert("jpg"@ != "jpeg"@) by { assert("jpg"@.len() != "jpeg"@.len()); }
    assert("jpg"@ != "gif"@) by { assert("jpg"@[0] != "gif"@[0]); }
    assert("jpg"@ != "webp"@) by { assert("jpg"@.len() != "webp"@.len()); }
    assert("jpg"@ != "bmp"@) by { assert("jpg"@[0] != "bmp"@[0]); }
    assert("jpg"@ != "svg"@) by { assert("jpg"@[0] != "svg"@[0]); }
    assert("jpg"@ != "avif"@) by { assert("jpg"@.len() != "avif"@.len()); }
    assert("jpeg"@ != "gif"@) by { assert("jpeg"@.len() != "gif"@.len()); }
    assert("jpeg"@ != "webp"@) by { assert("jpeg"@[0] != "webp"@[0]); }
    assert("jpeg"@ != "bmp"@) by { assert("jpeg"@.len() != "bmp"@.len()); }
    assert("jpeg"@ != "svg"@) by { assert("jpeg"@.len() != "svg"@.len()); }
    assert("jpeg"@ != "avif"@) by { assert("jpeg"@[0] != "avif"@[0]); }
    assert("gif"@ != "webp"@) by { assert("gif"@.len() != "webp"@.len()); }
    assert("gif"@ != "bmp"@) by { assert("gif"@[0] != "bmp"@[0]); }
    assert("gif"@ != "svg"@) by { assert("gif"@[0] != "svg"@[0]); }
    assert("gif"@ != "avif"@) by { assert("gif"@.len() != "avif"@.len()); }
    assert("webp"@ != "bmp"@) by { assert("webp"@.len() != "bmp"@.len()); }
    assert("webp"@ != "svg"@) by { assert("webp"@.len() != "svg"@.len()); }
    assert("webp"@ != "avif"@) by { assert("webp"@[0] != "avif"@[0]); }
    assert("bmp"@ != "svg"@) by { assert("bmp"@[0] != "svg"@[0]); }
    assert("bmp"@ != "avif"@) by { assert("bmp"@.len() != "avif"@.len()); }
    assert("svg"@ != "avif"@) by { assert("svg"@.len() != "avif"@.len()); }
}

/// `ignore` names the ignoring soft-hyphen policy; every other key the
/// discretionary one.
pub proof fn law_soft_hyphen_policy_keywords(key: Seq<char>)
    ensures
        key == "ignore"@ ==> soft_hyphen_policy_for(key) == SoftHyphenPolicy::Ignore,
        key != "ignore"@ ==> soft_hyphen_policy_for(key) == SoftHyphenPolicy::Discretionary,
{
    reveal_strlit("ignore");

}

/// `ignore` names the ignoring hyphenation mode; every other key the
/// discretionary one.
pub proof fn law_hyphenation_mode_keywords(key: Seq<char>)
    ensures
        key == "ignore"@ ==> hyphenation_mode_for(key) == HyphenationMode::Ignore,
        key != "ignore"@ ==> hyphenation_mode_for(key) == HyphenationMode::Discretionary,
{
    reveal_strlit("ignore");

}

/// `full-bleed` (or `full_bleed`, `fullbleed`) names full bleed;
/// `respect-css` (or `respect_css`, `respectcss`, `css`) respects the CSS;
/// every other key contains.
pub proof fn law_cover_page_mode_keywords(key: Seq<char>)
    ensures
        key == "full-bleed"@ || key == "full_bleed"@ || key == "fullbleed"@ ==> cover_page_mode_for(key) == CoverPageMode::FullBleed,
        key == "respect-css"@ || key == "respect_css"@ || key == "respectcss"@ || key == "css"@ ==> cover_page_mode_for(key) == CoverPageMode::RespectCss,
        key != "full-bleed"@ && key != "full_bleed"@ && key != "fullbleed"@ && key != "respect-css"@ && key != "respect_css"@ && key != "respectcss"@ && key != "css"@ ==> cover_page_mode_for(key) == CoverPageMode::Contain,
{
    reveal_strlit("full-bleed");
    reveal_strlit("full_bleed");
    reveal_strlit("fullbleed");
    reveal_strlit("respect-css");
    reveal_strlit("respect_css");
    reveal_strlit("respectcss");
    reveal_strlit("css");
    assert("full-bleed"@ != "full_bleed"@) by { assert("full-bleed"@[4] != "full_bleed"@[4]); }
    assert("full-bleed"@ != "fullbleed"@) by { assert("full-bleed"@.len() != "fullbleed"@.len()); }
    assert("full-bleed"@ != "respect-css"@) by { assert("full-bleed"@.len() != "respect-css"@.len()); }
    assert("full-bleed"@ != "respect_css"@) by { assert("full-bleed"@.len() != "respect_css"@.len()); }
    assert("full-bleed"@ != "respectcss"@) by { assert("full-bleed"@[0] != "respectcss"@[0]); }
    assert("full-bleed"@ != "css"@) by { assert("full-bleed"@.len() != "css"@.len()); }
    assert("full_bleed"@ != "fullbleed"@) by { assert("full_bleed"@.len() != "fullbleed"@.len()); }
    assert("full_bleed"@ != "respect-css"@) by { assert("full_bleed"@.len() != "respect-css"@.len()); }
    assert("full_bleed"@ != "respect_css"@) by { assert("full_bleed"@.len() != "respect_css"@.len()); }
    assert("full_bleed"@ != "respectcss"@) by { assert("full_bleed"@[0] != "respectcss"@[0]); }
    assert("full_bleed"@ != "css"@) by { assert("full_bleed"@.len() != "css"@.len()); }
    assert("fullbleed"@ != "respect-css"@) by { assert("fullbleed"@.len() != "respect-css"@.len()); }
    assert("fullbleed"@ != "respect_css"@) by { assert("fullbleed"@.len() != "respect_css"@.len()); }
    assert("fullbleed"@ != "respectcss"@) by { assert("fullbleed"@.len() != "respectcss"@.len()); }
    assert("fullbleed"@ != "css"@) by { assert("fullbleed"@.len() != "css"@.len()); }
    assert("respect-css"@ != "respect_css"@) by { assert("respect-css"@[7] != "respect_css"@[7]); }
    assert("respect-css"@ != "respectcss"@) by { assert("respect-css"@.len() != "respectcss"@.len()); }
    assert("respect-css"@ != "css"@) by { assert("respect-css"@.len() != "css"@.len()); }
    assert("respect_css"@ != "respectcss"@) by { assert("respect_css"@.len() != "respectcss"@.len()); }
    assert("respect_css"@ != "css"@) by { assert("respect_css"@.len() != "css"@.len()); }
    assert("respectcss"@ != "css"@) by { assert("respectcss"@.len() != "css"@.len()); }
}

/// `basic` names basic float support; every other key none.
pub proof fn law_float_support_keywords(key: Seq<char>)
    ensures
        key == "basic"@ ==> float_support_for(key) == FloatSupport::Basic,
        key != "basic"@ ==> float_support_for(key) == FloatSupport::NoFloats,
{
    reveal_strlit("basic");

}

/// `ignore` and `native` name those SVG modes; every other key rasterises
/// with a fallback.
pub proof fn law_svg_mode_keywords(key: Seq<char>)
    ensures
        key == "ignore"@ ==> svg_mode_for(key) == SvgMode::Ignore,
        key == "native"@ ==> svg_mode_for(key) == SvgMode::Native,
        key != "ignore"@ && key != "native"@ ==> svg_mode_for(key) == SvgMode::RasterizeFallback,
{
    reveal_strlit("ignore");
    reveal_strlit("native");
    assert("ignore"@ != "native"@) by { assert("ignore"@[0] != "native"@[0]); }
}

/// `luminosity` names luminosity grayscale; every other key turns it off.
pub proof fn law_grayscale_mode_keywords(key: Seq<char>)
    ensures
        key == "luminosity"@ ==> grayscale_mode_for(key) == GrayscaleMode::Luminosity,
        key != "luminosity"@ ==> grayscale_mode_for(key) == GrayscaleMode::Off,
{
    reveal_strlit("luminosity");

}

/// `ordered` and `error-diffusion` name those dither modes; every other key
/// disables dithering.
pub proof fn law_dither_mode_keywords(key: Seq<char>)
    ensures
        key == "ordered"@ ==> dither_mode_for(key) == DitherMode::Ordered,
        key == "error-diffusion"@ ==> dither_mode_for(key) == DitherMode::ErrorDiffusion,
        key != "ordered"@ && key != "error-diffusion"@ ==> dither_mode_for(key) == DitherMode::NoDither,
{
    reveal_strlit("ordered");
    reveal_strlit("error-diffusion");
    assert("ordered"@ != "error-diffusion"@) by { assert("ordered"@.len() != "error-diffusion"@.len()); }
}

/// `bold`, `italic` and `bold-italic` name those chrome text styles; every
/// other key is regular.
pub proof fn law_chrome_text_style_keywords(key: Seq<char>)
    ensures
        key == "bold"@ ==> chrome_text_style_for(key) == PageChromeTextStyle::Bold,
        key == "italic"@ ==> chrome_text_style_for(key) == PageChromeTextStyle::Italic,
        key == "bold-italic"@ ==> chrome_text_style_for(key) == PageChromeTextStyle::BoldItalic,
        key != "bold"@ && key != "italic"@ && key != "bold-italic"@ ==> chrome_text_style_for(key) == PageChromeTextStyle::Regular,
{
    reveal_strlit("bold");
    reveal_strlit("italic");
    reveal_strlit("bold-italic");
    assert("bold"@ != "italic"@) by { assert("bold"@.len() != "italic"@.len()); }
    assert("bold"@ != "bold-italic"@) by { assert("bold"@.len() != "bold-italic"@.len()); }
    assert("italic"@ != "bold-italic"@) by { assert("italic"@.len() != "bold-italic"@.len()); }
}

/// `full-inter-word`/`full`, `align-left`/`left`, `align-right`/`right` and
/// `align-center`/`center`/`centre` name those strategies; every other key
/// is adaptive inter-word.
pub proof fn law_justification_strategy_keywords(key: Seq<char>)
    ensures
        key == "full-inter-word"@ || key == "full"@ ==> justification_strategy_for(key) == JustificationStrategy::FullInterWord,
        key == "align-left"@ || key == "left"@ ==> justification_strategy_for(key) == JustificationStrategy::AlignLeft,
        key == "align-right"@ || key == "right"@ ==> justification_strategy_for(key) == JustificationStrategy::AlignRight,
        key == "align-center"@ || key == "center"@ || key == "centre"@ ==> justification_strategy_for(key) == JustificationStrategy::AlignCenter,
        key != "full-inter-word"@ && key != "full"@ && key != "align-left"@ && key != "left"@ && key != "align-right"@ && key != "right"@ && key != "align-center"@ && key != "center"@ && key != "centre"@ ==> justification_strategy_for(key) == JustificationStrategy::AdaptiveInterWord,
{
    reveal_strlit("full-inter-word");
    reveal_strlit("full");
    reveal_strlit("align-left");
    reveal_strlit("left");
    reveal_strlit("align-right");
    reveal_strlit("right");
    reveal_strlit("align-center");
    reveal_strlit("center");
    reveal_strlit("centre");
    assert("full-inter-word"@ != "full"@) by { assert("full-inter-word"@.len() != "full"@.len()); }
    assert("full-inter-word"@ != "align-left"@) by { assert("full-inter-word"@.len() != "align-left"@.len()); }
    assert("full-inter-word"@ != "left"@) by { assert("full-inter-word"@.len() != "left"@.len()); }
    assert("full-inter-word"@ != "align-right"@) by { assert("full-inter-word"@.len() != "align-right"@.len()); }
    assert("full-inter-word"@ != "right"@) by { assert("full-inter-word"@.len() != "right"@.len()); }
    assert("full-inter-word"@ != "align-center"@) by { assert("full-inter-word"@.len() != "align-center"@.len()); }
    assert("full-inter-word"@ != "center"@) by { assert("full-inter-word"@.len() != "center"@.len()); }
    assert("full-inter-word"@ != "centre"@) by { assert("full-inter-word"@.len() != "centre"@.len()); }
    assert("full"@ != "align-left"@) by { assert("full"@.len() != "align-left"@.len()); }
    assert("full"@ != "left"@) by { assert("full"@[0] != "left"@[0]); }
    assert("full"@ != "align-right"@) by { assert("full"@.len() != "align-right"@.len()); }
    assert("full"@ != "right"@) by { assert("full"@.len() != "right"@.len()); }
    assert("full"@ != "align-center"@) by { assert("full"@.len() != "align-center"@.len()); }
    assert("full"@ != "center"@) by { assert("full"@.len() != "center"@.len()); }
    assert("full"@ != "centre"@) by { assert("full"@.len() != "centre"@.len()); }
    assert("align-left"@ != "left"@) by { assert("align-left"@.len() != "left"@.len()); }
    assert("align-left"@ != "align-right"@) by { assert("align-left"@.len() != "align-right"@.len()); }
    assert("align-left"@ != "right"@) by { assert("align-left"@.len() != "right"@.len()); }
    assert("align-left"@ != "align-center"@) by { assert("align-left"@.len() != "align-center"@.len()); }
    assert("align-left"@ != "center"@) by { assert("align-left"@.len() != "center"@.len()); }
    assert("align-left"@ != "centre"@) by { assert("align-left"@.len() != "centre"@.len()); }
    assert("left"@ != "align-right"@) by { assert("left"@.len() != "align-right"@.len()); }
    assert("left"@ != "right"@) by { assert("left"@.len() != "right"@.len()); }
    assert("left"@ != "align-center"@) by { assert("left"@.len() != "align-center"@.len()); }
    assert("left"@ != "center"@) by { assert("left"@.len() != "center"@.len()); }
    assert("left"@ != "centre"@) by { assert("left"@.len() != "centre"@.len()); }
    assert("align-right"@ != "right"@) by { assert("align-right"@.len() != "right"@.len()); }
    assert("align-right"@ != "align-center"@) by { assert("align-right"@.len() != "align-center"@.len()); }
    assert("align-right"@ != "center"@) by { assert("align-right"@.len() != "center"@.len()); }
    assert("align-right"@ != "centre"@) by { assert("align-right"@.len() != "centre"@.len()); }
    assert("right"@ != "align-center"@) by { assert("right"@.len() != "align-center"@.len()); }
    assert("right"@ != "center"@) by { assert("right"@.len() != "center"@.len()); }
    assert("right"@ != "centre"@) by { assert("right"@.len() != "centre"@.len()); }
    assert("align-center"@ != "center"@) by { assert("align-center"@.len() != "center"@.len()); }
    assert("align-center"@ != "centre"@) by { assert("align-center"@.len() != "centre"@.len()); }
    assert("center"@ != "centre"@) by { assert("center"@[4] != "centre"@[4]); }
}

/// Font extensions `ttf`, `otf`, `woff` and `woff2` have the `@font-face`
/// formats `truetype`, `opentype`, `woff` and `woff2`; any other extension
/// has none.
pub proof fn law_font_format_extensions(key: Seq<char>)
    ensures
        key == "ttf"@ ==> font_format_for_ext(key) == Some("truetype"@),
        key == "otf"@ ==> font_format_for_ext(key) == Some("opentype"@),
        key == "woff"@ ==> font_format_for_ext(key) == Some("woff"@),
        key == "woff2"@ ==> font_format_for_ext(key) == Some("woff2"@),
        key != "ttf"@ && key != "otf"@ && key != "woff"@ && key != "woff2"@ ==> font_format_for_ext(key) == None::<Seq<char>>,
{
    reveal_strlit("ttf");
    reveal_strlit("otf");
    reveal_strlit("woff");
    reveal_strlit("woff2");
    assert("ttf"@ != "otf"@) by { assert("ttf"@[0] != "otf"@[0]); }
    assert("ttf"@ != "woff"@) by { assert("ttf"@.len() != "woff"@.len()); }
    assert("ttf"@ != "woff2"@) by { assert("ttf"@.len() != "woff2"@.len()); }
    assert("otf"@ != "woff"@) by { assert("otf"@.len() != "woff"@.len()); }
    assert("otf"@ != "woff2"@) by { assert("otf"@.len() != "woff2"@.len()); }
    assert("woff"@ != "woff2"@) by { assert("woff"@.len() != "woff2"@.len()); }
}

/// Font extensions `woff2`, `woff`, `otf` and `ttf` have the media types
/// `font/woff2`, `font/woff`, `font/otf` and `font/ttf`; any other extension
/// has none.
pub proof fn law_font_mime_extensions(key: Seq<char>)
    ensures
        key == "woff2"@ ==> font_mime_for_ext(key) == Some("font/woff2"@),
        key == "woff"@ ==> font_mime_for_ext(key) == Some("font/woff"@),
        key == "otf"@ ==> font_mime_for_ext(key) == Some("font/otf"@),
        key == "ttf"@ ==> font_mime_for_ext(key) == Some("font/ttf"@),
        key != "woff2"@ && key != "woff"@ && key != "otf"@ && key != "ttf"@ ==> font_mime_for_ext(key) == None::<Seq<char>>,
{
    reveal_strlit("woff2");
    reveal_strlit("woff");
    reveal_strlit("otf");
    reveal_strlit("ttf");
    assert("woff2"@ != "woff"@) by { assert("woff2"@.len() != "woff"@.len()); }
    assert("woff2"@ != "otf"@) by { assert("woff2"@.len() != "otf"@.len()); }
    assert("woff2"@ != "ttf"@) by { assert("woff2"@.len() != "ttf"@.len()); }
    assert("woff"@ != "otf"@) by { assert("woff"@.len() != "otf"@.len()); }
    assert("woff"@ != "ttf"@) by { assert("woff"@.len() != "ttf"@.len()); }
    assert("otf"@ != "ttf"@) by { assert("otf"@[0] != "ttf"@[0]); }
}

/// Image extensions `png`, `jpg`/`jpeg`, `gif`, `webp`, `bmp`, `svg` and
/// `avif` have their image media types; any other extension has none.
pub proof fn law_image_mime_extensions(key: Seq<char>)
    ensures
        key == "png"@ ==> image_mime_for_ext(key) == Some("image/png"@),
        key == "jpg"@ || key == "jpeg"@ ==> image_mime_for_ext(key) == Some("image/jpeg"@),
        key == "gif"@ ==> image_mime_for_ext(key) == Some("image/gif"@),
        key == "webp"@ ==> image_mime_for_ext(key) == Some("image/webp"@),
        key == "bmp"@ ==> image_mime_for_ext(key) == Some("image/bmp"@),
        key == "svg"@ ==> image_mime_for_ext(key) == Some("image/svg+xml"@),
        key == "avif"@ ==> image_mime_for_ext(key) == Some("image/avif"@),
        key != "png"@ && key != "jpg"@ && key != "jpeg"@ && key != "gif"@ && key != "webp"@ && key != "bmp"@ && key != "svg"@ && key != "avif"@ ==> image_mime_for_ext(key) == None::<Seq<char>>,
{
    reveal_strlit("png");
    reveal_strlit("jpg");
    reveal_strlit("jpeg");
    reveal_strlit("gif");
    reveal_strlit("webp");
    reveal_strlit("bmp");
    reveal_strlit("svg");
    reveal_strlit("avif");
    assert("png"@ != "jpg"@) by { assert("png"@[0] != "jpg"@[0]); }
    assert("png"@ != "jpeg"@) by { assert("png"@.len() != "jpeg"@.len()); }
    assert("png"@ != "gif"@) by { assert("png"@[0] != "gif"@[0]); }
    assert("png"@ != "webp"@) by { assert("png"@.len() != "webp"@.len()); }
    assert("png"@ != "bmp"@) by { assert("png"@[0] != "bmp"@[0]); }
    assert("png"@ != "svg"@) by { assert("png"@[0] != "svg"@[0]); }
    assert("png"@ != "avif"@) by { assert("png"@.len() != "avif"@.len()); }
    assert("jpg"@ != "jpeg"@) by { assert("jpg"@.len() != "jpeg"@.len()); }
    assert("jpg"@ != "gif"@) by { assert("jpg"@[0] != "gif"@[0]); }
    assert("jpg"@ != "webp"@) by { assert("jpg"@.len() != "webp"@.len()); }
    assert("jpg"@ != "bmp"@) by { assert("jpg"@[0] != "bmp"@[0]); }
    assert("jpg"@ != "svg"@) by { assert("jpg"@[0] != "svg"@[0]); }
    assert("jpg"@ != "avif"@) by { assert("jpg"@.len() != "avif"@.len()); }
    assert("jpeg"@ != "gif"@) by { assert("jpeg"@.len() != "gif"@.len()); }
    assert("jpeg"@ != "webp"@) by { assert("jpeg"@[0] != "webp"@[0]); }
    assert("jpeg"@ != "bmp"@) by { assert("jpeg"@.len() != "bmp"@.len()); }
    assert("jpeg"@ != "svg"@) by { assert("jpeg"@.len() != "svg"@.len()); }
    assert("jpeg"@ != "avif"@) by { assert("jpeg"@[0] != "avif"@[0]); }
    assert("gif"@ != "webp"@) by { assert("gif"@.len() != "webp"@.len()); }
    assert("gif"@ != "bmp"@) by { assert("gif"@[0] != "bmp"@[0]); }
    assert("gif"@ != "svg"@) by { assert("gif"@[0] != "svg"@[0]); }
    assert("gif"@ != "avif"@) by { assert("gif"@.len() != "avif"@.len()); }
    assert("webp"@ != "bmp"@) by { assert("webp"@.len() != "bmp"@.len()); }
    assert("webp"@ != "svg"@) by { assert("webp"@.len() != "svg"@.len()); }
    assert("webp"@ != "avif"@) by { assert("webp"@[0] != "avif"@[0]); }
    assert("bmp"@ != "svg"@) by { assert("bmp"@[0] != "svg"@[0]); }
    assert("bmp"@ != "avif"@) by { assert("bmp"@.len() != "avif"@.len()); }
    assert("svg"@ != "avif"@) by { assert("svg"@.len() != "avif"@.len()); }
}

/// The names sent to the front end: chrome kinds `header`, `footer`,
/// `progress`; block roles `body`, `paragraph`, `heading-N`, `list-item`,
/// `figure-caption`, `preformatted`; canonical keywords of cover-page modes
/// and justification strategies; CSS styles of embedded faces.
pub proof fn law_payload_names(level: u8)
    ensures
        page_chrome_kind_name(PageChromeKind::Header) == "header"@,
        page_chrome_kind_name(PageChromeKind::Footer) == "footer"@,
        page_chrome_kind_name(PageChromeKind::Progress) == "progress"@,
        block_role_name(BlockRole::Body) == "body"@,
        block_role_name(BlockRole::Paragraph) == "paragraph"@,
        block_role_name(BlockRole::Heading(level)) == "heading-"@ + decimal(level as nat),
        block_role_name(BlockRole::ListItem) == "list-item"@,
        block_role_name(BlockRole::FigureCaption) == "figure-caption"@,
        block_role_name(BlockRole::Preformatted) == "preformatted"@,
        cover_page_mode_name(CoverPageMode::Contain) == "contain"@,
        cover_page_mode_name(CoverPageMode::FullBleed) == "full-bleed"@,
        cover_page_mode_name(CoverPageMode::RespectCss) == "respect-css"@,
        justification_strategy_name(JustificationStrategy::AdaptiveInterWord) == "adaptive-inter-word"@,
        justification_strategy_name(JustificationStrategy::FullInterWord) == "full-inter-word"@,
        justification_strategy_name(JustificationStrategy::AlignLeft) == "align-left"@,
        justification_strategy_name(JustificationStrategy::AlignRight) == "align-right"@,
        justification_strategy_name(JustificationStrategy::AlignCenter) == "align-center"@,
        embedded_style_css(EmbeddedFontStyle::Normal) == "normal"@,
        embedded_style_css(EmbeddedFontStyle::Italic) == "italic"@,
        embedded_style_css(EmbeddedFontStyle::Oblique) == "oblique"@,
{
}

/// The base64 alphabet, by character code: `A`-`Z` for 0-25, `a`-`z` for
/// 26-51, `0`-`9` for 52-61, `+` for 62 and `/` for 63.
pub proof fn law_base64_alphabet(v: int)
    requires
        0 <= v < 64,
    ensures
        v < 26 ==> b64_digit(v) as int == 65 + v,
        26 <= v < 52 ==> b64_digit(v) as int == 97 + v - 26,
        52 <= v < 62 ==> b64_digit(v) as int == 48 + v - 52,
        v == 62 ==> b64_digit(v) as int == 43,
        v == 63 ==> b64_digit(v) as int == 47,
{
}

} // verus!
