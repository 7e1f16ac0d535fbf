use vstd::prelude::*;

use crate::engine::{decimal, push_decimal};
use crate::text::{str_eq, string_from_chars};
use vstd::bytes::{spec_u64_to_le_bytes, u64_to_le_bytes};
use vstd::std_specs::cmp::PartialEqSpecImpl;
use vstd::std_specs::convert::FromSpecImpl;

verus! {

/// Structured page annotation kind.
#[derive(Clone, Debug, PartialEq, Eq, Hash)]
pub enum PageAnnotationKind {
    /// Generic note/marker annotation.
    Note,
    /// Inline image source annotation emitted by layout.
    InlineImageSrc,
    /// Forward-compatible fallback for unknown/legacy string tags.
    Unknown(String),
}

/// Tag of the `Note` kind.
pub open spec fn note_tag() -> Seq<char> {
    seq!['n', 'o', 't', 'e']
}

/// Tag of the `InlineImageSrc` kind.
pub open spec fn inline_image_src_tag() -> Seq<char> {
    seq!['i', 'n', 'l', 'i', 'n', 'e', '_', 'i', 'm', 'a', 'g', 'e', '_', 's', 'r', 'c']
}

impl PageAnnotationKind {
    /// Canonical string form of the kind.
    pub open spec fn tag(&self) -> Seq<char> {
        match self {
            PageAnnotationKind::Note => note_tag(),
            PageAnnotationKind::InlineImageSrc => inline_image_src_tag(),
            PageAnnotationKind::Unknown(value) => value@,
        }
    }

    /// Kind that a tag string decodes to: the two known tags map to their
    /// variants, any other string is kept as `Unknown`.
    pub open spec fn decodes_to(&self, value: Seq<char>) -> bool {
        if value == note_tag() {
            *self is Note
        } else if value == inline_image_src_tag() {
            *self is InlineImageSrc
        } else {
            *self is Unknown && self.tag() == value
        }
    }

    /// A kind is canonical when decoding its tag gives it back
    /// (an `Unknown` does not carry one of the known tags).
    pub open spec fn is_canonical(&self) -> bool {
        self.decodes_to(self.tag())
    }

    /// Canonical string form used by persisted payloads and compatibility paths.
    pub fn as_str(&self) -> (r: &str)
        ensures
            r@ == self.tag(),
    {
        match self {
            PageAnnotationKind::Note => {
                let s = "note";
                proof {
                    reveal_strlit("note");
                    assert(s@ =~= note_tag());
                }
                s
            },
            PageAnnotationKind::InlineImageSrc => {
                let s = "inline_image_src";
                proof {
                    reveal_strlit("inline_image_src");
                    assert(s@ =~= inline_image_src_tag());
                }
                s
            },
            PageAnnotationKind::Unknown(value) => value.as_str(),
        }
    }

    /// Decode a tag string.
    pub fn from_tag(value: &str) -> (k: Self)
        ensures
            k.decodes_to(value@),
    {
        proof {
            reveal_strlit("note");
            reveal_strlit("inline_image_src");
            assert("note"@ =~= note_tag());
            assert("inline_image_src"@ =~= inline_image_src_tag());
        }
        if str_eq(value, "note") {
            PageAnnotationKind::Note
        } else if str_eq(value, "inline_image_src") {
            PageAnnotationKind::InlineImageSrc
        } else {
            PageAnnotationKind::Unknown(value.to_owned())
        }
    }

    /// Owned canonical string form.
    pub fn to_string(&self) -> (r: String)
        ensures
            r@ == self.tag(),
    {
        self.as_str().to_owned()
    }
}

impl From<&str> for PageAnnotationKind {
    fn from(value: &str) -> (k: Self)
        ensures
            k.decodes_to(value@),
    {
        PageAnnotationKind::from_tag(value)
    }
}

impl FromSpecImpl<&str> for PageAnnotationKind {
    open spec fn obeys_from_spec() -> bool {
        false
    }

    open spec fn from_spec(v: &str) -> Self {
        arbitrary()
    }
}

impl From<String> for PageAnnotationKind {
    fn from(value: String) -> (k: Self)
        ensures
            k.decodes_to(value@),
    {
        PageAnnotationKind::from_tag(value.as_str())
    }
}

impl FromSpecImpl<String> for PageAnnotationKind {
    open spec fn obeys_from_spec() -> bool {
        false
    }

    open spec fn from_spec(v: String) -> Self {
        arbitrary()
    }
}

impl From<PageAnnotationKind> for String {
    fn from(value: PageAnnotationKind) -> (s: String)
        ensures
            s@ == value.tag(),
    {
        value.to_string()
    }
}

impl FromSpecImpl<PageAnnotationKind> for String {
    open spec fn obeys_from_spec() -> bool {
        false
    }

    open spec fn from_spec(v: PageAnnotationKind) -> String {
        arbitrary()
    }
}

impl From<&PageAnnotationKind> for String {
    fn from(value: &PageAnnotationKind) -> (s: String)
        ensures
            s@ == value.tag(),
    {
        value.to_string()
    }
}

impl FromSpecImpl<&PageAnnotationKind> for String {
    open spec fn obeys_from_spec() -> bool {
        false
    }

    open spec fn from_spec(v: &PageAnnotationKind) -> String {
        arbitrary()
    }
}

impl PartialEq<&str> for PageAnnotationKind {
    fn eq(&self, other: &&str) -> (r: bool) {
        str_eq(self.as_str(), *other)
    }
}

impl PartialEqSpecImpl<&str> for PageAnnotationKind {
    open spec fn obeys_eq_spec() -> bool {
        true
    }

    open spec fn eq_spec(&self, other: &&str) -> bool {
        self.tag() == (*other)@
    }
}

/// Decoding a tag and reading the kind's tag back gives the same string.
pub proof fn law_annotation_tag_roundtrip(k: PageAnnotationKind, value: Seq<char>)
    requires
        k.decodes_to(value),
    ensures
        k.tag() == value,
        k.is_canonical(),
{
}

/// Structured page annotation.
#[derive(Clone, Debug, PartialEq, Eq)]
pub struct PageAnnotation {
    /// Stable annotation kind/tag.
    pub kind: PageAnnotationKind,
    /// Optional annotation payload.
    pub value: Option<String>,
}

/// FNV-1a 64-bit prime.
pub const FNV64_PRIME: u64 = 0x100000001b3;

/// FNV-1a style 64-bit hash of `bytes` from `seed`.
pub open spec fn fnv64(seed: u64, bytes: Seq<u8>) -> u64
    decreases bytes.len(),
{
    if bytes.len() == 0 {
        seed
    } else {
        vstd::wrapping::u64_specs::wrapping_mul(
            fnv64(seed, bytes.drop_last()) ^ (bytes.last() as u64),
            FNV64_PRIME,
        )
    }
}

fn fnv64_exec(seed: u64, payload: &[u8]) -> (h: u64)
    ensures
        h == fnv64(seed, payload@),
{
    let mut hash = seed;
    let mut i: usize = 0;
    while i < payload.len()
        invariant
            i <= payload.len(),
            hash == fnv64(seed, payload@.take(i as int)),
        decreases payload.len() - i,
    {
        proof {
            assert(payload@.take(i + 1).drop_last() =~= payload@.take(i as int));
        }
        hash ^= payload[i] as u64;
        hash = hash.wrapping_mul(FNV64_PRIME);
        i += 1;
    }
    assert(payload@.take(payload.len() as int) =~= payload@);
    hash
}

/// Seeds of the four hash lanes of a profile id.
pub open spec fn profile_seeds() -> Seq<u64> {
    seq![0xcbf29ce484222325u64, 0x9e3779b97f4a7c15u64, 0xd6e8feb86659fd93u64, 0xa0761d6478bd642fu64]
}

/// Bytes of the profile id of `payload`: four little-endian FNV lanes.
pub open spec fn profile_id_bytes(payload: Seq<u8>) -> Seq<u8> {
    spec_u64_to_le_bytes(fnv64(profile_seeds()[0], payload)) + spec_u64_to_le_bytes(
        fnv64(profile_seeds()[1], payload),
    ) + spec_u64_to_le_bytes(fnv64(profile_seeds()[2], payload)) + spec_u64_to_le_bytes(
        fnv64(profile_seeds()[3], payload),
    )
}

/// Stable pagination profile id.
#[derive(Clone, Copy, Debug, PartialEq, Eq, Hash)]
pub struct PaginationProfileId(pub [u8; 32]);

impl PaginationProfileId {
    /// Build a deterministic profile id from arbitrary payload bytes.
    pub fn from_bytes(bytes: &[u8]) -> (id: Self)
        ensures
            id.0@ == profile_id_bytes(bytes@),
    {
        let h0 = u64_to_le_bytes(fnv64_exec(0xcbf29ce484222325u64, bytes));
        let h1 = u64_to_le_bytes(fnv64_exec(0x9e3779b97f4a7c15u64, bytes));
        let h2 = u64_to_le_bytes(fnv64_exec(0xd6e8feb86659fd93u64, bytes));
        let h3 = u64_to_le_bytes(fnv64_exec(0xa0761d6478bd642fu64, bytes));
        proof {
            vstd::bytes::lemma_auto_spec_u64_to_from_le_bytes();
        }
        let mut out = [0u8; 32];
        let mut i: usize = 0;
        while i < 8
            invariant
                0 <= i <= 8,
                h0@.len() == 8 && h1@.len() == 8 && h2@.len() == 8 && h3@.len() == 8,
                forall|j: int|
                    0 <= j < i ==> {
                        &&& out@[j] == h0@[j]
                        &&& out@[8 + j] == h1@[j]
                        &&& out@[16 + j] == h2@[j]
                        &&& out@[24 + j] == h3@[j]
                    },
            decreases 8 - i,
        {
            out.set(i, h0[i]);
            out.set(8 + i, h1[i]);
            out.set(16 + i, h2[i]);
            out.set(24 + i, h3[i]);
            i += 1;
        }
        assert(out@ =~= profile_id_bytes(bytes@));
        PaginationProfileId(out)
    }
}

/// Logical overlay slots for app/UI composition.
#[derive(Clone, Debug, PartialEq)]
pub enum OverlaySlot {
    TopLeft,
    TopCenter,
    TopRight,
    BottomLeft,
    BottomCenter,
    BottomRight,
    Custom(OverlayRect),
}

/// Logical viewport size for overlay composition.
#[derive(Clone, Copy, Debug, Default, PartialEq, Eq)]
pub struct OverlaySize {
    pub width: u32,
    pub height: u32,
}

/// Rectangle for custom overlay slot coordinates.
#[derive(Clone, Copy, Debug, Default, PartialEq, Eq)]
pub struct OverlayRect {
    pub x: i32,
    pub y: i32,
    pub width: u32,
    pub height: u32,
}

/// Theme-aware render intent.
#[derive(Clone, Copy, Debug, PartialEq, Eq)]
pub struct RenderIntent {
    /// Convert output to grayscale mode.
    pub grayscale_mode: GrayscaleMode,
    /// Optional dithering algorithm.
    pub dither: DitherMode,
    /// Contrast multiplier in percent (100 = neutral).
    pub contrast_boost: u8,
}

impl Default for RenderIntent {
    fn default() -> (r: Self)
        ensures
            r.grayscale_mode == GrayscaleMode::Off,
            r.dither == DitherMode::NoDither,
            r.contrast_boost == 100,
    {
        RenderIntent { grayscale_mode: GrayscaleMode::Off, dither: DitherMode::NoDither, contrast_boost: 100 }
    }
}

/// Grayscale conversion mode.
#[derive(Clone, Copy, Debug, PartialEq, Eq)]
pub enum GrayscaleMode {
    Off,
    Luminosity,
}

/// Dithering algorithm.
#[derive(Clone, Copy, Debug, PartialEq, Eq)]
pub enum DitherMode {
    NoDither,
    Ordered,
    ErrorDiffusion,
}

/// Justification mode determined during layout.
#[derive(Clone, Copy, Debug, PartialEq, Eq)]
pub enum JustifyMode {
    /// Left/no justification.
    NoJustify,
    /// Inter-word with total extra px to distribute.
    InterWord { extra_px_total: i32 },
    /// Right alignment with horizontal offset.
    AlignRight { offset_px: i32 },
    /// Center alignment with horizontal offset.
    AlignCenter { offset_px: i32 },
}

/// Rule draw command.
#[derive(Clone, Copy, Debug, PartialEq, Eq)]
pub struct RuleCommand {
    /// Start x.
    pub x: i32,
    /// Start y.
    pub y: i32,
    /// Length.
    pub length: u32,
    /// Thickness.
    pub thickness: u32,
    /// Horizontal if true; vertical if false.
    pub horizontal: bool,
}

/// Rectangle command.
#[derive(Clone, Copy, Debug, PartialEq, Eq)]
pub struct RectCommand {
    /// Left x.
    pub x: i32,
    /// Top y.
    pub y: i32,
    /// Width.
    pub width: u32,
    /// Height.
    pub height: u32,
    /// Fill rectangle when true.
    pub fill: bool,
}

/// Inline image object command.
#[derive(Clone, Debug, PartialEq, Eq)]
pub struct ImageObjectCommand {
    /// Resource href (OPF-relative).
    pub src: String,
    /// Optional alt/caption text.
    pub alt: String,
    /// Left x.
    pub x: i32,
    /// Top y.
    pub y: i32,
    /// Width.
    pub width: u32,
    /// Height.
    pub height: u32,
}

/// Page-level metadata/chrome marker.
#[derive(Clone, Debug, PartialEq, Eq)]
pub struct PageChromeCommand {
    /// Semantic chrome kind.
    pub kind: PageChromeKind,
    /// Optional text payload (e.g. footer text).
    pub text: Option<String>,
    /// Optional current value (e.g. for progress).
    pub current: Option<usize>,
    /// Optional total value (e.g. for progress).
    pub total: Option<usize>,
}

/// Kind of page-level metadata/chrome.
#[derive(Clone, Copy, Debug, PartialEq, Eq)]
pub enum PageChromeKind {
    /// Header marker.
    Header,
    /// Footer marker.
    Footer,
    /// Progress marker.
    Progress,
}

/// Text style for header/footer chrome rendering.
#[derive(Clone, Copy, Debug, PartialEq, Eq)]
pub enum PageChromeTextStyle {
    Regular,
    Bold,
    Italic,
    BoldItalic,
}

/// Shared page-chrome policy and geometry configuration.
#[derive(Clone, Copy, Debug, PartialEq, Eq)]
pub struct PageChromeConfig {
    /// Emit/draw page header text.
    pub header_enabled: bool,
    /// Emit/draw page footer text.
    pub footer_enabled: bool,
    /// Emit/draw page progress bar.
    pub progress_enabled: bool,
    /// Header text left x.
    pub header_x: i32,
    /// Header text baseline y.
    pub header_baseline_y: i32,
    /// Header text style.
    pub header_style: PageChromeTextStyle,
    /// Footer text left x.
    pub footer_x: i32,
    /// Footer text baseline offset from bottom edge.
    pub footer_baseline_from_bottom: i32,
    /// Footer text style.
    pub footer_style: PageChromeTextStyle,
    /// Progress bar left/right inset.
    pub progress_x_inset: i32,
    /// Progress bar top y offset from bottom edge.
    pub progress_y_from_bottom: i32,
    /// Progress bar height.
    pub progress_height: u32,
    /// Progress bar outline thickness.
    pub progress_stroke_width: u32,
}

/// Historical renderer chrome geometry, with every chrome element enabled.
pub open spec fn chrome_geometry_defaults() -> PageChromeConfig {
    PageChromeConfig {
        header_enabled: true,
        footer_enabled: true,
        progress_enabled: true,
        header_x: 8,
        header_baseline_y: 16,
        header_style: PageChromeTextStyle::Bold,
        footer_x: 8,
        footer_baseline_from_bottom: 8,
        footer_style: PageChromeTextStyle::Regular,
        progress_x_inset: 8,
        progress_y_from_bottom: 20,
        progress_height: 4,
        progress_stroke_width: 1,
    }
}

/// The same geometry with every chrome element disabled (markers are opt-in for layout).
pub open spec fn chrome_layout_defaults() -> PageChromeConfig {
    PageChromeConfig {
        header_enabled: false,
        footer_enabled: false,
        progress_enabled: false,
        ..chrome_geometry_defaults()
    }
}

impl PageChromeConfig {
    /// Default chrome geometry matching historical renderer behavior.
    pub fn geometry_defaults() -> (r: Self)
        ensures
            r == chrome_geometry_defaults(),
    {
        PageChromeConfig {
            header_enabled: true,
            footer_enabled: true,
            progress_enabled: true,
            header_x: 8,
            header_baseline_y: 16,
            header_style: PageChromeTextStyle::Bold,
            footer_x: 8,
            footer_baseline_from_bottom: 8,
            footer_style: PageChromeTextStyle::Regular,
            progress_x_inset: 8,
            progress_y_from_bottom: 20,
            progress_height: 4,
            progress_stroke_width: 1,
        }
    }

    /// Defaults used by layout so chrome markers are opt-in.
    pub fn layout_defaults() -> (r: Self)
        ensures
            r == chrome_layout_defaults(),
    {
        let mut cfg = Self::geometry_defaults();
        cfg.header_enabled = false;
        cfg.footer_enabled = false;
        cfg.progress_enabled = false;
        cfg
    }
}

/// What a chrome marker carries, as plain values: kind, text, current, total.
pub open spec fn chrome_marker_view(c: PageChromeCommand) -> (PageChromeKind, Option<Seq<char>>, Option<usize>, Option<usize>) {
    (c.kind, match c.text {
        Some(t) => Some(t@),
        None => None,
    }, c.current, c.total)
}

/// Label of a page in header and footer markers: `Page N`.
pub open spec fn page_label(page_number: nat) -> Seq<char> {
    "Page "@ + decimal(page_number)
}

/// Chrome markers of a page, in order header, footer, progress, each only
/// when the configuration enables it; progress counts the page number
/// against the total number of pages.
pub open spec fn chrome_markers(cfg: PageChromeConfig, page_number: usize, total_pages: usize) -> Seq<
    (PageChromeKind, Option<Seq<char>>, Option<usize>, Option<usize>),
> {
    let label = Some(page_label(page_number as nat));
    (if cfg.header_enabled {
        seq![(PageChromeKind::Header, label, None, None)]
    } else {
        seq![]
    }) + (if cfg.footer_enabled {
        seq![(PageChromeKind::Footer, label, None, None)]
    } else {
        seq![]
    }) + (if cfg.progress_enabled {
        seq![(PageChromeKind::Progress, None, Some(page_number), Some(total_pages))]
    } else {
        seq![]
    })
}

/// `Page N` as a string.
fn page_label_string(page_number: usize) -> (r: String)
    ensures
        r@ == page_label(page_number as nat),
{
    let mut out: Vec<char> = Vec::new();
    out.push('P');
    out.push('a');
    out.push('g');
    out.push('e');
    out.push(' ');
    push_decimal(&mut out, page_number);
    proof {
        reveal_strlit("Page ");
    }
    assert(out@ =~= page_label(page_number as nat));
    string_from_chars(&out)
}

/// Chrome markers a layout adds to page `page_number` of `total_pages`.
pub fn page_chrome_markers(cfg: &PageChromeConfig, page_number: usize, total_pages: usize) -> (r: Vec<
    PageChromeCommand,
>)
    ensures
        r@.map_values(|c: PageChromeCommand| chrome_marker_view(c)) == chrome_markers(
            *cfg,
            page_number,
            total_pages,
        ),
{
    let mut out: Vec<PageChromeCommand> = Vec::new();
    let ghost label = Some(page_label(page_number as nat));
    if cfg.header_enabled {
        out.push(
            PageChromeCommand {
                kind: PageChromeKind::Header,
                text: Some(page_label_string(page_number)),
                current: None,
                total: None,
            },
        );
    }
    let ghost after_header = out@;
    if cfg.footer_enabled {
        out.push(
            PageChromeCommand {
                kind: PageChromeKind::Footer,
                text: Some(page_label_string(page_number)),
                current: None,
                total: None,
            },
        );
    }
    let ghost after_footer = out@;
    if cfg.progress_enabled {
        out.push(
            PageChromeCommand {
                kind: PageChromeKind::Progress,
                text: None,
                current: Some(page_number),
                total: Some(total_pages),
            },
        );
    }
    proof {
        let view = |c: PageChromeCommand| chrome_marker_view(c);
        let h: Seq<(PageChromeKind, Option<Seq<char>>, Option<usize>, Option<usize>)> = if cfg.header_enabled {
            seq![(PageChromeKind::Header, label, None, None)]
        } else {
            seq![]
        };
        let f: Seq<(PageChromeKind, Option<Seq<char>>, Option<usize>, Option<usize>)> = if cfg.footer_enabled {
            seq![(PageChromeKind::Footer, label, None, None)]
        } else {
            seq![]
        };
        assert(after_header.map_values(view) =~= h);
        assert(after_footer.map_values(view) =~= h + f);
        assert(out@.map_values(view) =~= chrome_markers(*cfg, page_number, total_pages));
    }
    out
}

impl Default for PageChromeConfig {
    fn default() -> (r: Self)
        ensures
            r == chrome_layout_defaults(),
    {
        Self::layout_defaults()
    }
}

/// Hyphenation behavior.
#[derive(Clone, Copy, Debug, PartialEq, Eq)]
pub struct HyphenationConfig {
    /// Soft-hyphen handling policy.
    pub soft_hyphen_policy: HyphenationMode,
}

impl Default for HyphenationConfig {
    fn default() -> (r: Self)
        ensures
            r.soft_hyphen_policy == HyphenationMode::Discretionary,
    {
        HyphenationConfig { soft_hyphen_policy: HyphenationMode::Discretionary }
    }
}

/// Soft-hyphen handling mode.
#[derive(Clone, Copy, Debug, PartialEq, Eq)]
pub enum HyphenationMode {
    Ignore,
    Discretionary,
}

/// Soft-hyphen handling policy of the layout engine.
#[derive(Clone, Copy, Debug, PartialEq, Eq)]
pub enum SoftHyphenPolicy {
    /// Drop soft hyphens and never break at them.
    Ignore,
    /// Use soft hyphens as optional break points.
    Discretionary,
}

/// Widow/orphan policy.
#[derive(Clone, Copy, Debug, PartialEq, Eq)]
pub struct WidowOrphanControl {
    /// Keep at least this many lines at paragraph start/end when possible.
    pub min_lines: u8,
    /// Enable widow/orphan controls.
    pub enabled: bool,
}

impl Default for WidowOrphanControl {
    fn default() -> (r: Self)
        ensures
            r.min_lines == 2,
            r.enabled,
    {
        WidowOrphanControl { min_lines: 2, enabled: true }
    }
}

/// Justification/alignment strategy.
#[derive(Clone, Copy, Debug, PartialEq, Eq)]
pub enum JustificationStrategy {
    /// Adaptive inter-word justification with quality thresholds.
    AdaptiveInterWord,
    /// Full inter-word justification that uses all line slack.
    FullInterWord,
    /// Left alignment (no inter-word expansion).
    AlignLeft,
    /// Right alignment.
    AlignRight,
    /// Center alignment.
    AlignCenter,
}

/// Hanging punctuation policy.
#[derive(Clone, Copy, Debug, PartialEq, Eq)]
pub struct HangingPunctuationConfig {
    /// Enable hanging punctuation (currently informational).
    pub enabled: bool,
}

impl Default for HangingPunctuationConfig {
    fn default() -> (r: Self)
        ensures
            r.enabled,
    {
        HangingPunctuationConfig { enabled: true }
    }
}

/// Cover-image placement mode for cover-like first-page image resources.
#[derive(Clone, Copy, Debug, PartialEq, Eq)]
pub enum CoverPageMode {
    /// Fit image within content area, preserve aspect ratio, no cropping.
    Contain,
    /// Fill viewport while preserving aspect ratio; crop overflow by viewport clip.
    FullBleed,
    /// Respect normal CSS/object layout behavior (no special cover handling).
    RespectCss,
}

/// Float placement support.
#[derive(Clone, Copy, Debug, PartialEq, Eq)]
pub enum FloatSupport {
    NoFloats,
    Basic,
}

/// SVG placement mode.
#[derive(Clone, Copy, Debug, PartialEq, Eq)]
pub enum SvgMode {
    Ignore,
    RasterizeFallback,
    Native,
}

/// Semantic role of a text block.
#[derive(Clone, Copy, Debug, PartialEq, Eq)]
pub enum BlockRole {
    Body,
    Paragraph,
    Heading(u8),
    ListItem,
    FigureCaption,
    Preformatted,
}

/// The string tags of the known annotation kinds: `note` and
/// `inline_image_src`.
pub proof fn law_annotation_tags()
    ensures
        PageAnnotationKind::Note.tag() == "note"@,
        PageAnnotationKind::InlineImageSrc.tag() == "inline_image_src"@,
{
    reveal_strlit("note");
    reveal_strlit("inline_image_src");
    assert(note_tag() =~= "note"@);
    assert(inline_image_src_tag() =~= "inline_image_src"@);
}

} // verus!
