use vstd::prelude::*;

use crate::graphics::{BackendCapabilities, FontFallbackReason, FontId, FontMetrics, FontSelection};
use crate::text::{chars_eq_str, chars_of, lower_char, lower_seq, string_from_chars, trim_bounds, trim_lower, trim_lower_chars, trim_seq};

verus! {

// ---------------------------------------------------------------------------
// Mono-font backend.
// ---------------------------------------------------------------------------

pub const MONO_SIZE_SMALL: FontId = 0;
pub const MONO_SIZE_MEDIUM: FontId = 1;
pub const MONO_SIZE_LARGE: FontId = 2;
pub const MONO_SIZE_XL: FontId = 3;

pub const MONO_VARIANT_REGULAR: FontId = 0;
pub const MONO_VARIANT_ITALIC: FontId = 1;
pub const MONO_VARIANT_BOLD: FontId = 2;
pub const MONO_VARIANT_BOLD_ITALIC: FontId = 3;

/// Mono font id: size bucket in bits 2..3, style variant in bits 0..1.
pub open spec fn mono_font_id(size_bucket: u8, variant: u8) -> u8 {
    ((size_bucket << 2u8) | (variant & 3u8)) as u8
}

/// Mono-font backend used by default.
#[derive(Clone, Copy, Debug)]
pub struct MonoFontBackend;

impl MonoFontBackend {
    /// Mono fonts: no TrueType, no images, no SVG; inter-word justification.
    pub fn capabilities() -> (r: BackendCapabilities)
        ensures
            r == (BackendCapabilities { ttf: false, images: false, svg: false, justification: true }),
    {
        BackendCapabilities { ttf: false, images: false, svg: false, justification: true }
    }

    /// Packs a size bucket and a style variant into a font id.
    pub fn encode_font_id(size_bucket: FontId, variant: FontId) -> (r: FontId)
        ensures
            r == mono_font_id(size_bucket, variant),
    {
        (size_bucket << 2u8) | (variant & 3u8)
    }

    /// Size bucket and style variant of a font id.
    pub fn decode_font_id(font_id: FontId) -> (r: (FontId, FontId))
        ensures
            r == ((font_id >> 2u8) & 3u8, font_id & 3u8),
    {
        ((font_id >> 2u8) & 3u8, font_id & 3u8)
    }

    /// Style variant for a weight and slant: bold from weight 700.
    pub fn style_variant_for_weight_italic(weight: u16, italic: bool) -> (r: FontId)
        ensures
            r == (if weight >= 700 && italic {
                MONO_VARIANT_BOLD_ITALIC
            } else if weight >= 700 {
                MONO_VARIANT_BOLD
            } else if italic {
                MONO_VARIANT_ITALIC
            } else {
                MONO_VARIANT_REGULAR
            }),
    {
        if weight >= 700 && italic {
            MONO_VARIANT_BOLD_ITALIC
        } else if weight >= 700 {
            MONO_VARIANT_BOLD
        } else if italic {
            MONO_VARIANT_ITALIC
        } else {
            MONO_VARIANT_REGULAR
        }
    }

    /// Nominal pixel size of a size bucket (16 for an unknown bucket).
    pub fn size_bucket_px(size_bucket: FontId) -> (r: i32)
        ensures
            r == (if size_bucket == MONO_SIZE_SMALL {
                12i32
            } else if size_bucket == MONO_SIZE_MEDIUM {
                16i32
            } else if size_bucket == MONO_SIZE_LARGE {
                20i32
            } else if size_bucket == MONO_SIZE_XL {
                24i32
            } else {
                16i32
            }),
    {
        if size_bucket == MONO_SIZE_SMALL {
            12
        } else if size_bucket == MONO_SIZE_MEDIUM {
            16
        } else if size_bucket == MONO_SIZE_LARGE {
            20
        } else if size_bucket == MONO_SIZE_XL {
            24
        } else {
            16
        }
    }

    /// Face drawn for a font id, with the reason when it stands in for the
    /// requested one.
    pub fn font_for(font_id: FontId) -> (r: (MonoFontFace, Option<FontFallbackReason>))
        ensures
            r == mono_face_for(((font_id >> 2u8) & 3u8), font_id & 3u8),
    {
        let (size_bucket, variant) = Self::decode_font_id(font_id);
        mono_face_exec(size_bucket, variant)
    }

    /// Whether a CSS family is one the mono fonts can stand for.
    pub fn family_supported(family: &str) -> (r: bool)
        ensures
            r == mono_family_supported(trim_lower(family@)),
    {
        let key = trim_lower_chars(family);
        chars_eq_str(&key, "monospace") || chars_eq_str(&key, "mono") || chars_eq_str(
            &key,
            "fixed",
        ) || chars_eq_str(&key, "serif") || chars_eq_str(&key, "sans-serif")
    }

    /// Font selection for a style given its size bucket: the id of the bucket
    /// and style variant, with a fallback reason for an unsupported family,
    /// an explicit id beyond `u8`, or a face that stands in for another
    /// (the last of these that applies).
    pub fn resolve_font(
        family: &str,
        size_bucket: FontId,
        weight: u16,
        italic: bool,
        font_id: Option<u32>,
    ) -> (r: FontSelection)
        ensures
            r == mono_selection(trim_lower(family@), size_bucket, weight, italic, font_id),
    {
        let mut fallback_reason = if !Self::family_supported(family) {
            Some(FontFallbackReason::UnknownFamily)
        } else {
            None
        };
        if let Some(id) = font_id {
            if id > 255 {
                fallback_reason = Some(FontFallbackReason::UnknownFontId);
            }
        }
        let mapped = Self::encode_font_id(
            size_bucket,
            Self::style_variant_for_weight_italic(weight, italic),
        );
        let (_, style_fallback) = Self::font_for(mapped);
        if style_fallback.is_some() {
            fallback_reason = style_fallback;
        }
        FontSelection { font_id: mapped, fallback_reason }
    }
}

/// Whether a normalised family is one the mono fonts can stand for.
pub open spec fn mono_family_supported(key: Seq<char>) -> bool {
    key == "monospace"@ || key == "mono"@ || key == "fixed"@ || key == "serif"@ || key
        == "sans-serif"@
}

/// Style variant for a weight and slant.
pub open spec fn mono_variant(weight: u16, italic: bool) -> u8 {
    if weight >= 700 && italic {
        MONO_VARIANT_BOLD_ITALIC
    } else if weight >= 700 {
        MONO_VARIANT_BOLD
    } else if italic {
        MONO_VARIANT_ITALIC
    } else {
        MONO_VARIANT_REGULAR
    }
}

/// Selection made by the mono backend.
pub open spec fn mono_selection(
    family_key: Seq<char>,
    size_bucket: u8,
    weight: u16,
    italic: bool,
    font_id: Option<u32>,
) -> FontSelection {
    let mapped = mono_font_id(size_bucket, mono_variant(weight, italic));
    let style_fallback = mono_face_for(((mapped >> 2u8) & 3u8), mapped & 3u8).1;
    let reason = if style_fallback is Some {
        style_fallback
    } else if font_id matches Some(id) && id > 255 {
        Some(FontFallbackReason::UnknownFontId)
    } else if !mono_family_supported(family_key) {
        Some(FontFallbackReason::UnknownFamily)
    } else {
        None
    };
    FontSelection { font_id: mapped, fallback_reason: reason }
}

/// Bitmap fonts the mono backend draws with.
#[derive(Clone, Copy, Debug, PartialEq, Eq)]
pub enum MonoFontFace {
    Font6x9,
    Font6x13Italic,
    Font6x13Bold,
    Font7x14,
    Font7x13Italic,
    Font7x14Bold,
    Font8x13,
    Font8x13Italic,
    Font8x13Bold,
    Font10x20,
    Font9x18,
    Font9x18Bold,
}

/// Face for a size bucket and style variant, with the reason when it stands
/// in for another.
pub open spec fn mono_face_for(size_bucket: u8, variant: u8) -> (MonoFontFace, Option<FontFallbackReason>) {
    let weight_italic = Some(FontFallbackReason::UnsupportedWeightItalic);
    if size_bucket == MONO_SIZE_SMALL && variant == MONO_VARIANT_REGULAR {
        (MonoFontFace::Font6x9, None)
    } else if size_bucket == MONO_SIZE_SMALL && variant == MONO_VARIANT_ITALIC {
        (MonoFontFace::Font6x13Italic, None)
    } else if size_bucket == MONO_SIZE_SMALL && variant == MONO_VARIANT_BOLD {
        (MonoFontFace::Font6x13Bold, None)
    } else if size_bucket == MONO_SIZE_SMALL && variant == MONO_VARIANT_BOLD_ITALIC {
        (MonoFontFace::Font6x13Bold, weight_italic)
    } else if size_bucket == MONO_SIZE_MEDIUM && variant == MONO_VARIANT_REGULAR {
        (MonoFontFace::Font7x14, None)
    } else if size_bucket == MONO_SIZE_MEDIUM && variant == MONO_VARIANT_ITALIC {
        (MonoFontFace::Font7x13Italic, None)
    } else if size_bucket == MONO_SIZE_MEDIUM && variant == MONO_VARIANT_BOLD {
        (MonoFontFace::Font7x14Bold, None)
    } else if size_bucket == MONO_SIZE_MEDIUM && variant == MONO_VARIANT_BOLD_ITALIC {
        (MonoFontFace::Font7x14Bold, weight_italic)
    } else if size_bucket == MONO_SIZE_LARGE && variant == MONO_VARIANT_REGULAR {
        (MonoFontFace::Font8x13, None)
    } else if size_bucket == MONO_SIZE_LARGE && variant == MONO_VARIANT_ITALIC {
        (MonoFontFace::Font8x13Italic, None)
    } else if size_bucket == MONO_SIZE_LARGE && variant == MONO_VARIANT_BOLD {
        (MonoFontFace::Font8x13Bold, None)
    } else if size_bucket == MONO_SIZE_LARGE && variant == MONO_VARIANT_BOLD_ITALIC {
        (MonoFontFace::Font8x13Bold, weight_italic)
    } else if size_bucket == MONO_SIZE_XL && variant == MONO_VARIANT_REGULAR {
        (MonoFontFace::Font10x20, None)
    } else if size_bucket == MONO_SIZE_XL && variant == MONO_VARIANT_ITALIC {
        (MonoFontFace::Font9x18, weight_italic)
    } else if size_bucket == MONO_SIZE_XL && variant == MONO_VARIANT_BOLD {
        (MonoFontFace::Font9x18Bold, None)
    } else if size_bucket == MONO_SIZE_XL && variant == MONO_VARIANT_BOLD_ITALIC {
        (MonoFontFace::Font9x18Bold, weight_italic)
    } else {
        (MonoFontFace::Font8x13, Some(FontFallbackReason::UnknownFontId))
    }
}

fn mono_face_exec(size_bucket: u8, variant: u8) -> (r: (MonoFontFace, Option<FontFallbackReason>))
    ensures
        r == mono_face_for(size_bucket, variant),
{
    let weight_italic = Some(FontFallbackReason::UnsupportedWeightItalic);
    if size_bucket == MONO_SIZE_SMALL && variant == MONO_VARIANT_REGULAR {
        (MonoFontFace::Font6x9, None)
    } else if size_bucket == MONO_SIZE_SMALL && variant == MONO_VARIANT_ITALIC {
        (MonoFontFace::Font6x13Italic, None)
    } else if size_bucket == MONO_SIZE_SMALL && variant == MONO_VARIANT_BOLD {
        (MonoFontFace::Font6x13Bold, None)
    } else if size_bucket == MONO_SIZE_SMALL && variant == MONO_VARIANT_BOLD_ITALIC {
        (MonoFontFace::Font6x13Bold, weight_italic)
    } else if size_bucket == MONO_SIZE_MEDIUM && variant == MONO_VARIANT_REGULAR {
        (MonoFontFace::Font7x14, None)
    } else if size_bucket == MONO_SIZE_MEDIUM && variant == MONO_VARIANT_ITALIC {
        (MonoFontFace::Font7x13Italic, None)
    } else if size_bucket == MONO_SIZE_MEDIUM && variant == MONO_VARIANT_BOLD {
        (MonoFontFace::Font7x14Bold, None)
    } else if size_bucket == MONO_SIZE_MEDIUM && variant == MONO_VARIANT_BOLD_ITALIC {
        (MonoFontFace::Font7x14Bold, weight_italic)
    } else if size_bucket == MONO_SIZE_LARGE && variant == MONO_VARIANT_REGULAR {
        (MonoFontFace::Font8x13, None)
    } else if size_bucket == MONO_SIZE_LARGE && variant == MONO_VARIANT_ITALIC {
        (MonoFontFace::Font8x13Italic, None)
    } else if size_bucket == MONO_SIZE_LARGE && variant == MONO_VARIANT_BOLD {
        (MonoFontFace::Font8x13Bold, None)
    } else if size_bucket == MONO_SIZE_LARGE && variant == MONO_VARIANT_BOLD_ITALIC {
        (MonoFontFace::Font8x13Bold, weight_italic)
    } else if size_bucket == MONO_SIZE_XL && variant == MONO_VARIANT_REGULAR {
        (MonoFontFace::Font10x20, None)
    } else if size_bucket == MONO_SIZE_XL && variant == MONO_VARIANT_ITALIC {
        (MonoFontFace::Font9x18, weight_italic)
    } else if size_bucket == MONO_SIZE_XL && variant == MONO_VARIANT_BOLD {
        (MonoFontFace::Font9x18Bold, None)
    } else if size_bucket == MONO_SIZE_XL && variant == MONO_VARIANT_BOLD_ITALIC {
        (MonoFontFace::Font9x18Bold, weight_italic)
    } else {
        (MonoFontFace::Font8x13, Some(FontFallbackReason::UnknownFontId))
    }
}

/// A mono font id decodes to the size bucket and variant it was built from
/// (each kept to two bits).
pub proof fn law_mono_font_id_roundtrip(size_bucket: u8, variant: u8)
    ensures
        (mono_font_id(size_bucket, variant) >> 2u8) & 3u8 == size_bucket & 3u8,
        mono_font_id(size_bucket, variant) & 3u8 == variant & 3u8,
{
    assert((((size_bucket << 2u8) | (variant & 3u8)) as u8 >> 2u8) & 3u8 == size_bucket & 3u8)
        by (bit_vector);
    assert(((size_bucket << 2u8) | (variant & 3u8)) as u8 & 3u8 == variant & 3u8) by (bit_vector);
}

/// Replacement drawn for a character the mono fonts lack.
pub open spec fn mono_replacement(c: char) -> Seq<char> {
    if c == '\u{a0}' {
        seq![' ']
    } else if c == '\u{2013}' || c == '\u{2014}' {
        seq!['-']
    } else if c == '\u{2018}' || c == '\u{2019}' {
        seq!['\'']
    } else if c == '\u{201c}' || c == '\u{201d}' {
        seq!['"']
    } else if c == '\u{2026}' {
        seq!['.', '.', '.']
    } else {
        seq![c]
    }
}

/// Text with typographic characters replaced by ASCII the mono fonts carry.
pub open spec fn mono_normalized(s: Seq<char>) -> Seq<char>
    decreases s.len(),
{
    if s.len() == 0 {
        Seq::<char>::empty()
    } else {
        mono_normalized(s.drop_last()) + mono_replacement(s.last())
    }
}

/// Replaces no-break spaces, dashes, curly quotes and ellipses with ASCII.
pub fn normalize_text_for_mono(text: &str) -> (r: String)
    ensures
        r@ == mono_normalized(text@),
{
    let v = crate::text::chars_of(text);
    let mut out: Vec<char> = Vec::new();
    let mut i: usize = 0;
    while i < v.len()
        invariant
            i <= v.len(),
            v@ == text@,
            out@ == mono_normalized(v@.take(i as int)),
        decreases v.len() - i,
    {
        let c = v[i];
        if c == '\u{a0}' {
            out.push(' ');
        } else if c == '\u{2013}' || c == '\u{2014}' {
            out.push('-');
        } else if c == '\u{2018}' || c == '\u{2019}' {
            out.push('\'');
        } else if c == '\u{201c}' || c == '\u{201d}' {
            out.push('"');
        } else if c == '\u{2026}' {
            out.push('.');
            out.push('.');
            out.push('.');
        } else {
            out.push(c);
        }
        proof {
            assert(v@.take(i + 1).drop_last() =~= v@.take(i as int));
            assert(out@ =~= mono_normalized(v@.take(i + 1)));
        }
        i += 1;
    }
    assert(v@.take(v.len() as int) =~= v@);
    string_from_chars(&out)
}

// ---------------------------------------------------------------------------
// Big-endian reads and the sfnt table directory.
// ---------------------------------------------------------------------------

/// Big-endian `u16` at `o`.
pub open spec fn be16(d: Seq<u8>, o: int) -> int {
    d[o] as int * 256 + d[o + 1] as int
}

/// Big-endian `u32` at `o`.
pub open spec fn be32(d: Seq<u8>, o: int) -> int {
    ((d[o] as int * 256 + d[o + 1] as int) * 256 + d[o + 2] as int) * 256 + d[o + 3] as int
}

/// Big-endian `i16` at `o`.
pub open spec fn be16_signed(d: Seq<u8>, o: int) -> int {
    if be16(d, o) >= 0x8000 {
        be16(d, o) - 0x10000
    } else {
        be16(d, o)
    }
}

fn be_u16(data: &[u8], offset: usize) -> (r: Option<u16>)
    ensures
        offset + 2 <= data@.len() ==> r == Some(be16(data@, offset as int) as u16),
        offset + 2 > data@.len() ==> r is None,
{
    if offset > data.len() || data.len() - offset < 2 {
        return None;
    }
    Some((data[offset] as u16) * 256 + data[offset + 1] as u16)
}

fn be_i16(data: &[u8], offset: usize) -> (r: Option<i16>)
    ensures
        offset + 2 <= data@.len() ==> (r matches Some(v) && v == be16_signed(data@, offset as int)),
        offset + 2 > data@.len() ==> r is None,
{
    match be_u16(data, offset) {
        Some(v) => {
            if v >= 0x8000 {
                Some((v as i32 - 0x10000) as i16)
            } else {
                Some(v as i16)
            }
        },
        None => None,
    }
}

fn be_u32(data: &[u8], offset: usize) -> (r: Option<u32>)
    ensures
        offset + 4 <= data@.len() ==> r == Some(be32(data@, offset as int) as u32),
        offset + 4 > data@.len() ==> r is None,
{
    if offset > data.len() || data.len() - offset < 4 {
        return None;
    }
    Some(
        (((data[offset] as u32) * 256 + data[offset + 1] as u32) * 256 + data[offset + 2] as u32)
            * 256 + data[offset + 3] as u32,
    )
}

/// Location `(start, end)` of the table tagged `tag` among directory records
/// `idx..n`, `None` when no record has the tag or the first that has it
/// points past the data.
pub open spec fn sfnt_scan(data: Seq<u8>, tag: Seq<u8>, n: int, idx: int) -> Option<(int, int)>
    decreases n - idx,
{
    if idx >= n || idx < 0 {
        None
    } else {
        let rec = 12 + idx * 16;
        if data.subrange(rec, rec + 4) != tag {
            sfnt_scan(data, tag, n, idx + 1)
        } else {
            let start = be32(data, rec + 8);
            let end = start + be32(data, rec + 12);
            if end > usize::MAX || end > data.len() {
                None
            } else {
                Some((start, end))
            }
        }
    }
}

/// Location of the table tagged `tag` in an sfnt font file: the table
/// directory must fit in the data, and the first record with the tag must
/// point inside it.
pub open spec fn sfnt_table(data: Seq<u8>, tag: Seq<u8>) -> Option<(int, int)> {
    if data.len() < 6 {
        None
    } else {
        let n = be16(data, 4);
        if 12 + n * 16 > data.len() {
            None
        } else {
            sfnt_scan(data, tag, n, 0)
        }
    }
}

/// Bytes of the table tagged `tag` in an sfnt font file.
pub fn find_sfnt_table<'a>(data: &'a [u8], tag: [u8; 4]) -> (r: Option<&'a [u8]>)
    ensures
        match sfnt_table(data@, tag@) {
            Some((start, end)) => (r matches Some(t) && t@ == data@.subrange(start, end)),
            None => r is None,
        },
{
    let num_tables = match be_u16(data, 4) {
        Some(n) => n as usize,
        None => {
            return None;
        },
    };
    let directory_len: usize = 12 + num_tables * 16;
    if directory_len > data.len() {
        return None;
    }
    let mut idx: usize = 0;
    while idx < num_tables
        invariant
            idx <= num_tables,
            num_tables == be16(data@, 4),
            12 + num_tables * 16 <= data@.len(),
            sfnt_table(data@, tag@) == sfnt_scan(data@, tag@, num_tables as int, idx as int),
        decreases num_tables - idx,
    {
        let record_offset: usize = 12 + idx * 16;
        let same = data[record_offset] == tag[0] && data[record_offset + 1] == tag[1]
            && data[record_offset + 2] == tag[2] && data[record_offset + 3] == tag[3];
        proof {
            let rs = data@.subrange(record_offset as int, record_offset + 4);
            if same {
                assert(rs =~= tag@);
            } else {
                assert(rs != tag@) by {
                    if rs == tag@ {
                        assert(rs[0] == tag@[0] && rs[1] == tag@[1] && rs[2] == tag@[2] && rs[3]
                            == tag@[3]);
                    }
                }
            }
        }
        if !same {
            idx += 1;
            continue;
        }
        let table_offset = match be_u32(data, record_offset + 8) {
            Some(v) => v as usize,
            None => {
                return None;
            },
        };
        let table_length = match be_u32(data, record_offset + 12) {
            Some(v) => v as usize,
            None => {
                return None;
            },
        };
        let table_end = match table_offset.checked_add(table_length) {
            Some(e) => e,
            None => {
                return None;
            },
        };
        if table_end > data.len() {
            return None;
        }
        return Some(&data[table_offset..table_end]);
    }
    None
}

// ---------------------------------------------------------------------------
// TrueType face metrics.
// ---------------------------------------------------------------------------

/// Horizontal metrics read from a TrueType/OpenType face.
#[derive(Clone, Copy, Debug, PartialEq, Eq)]
pub struct TtfFaceMetrics {
    pub units_per_em: u16,
    pub avg_advance: u16,
    pub space_advance: u16,
}

/// Bytes of a located table.
pub open spec fn table_bytes(data: Seq<u8>, loc: Option<(int, int)>) -> Option<Seq<u8>> {
    match loc {
        Some((start, end)) => Some(data.subrange(start, end)),
        None => None,
    }
}

/// Average advance from the `OS/2` table (`xAvgCharWidth`), when positive.
pub open spec fn os2_avg_advance(data: Seq<u8>) -> int {
    match table_bytes(data, sfnt_table(data, seq![79u8, 83u8, 47u8, 50u8])) {
        Some(t) => if t.len() >= 4 && be16_signed(t, 2) > 0 {
            be16_signed(t, 2)
        } else {
            0
        },
        None => 0,
    }
}

/// Advance from the `hhea` table (`advanceWidthMax`).
pub open spec fn hhea_advance(data: Seq<u8>) -> int {
    match table_bytes(data, sfnt_table(data, seq![104u8, 104u8, 101u8, 97u8])) {
        Some(t) => if t.len() >= 12 {
            be16(t, 10)
        } else {
            0
        },
        None => 0,
    }
}

/// `max(v, 1)`.
pub open spec fn at_least_one(v: int) -> int {
    if v < 1 {
        1
    } else {
        v
    }
}

/// Metrics of a face: units per em from `head` (absent or zero: no metrics);
/// average advance from `OS/2`, else `hhea`, else 58% of the em; space
/// advance 52% of the average.
pub open spec fn face_metrics(data: Seq<u8>) -> Option<TtfFaceMetrics> {
    match table_bytes(data, sfnt_table(data, seq![104u8, 101u8, 97u8, 100u8])) {
        None => None,
        Some(head) => if head.len() < 20 || be16(head, 18) == 0 {
            None
        } else {
            let units = be16(head, 18);
            let a1 = os2_avg_advance(data);
            let a2 = if a1 == 0 {
                hhea_advance(data)
            } else {
                a1
            };
            let avg = if a2 == 0 {
                at_least_one(units * 58 / 100)
            } else {
                a2
            };
            Some(
                TtfFaceMetrics {
                    units_per_em: units as u16,
                    avg_advance: at_least_one(avg) as u16,
                    space_advance: at_least_one(avg * 52 / 100) as u16,
                },
            )
        },
    }
}

/// Reads the horizontal metrics of a TrueType/OpenType face.
pub fn parse_ttf_face_metrics(data: &[u8]) -> (r: Option<TtfFaceMetrics>)
    ensures
        r == face_metrics(data@),
{
    let head = match find_sfnt_table(data, [104u8, 101u8, 97u8, 100u8]) {
        Some(t) => t,
        None => {
            return None;
        },
    };
    let units_per_em = match be_u16(head, 18) {
        Some(u) => u,
        None => {
            return None;
        },
    };
    if units_per_em == 0 {
        return None;
    }
    let mut avg_advance: u16 = match find_sfnt_table(data, [79u8, 83u8, 47u8, 50u8]) {
        Some(os2) => match be_i16(os2, 2) {
            Some(w) => if w > 0 {
                w as u16
            } else {
                0
            },
            None => 0,
        },
        None => 0,
    };
    if avg_advance == 0 {
        avg_advance = match find_sfnt_table(data, [104u8, 104u8, 101u8, 97u8]) {
            Some(hhea) => match be_u16(hhea, 10) {
                Some(v) => v,
                None => 0,
            },
            None => 0,
        };
    }
    if avg_advance == 0 {
        let scaled: u32 = (units_per_em as u32 * 58) / 100;
        avg_advance = if scaled < 1 {
            1
        } else {
            scaled as u16
        };
    }
    let space: u32 = (avg_advance as u32 * 52) / 100;
    let space_advance: u16 = if space < 1 {
        1
    } else {
        space as u16
    };
    Some(
        TtfFaceMetrics {
            units_per_em,
            avg_advance: if avg_advance < 1 {
                1
            } else {
                avg_advance
            },
            space_advance,
        },
    )
}

// ---------------------------------------------------------------------------
// TrueType backend.
// ---------------------------------------------------------------------------

/// Policy for faces the TrueType path cannot draw.
#[derive(Clone, Copy, Debug, PartialEq, Eq)]
pub enum TtfFallbackPolicy {
    /// Always fall back to mono-font rendering.
    MonoOnly,
}

/// Options of the TrueType backend.
#[derive(Clone, Copy, Debug, PartialEq, Eq)]
pub struct TtfBackendOptions {
    /// Maximum number of selectable faces accepted via registration (further
    /// capped at 32 by the font id encoding).
    pub max_faces: usize,
    /// Maximum bytes accepted for a single face payload.
    pub max_face_bytes: usize,
    /// Maximum aggregate bytes accepted across all registered faces.
    pub max_total_face_bytes: usize,
    /// Policy for unresolved/unsupported faces.
    pub fallback_policy: TtfFallbackPolicy,
}

impl Default for TtfBackendOptions {
    fn default() -> (r: Self)
        ensures
            r.max_faces == 32,
            r.max_face_bytes == 8 * 1024 * 1024,
            r.max_total_face_bytes == 64 * 1024 * 1024,
            r.fallback_policy == TtfFallbackPolicy::MonoOnly,
    {
        TtfBackendOptions {
            max_faces: 32,
            max_face_bytes: 8 * 1024 * 1024,
            max_total_face_bytes: 64 * 1024 * 1024,
            fallback_policy: TtfFallbackPolicy::MonoOnly,
        }
    }
}

/// Most faces that a TrueType font id can address.
pub const TTF_MAX_SELECTABLE_FACES: usize = 32;

/// TrueType font id: marker bit 7, size bucket in bits 5..6, face index in
/// bits 0..4.
pub open spec fn ttf_font_id(face_idx: usize, size_bucket: u8) -> u8 {
    (0x80u8 | ((size_bucket & 3u8) << 5u8) | ((face_idx % 256) as u8 & 0x1fu8)) as u8
}

/// Packs a face index and a size bucket into a TrueType font id.
pub fn encode_ttf_font_id(face_idx: usize, size_bucket: FontId) -> (r: FontId)
    ensures
        r == ttf_font_id(face_idx, size_bucket),
{
    let low: u8 = (face_idx % 256) as u8;
    0x80u8 | ((size_bucket & 3u8) << 5u8) | (low & 0x1fu8)
}

/// Face index and size bucket of a TrueType font id; `None` for a mono id.
pub fn decode_ttf_font_id(font_id: FontId) -> (r: Option<(usize, FontId)>)
    ensures
        font_id & 0x80u8 == 0 ==> r is None,
        font_id & 0x80u8 != 0 ==> r == Some(
            ((font_id & 0x1fu8) as usize, ((font_id & 0x60u8) >> 5u8) as u8),
        ),
{
    if (font_id & 0x80u8) == 0 {
        return None;
    }
    let face_idx = (font_id & 0x1fu8) as usize;
    let size_bucket = (font_id & 0x60u8) >> 5u8;
    Some((face_idx, size_bucket))
}

/// A TrueType font id decodes to its face index (modulo 32) and size bucket
/// (two bits).
pub proof fn law_ttf_font_id_roundtrip(face_idx: usize, size_bucket: u8)
    ensures
        ttf_font_id(face_idx, size_bucket) & 0x80u8 != 0,
        (ttf_font_id(face_idx, size_bucket) & 0x1fu8) as int == face_idx % 32,
        (ttf_font_id(face_idx, size_bucket) & 0x60u8) >> 5u8 == size_bucket & 3u8,
{
    let low: u8 = (face_idx % 256) as u8;
    assert((0x80u8 | ((size_bucket & 3u8) << 5u8) | (low & 0x1fu8)) & 0x80u8 != 0) by (bit_vector);
    assert((0x80u8 | ((size_bucket & 3u8) << 5u8) | (low & 0x1fu8)) & 0x1fu8 == low & 0x1fu8)
        by (bit_vector);
    assert(((0x80u8 | ((size_bucket & 3u8) << 5u8) | (low & 0x1fu8)) & 0x60u8) >> 5u8
        == size_bucket & 3u8) by (bit_vector);
    assert(low & 0x1fu8 == low % 32) by (bit_vector);
    assert(low % 32 == face_idx % 32);
}

/// Pixel width of a metric in font units at the size of a bucket, rounded up
/// and at least one; a face without units per em measures one pixel.
pub fn scaled_metric_px(metric_units: u16, units_per_em: u16, size_bucket: FontId) -> (r: i32)
    ensures
        units_per_em == 0 ==> r == 1,
        units_per_em > 0 ==> r == at_least_one(
            (metric_units * at_least_one(
                MonoFontBackend::spec_size_bucket_px(size_bucket) as int,
            ) + units_per_em - 1) / (units_per_em as int),
        ),
{
    if units_per_em == 0 {
        return 1;
    }
    let bucket_px = MonoFontBackend::size_bucket_px(size_bucket);
    let px: i64 = if bucket_px < 1 {
        1
    } else {
        bucket_px as i64
    };
    assert(1 <= px <= 24);
    let mu: i64 = metric_units as i64;
    assert(0 <= mu * px <= 65535 * 24) by (nonlinear_arith)
        requires
            0 <= mu <= 65535,
            1 <= px <= 24,
    ;
    let upe: i64 = units_per_em as i64;
    let numer: i64 = (mu * px) + (upe - 1);
    let scaled: i64 = numer / upe;
    assert(scaled <= numer) by (nonlinear_arith)
        requires
            scaled == numer / upe,
            0 <= numer,
            1 <= upe,
    ;
    if scaled < 1 {
        1
    } else {
        scaled as i32
    }
}

impl MonoFontBackend {
    /// Nominal pixel size of a size bucket.
    pub open spec fn spec_size_bucket_px(size_bucket: u8) -> i32 {
        if size_bucket == MONO_SIZE_SMALL {
            12i32
        } else if size_bucket == MONO_SIZE_MEDIUM {
            16i32
        } else if size_bucket == MONO_SIZE_LARGE {
            20i32
        } else if size_bucket == MONO_SIZE_XL {
            24i32
        } else {
            16i32
        }
    }
}

/// Index of the first character of `s` at or after `i` that is not `c`.
pub open spec fn first_not(s: Seq<char>, c: char, i: int) -> int
    decreases s.len() - i,
{
    if i >= s.len() || i < 0 {
        s.len() as int
    } else if s[i] != c {
        i
    } else {
        first_not(s, c, i + 1)
    }
}

/// End of `s[lo..j]` once trailing `c` are removed.
pub open spec fn end_not(s: Seq<char>, c: char, lo: int, j: int) -> int
    decreases j - lo,
{
    if j <= lo {
        lo
    } else if s[j - 1] != c {
        j
    } else {
        end_not(s, c, lo, j - 1)
    }
}

/// `s` without leading and trailing `c` (`str::trim_matches`).
pub open spec fn strip_char(s: Seq<char>, c: char) -> Seq<char> {
    let lo = first_not(s, c, 0);
    s.subrange(lo, end_not(s, c, lo, s.len() as int))
}

proof fn lemma_strip_bounds(s: Seq<char>, c: char, i: int, lo: int, j: int)
    requires
        0 <= i <= s.len(),
        0 <= lo <= j <= s.len(),
    ensures
        i <= first_not(s, c, i) <= s.len(),
        lo <= end_not(s, c, lo, j) <= j,
    decreases s.len() - i + j - lo,
{
    if i < s.len() && s[i] == c {
        lemma_strip_bounds(s, c, i + 1, lo, j);
    } else if j > lo && s[j - 1] == c {
        lemma_strip_bounds(s, c, i, lo, j - 1);
    }
}

pub(crate) fn strip_char_exec(v: &Vec<char>, c: char) -> (r: Vec<char>)
    ensures
        r@ == strip_char(v@, c),
{
    proof {
        lemma_strip_bounds(v@, c, 0, 0, 0);
    }
    let mut lo: usize = 0;
    while lo < v.len() && v[lo] == c
        invariant
            lo <= v.len(),
            first_not(v@, c, lo as int) == first_not(v@, c, 0),
        decreases v.len() - lo,
    {
        lo += 1;
    }
    let mut hi: usize = v.len();
    while hi > lo && v[hi - 1] == c
        invariant
            lo <= hi <= v.len(),
            first_not(v@, c, 0) == lo,
            end_not(v@, c, lo as int, hi as int) == end_not(v@, c, lo as int, v@.len() as int),
        decreases hi - lo,
    {
        hi -= 1;
    }
    let mut out: Vec<char> = Vec::new();
    let mut k = lo;
    while k < hi
        invariant
            lo <= k <= hi <= v.len(),
            out@ == v@.subrange(lo as int, k as int),
        decreases hi - k,
    {
        out.push(v[k]);
        k += 1;
        assert(out@ =~= v@.subrange(lo as int, k as int));
    }
    out
}

/// Family name as compared by the TrueType backend: trimmed, stripped of
/// surrounding double then single quotes, lower-cased.
pub open spec fn normalized_family(family: Seq<char>) -> Seq<char> {
    lower_seq(strip_char(strip_char(trim_seq(family), '"'), '\''))
}

/// Family name as compared by the TrueType backend.
pub fn normalize_font_family(family: &str) -> (r: String)
    ensures
        r@ == normalized_family(family@),
{
    let v = chars_of(family);
    let (lo, hi) = trim_bounds(&v);
    let mut t: Vec<char> = Vec::new();
    let mut k = lo;
    while k < hi
        invariant
            lo <= k <= hi <= v.len(),
            t@ == v@.subrange(lo as int, k as int),
        decreases hi - k,
    {
        t.push(v[k]);
        k += 1;
        assert(t@ =~= v@.subrange(lo as int, k as int));
    }
    let a = strip_char_exec(&t, '"');
    let b = strip_char_exec(&a, '\'');
    let mut out: Vec<char> = Vec::new();
    let mut i: usize = 0;
    while i < b.len()
        invariant
            i <= b.len(),
            out@ == lower_seq(b@.take(i as int)),
        decreases b.len() - i,
    {
        out.push(crate::text::char_to_lower(b[i]));
        i += 1;
        assert(out@ =~= lower_seq(b@.take(i as int)));
    }
    assert(b@.take(b.len() as int) =~= b@);
    string_from_chars(&out)
}

/// Face registration descriptor for the TrueType backend.
#[derive(Clone, Debug)]
pub struct FontFaceRegistration<'a> {
    pub family: &'a str,
    pub weight: u16,
    pub italic: bool,
    pub data: &'a [u8],
}

/// A face accepted by the TrueType backend.
#[derive(Clone, Debug)]
pub struct TtfFaceEntry {
    pub family_norm: String,
    pub weight: u16,
    pub italic: bool,
    pub metrics: TtfFaceMetrics,
}

/// Spec form of an accepted face: normalised family, weight, slant, metrics.
pub type FaceView = (Seq<char>, u16, bool, TtfFaceMetrics);

/// Spec form of an accepted face.
pub open spec fn face_view(e: TtfFaceEntry) -> FaceView {
    (e.family_norm@, e.weight, e.italic, e.metrics)
}

/// Most faces the backend accepts under `options`.
pub open spec fn face_limit(options: TtfBackendOptions) -> int {
    if options.max_faces < TTF_MAX_SELECTABLE_FACES {
        options.max_faces as int
    } else {
        TTF_MAX_SELECTABLE_FACES as int
    }
}

/// Faces and byte total after offering `faces[i..]`, with how many were
/// accepted: offering stops once the face limit is reached; a face is
/// skipped when it is too large, would push the (saturating) total over its
/// limit, or has no readable metrics.
pub open spec fn register_outcome(
    options: TtfBackendOptions,
    accepted: Seq<FaceView>,
    total: int,
    faces: Seq<FontFaceRegistration>,
    i: int,
) -> (Seq<FaceView>, int, int)
    decreases faces.len() - i,
{
    if i < 0 || i >= faces.len() || accepted.len() >= face_limit(options) {
        (accepted, total, 0)
    } else {
        let face = faces[i];
        let bytes = face.data@.len() as int;
        if bytes > options.max_face_bytes || crate::graphics::sat_add_usize(total, bytes)
            > options.max_total_face_bytes || face_metrics(face.data@) is None {
            register_outcome(options, accepted, total, faces, i + 1)
        } else {
            let next = accepted.push(
                (normalized_family(face.family@), face.weight, face.italic, face_metrics(face.data@)->0),
            );
            let rest = register_outcome(options, next, total + bytes, faces, i + 1);
            (rest.0, rest.1, rest.2 + 1)
        }
    }
}

/// Sum of the payload sizes of `faces`.
pub open spec fn payload_total(faces: Seq<FontFaceRegistration>) -> int
    decreases faces.len(),
{
    if faces.len() == 0 {
        0
    } else {
        payload_total(faces.drop_last()) + faces.last().data@.len()
    }
}

/// TrueType backend: registered faces with their metrics; drawing goes
/// through the mono fonts.
#[derive(Clone, Debug)]
pub struct TtfFontBackend {
    options: TtfBackendOptions,
    accepted_total_bytes: usize,
    faces: Vec<TtfFaceEntry>,
}

impl TtfFontBackend {
    pub closed spec fn spec_options(&self) -> TtfBackendOptions {
        self.options
    }

    pub closed spec fn spec_accepted_total_bytes(&self) -> usize {
        self.accepted_total_bytes
    }

    /// Accepted faces, in registration order.
    pub closed spec fn spec_faces(&self) -> Seq<FaceView> {
        self.faces@.map_values(|e: TtfFaceEntry| face_view(e))
    }

    /// TrueType faces, no images, no SVG; inter-word justification.
    pub fn capabilities(&self) -> (r: BackendCapabilities)
        ensures
            r == (BackendCapabilities { ttf: true, images: false, svg: false, justification: true }),
    {
        BackendCapabilities { ttf: true, images: false, svg: false, justification: true }
    }

    /// Backend with the given options and no faces.
    pub fn new(options: TtfBackendOptions) -> (r: Self)
        ensures
            r.spec_options() == options,
            r.spec_accepted_total_bytes() == 0,
            r.spec_faces().len() == 0,
    {
        let r = TtfFontBackend { options, accepted_total_bytes: 0, faces: Vec::new() };
        assert(r.spec_faces() =~= Seq::<FaceView>::empty());
        r
    }

    /// Options in use.
    pub fn options(&self) -> (r: TtfBackendOptions)
        ensures
            r == self.spec_options(),
    {
        self.options
    }

    /// Bytes of the accepted faces' data, summed.
    pub fn accepted_total_bytes(&self) -> (r: usize)
        ensures
            r == self.spec_accepted_total_bytes(),
    {
        self.accepted_total_bytes
    }

    /// Number of accepted faces.
    pub fn face_count(&self) -> (r: usize)
        ensures
            r == self.spec_faces().len(),
    {
        self.faces.len()
    }

    /// Feature status: no faces, faces never resolved, or faces in use.
    pub fn status(&self, resolved_face_hits: usize) -> (r: &'static str)
        ensures
            self.spec_faces().len() == 0 ==> r@ == "fallback_only"@,
            self.spec_faces().len() > 0 && resolved_face_hits == 0 ==> r@ == "metrics_only"@,
            self.spec_faces().len() > 0 && resolved_face_hits > 0 ==> r@ == "metrics_active"@,
    {
        if self.faces.len() == 0 {
            "fallback_only"
        } else if resolved_face_hits == 0 {
            "metrics_only"
        } else {
            "metrics_active"
        }
    }

    /// Most faces this backend accepts.
    pub fn selectable_faces_limit(&self) -> (r: usize)
        ensures
            r == face_limit(self.spec_options()),
    {
        if self.options.max_faces < TTF_MAX_SELECTABLE_FACES {
            self.options.max_faces
        } else {
            TTF_MAX_SELECTABLE_FACES
        }
    }

    /// Offers faces for registration, in order; returns how many were
    /// accepted.
    pub fn register_faces(&mut self, faces: &[FontFaceRegistration]) -> (r: usize)
        requires
            old(self).spec_options().max_total_face_bytes < usize::MAX
                || old(self).spec_accepted_total_bytes() + payload_total(faces@) <= usize::MAX,
        ensures
            ({
                let out = register_outcome(
                    old(self).spec_options(),
                    old(self).spec_faces(),
                    old(self).spec_accepted_total_bytes() as int,
                    faces@,
                    0,
                );
                &&& final(self).spec_faces() == out.0
                &&& final(self).spec_accepted_total_bytes() == out.1
                &&& r == out.2
            }),
            final(self).spec_options() == old(self).spec_options(),
    {
        let ghost opts = self.options;
        let ghost goal = register_outcome(
            opts,
            self.spec_faces(),
            self.accepted_total_bytes as int,
            faces@,
            0,
        );
        let limit = self.selectable_faces_limit();
        let mut accepted: usize = 0;
        let mut i: usize = 0;
        proof {
            lemma_payload_total_prefix(faces@, 0);
        }
        while i < faces.len() && self.faces.len() < limit
            invariant
                i <= faces.len(),
                self.options == opts,
                limit == face_limit(opts),
                accepted <= i,
                opts.max_total_face_bytes < usize::MAX || self.accepted_total_bytes + payload_total(
                    faces@.skip(i as int),
                ) <= usize::MAX,
                ({
                    let rest = register_outcome(
                        opts,
                        self.spec_faces(),
                        self.accepted_total_bytes as int,
                        faces@,
                        i as int,
                    );
                    &&& rest.0 == goal.0
                    &&& rest.1 == goal.1
                    &&& accepted + rest.2 == goal.2
                }),
            decreases faces.len() - i,
        {
            let face = &faces[i];
            let bytes = face.data.len();
            proof {
                lemma_payload_total_skip(faces@, i as int);
            }
            if bytes > self.options.max_face_bytes {
                i += 1;
                continue;
            }
            if self.accepted_total_bytes.saturating_add(bytes) > self.options.max_total_face_bytes {
                i += 1;
                continue;
            }
            let metrics = match parse_ttf_face_metrics(face.data) {
                Some(m) => m,
                None => {
                    i += 1;
                    continue;
                },
            };
            let family_norm = normalize_font_family(face.family);
            let ghost before = self.spec_faces();
            self.faces.push(
                TtfFaceEntry { family_norm, weight: face.weight, italic: face.italic, metrics },
            );
            assert(self.spec_faces() =~= before.push(
                (normalized_family(face.family@), face.weight, face.italic, metrics),
            ));
            self.accepted_total_bytes = self.accepted_total_bytes + bytes;
            accepted += 1;
            i += 1;
        }
        proof {
            let rest = register_outcome(
                opts,
                self.spec_faces(),
                self.accepted_total_bytes as int,
                faces@,
                i as int,
            );
            assert(rest.2 == 0);
        }
        accepted
    }
}

proof fn lemma_payload_total_prefix(faces: Seq<FontFaceRegistration>, i: int)
    requires
        i == 0,
    ensures
        faces.skip(i) == faces,
{
    assert(faces.skip(0) =~= faces);
}

/// Payload of `faces[i..]` is that of `faces[i]` plus that of `faces[i + 1..]`.
proof fn lemma_payload_total_skip(faces: Seq<FontFaceRegistration>, i: int)
    requires
        0 <= i < faces.len(),
    ensures
        payload_total(faces.skip(i)) == faces[i].data@.len() + payload_total(faces.skip(i + 1)),
        payload_total(faces.skip(i + 1)) >= 0,
    decreases faces.len(),
{
    lemma_payload_total_nonneg(faces.skip(i + 1));
    if i == faces.len() - 1 {
        assert(faces.skip(i).drop_last() =~= Seq::<FontFaceRegistration>::empty());
        assert(faces.skip(i + 1) =~= Seq::<FontFaceRegistration>::empty());
    } else {
        lemma_payload_total_skip(faces.drop_last(), i);
        assert(faces.skip(i).drop_last() =~= faces.drop_last().skip(i));
        assert(faces.skip(i + 1).drop_last() =~= faces.drop_last().skip(i + 1));
    }
}

proof fn lemma_payload_total_nonneg(faces: Seq<FontFaceRegistration>)
    ensures
        payload_total(faces) >= 0,
    decreases faces.len(),
{
    if faces.len() > 0 {
        lemma_payload_total_nonneg(faces.drop_last());
    }
}

/// Whether a normalised family is a generic CSS family, which any face serves.
pub open spec fn generic_family(req: Seq<char>) -> bool {
    req == "serif"@ || req == "sans-serif"@ || req == "sans"@ || req == "monospace"@ || req
        == "mono"@ || req == "fixed"@
}

/// Whether a face serves the requested family.
pub open spec fn face_family_matches(face: FaceView, req: Seq<char>) -> bool {
    face.0 == req || generic_family(req)
}

/// Mismatch score of a face: 450 for another family, 70 for another slant,
/// plus the weight difference.
pub open spec fn face_score(face: FaceView, req: Seq<char>, weight: u16, italic: bool) -> int {
    (if face_family_matches(face, req) {
        0int
    } else {
        450int
    }) + (if face.2 == italic {
        0int
    } else {
        70int
    }) + (if face.1 >= weight {
        face.1 - weight
    } else {
        weight - face.1
    })
}

/// Best face among the first `k`: lowest score, earliest on ties; with its
/// score and whether it serves the family.
pub open spec fn best_face(faces: Seq<FaceView>, req: Seq<char>, weight: u16, italic: bool, k: int) -> Option<(int, int, bool)>
    decreases k,
{
    if k <= 0 {
        None
    } else {
        let prev = best_face(faces, req, weight, italic, k - 1);
        let sc = face_score(faces[k - 1], req, weight, italic);
        match prev {
            Some((_, best_score, _)) => if sc >= best_score {
                prev
            } else {
                Some((k - 1, sc, face_family_matches(faces[k - 1], req)))
            },
            None => Some((k - 1, sc, face_family_matches(faces[k - 1], req))),
        }
    }
}

/// The face chosen among the first `k` scores no worse than any of them and
/// better than every earlier one.
pub proof fn law_best_face_is_first_minimum(
    faces: Seq<FaceView>,
    req: Seq<char>,
    weight: u16,
    italic: bool,
    k: int,
)
    requires
        0 <= k <= faces.len(),
    ensures
        best_face(faces, req, weight, italic, k) is None <==> k == 0,
        best_face(faces, req, weight, italic, k) matches Some((idx, sc, fm)) ==> {
            &&& 0 <= idx < k
            &&& sc == face_score(faces[idx], req, weight, italic)
            &&& fm == face_family_matches(faces[idx], req)
            &&& forall|j: int| 0 <= j < k ==> face_score(#[trigger] faces[j], req, weight, italic) >= sc
            &&& forall|j: int| 0 <= j < idx ==> face_score(#[trigger] faces[j], req, weight, italic) > sc
        },
    decreases k,
{
    if k > 0 {
        law_best_face_is_first_minimum(faces, req, weight, italic, k - 1);
    }
}

/// Normalised request that names a family.
fn is_generic_family(req: &Vec<char>) -> (r: bool)
    ensures
        r == generic_family(req@),
{
    chars_eq_str(req, "serif") || chars_eq_str(req, "sans-serif") || chars_eq_str(req, "sans")
        || chars_eq_str(req, "monospace") || chars_eq_str(req, "mono") || chars_eq_str(req, "fixed")
}

impl TtfFontBackend {
    /// Face that best serves a style, with whether it serves the family.
    pub fn select_face_index(&self, family: &str, weight: u16, italic: bool) -> (r: Option<(usize, bool)>)
        ensures
            match best_face(
                self.spec_faces(),
                normalized_family(family@),
                weight,
                italic,
                self.spec_faces().len() as int,
            ) {
                Some((idx, _, fm)) => r == Some((idx as usize, fm)),
                None => r is None,
            },
    {
        let requested = normalize_font_family(family);
        let req = chars_of(requested.as_str());
        let generic = is_generic_family(&req);
        let mut best: Option<(usize, i32, bool)> = None;
        let mut idx: usize = 0;
        while idx < self.faces.len()
            invariant
                idx <= self.faces.len(),
                req@ == normalized_family(family@),
                requested@ == req@,
                generic == generic_family(req@),
                match best_face(self.spec_faces(), req@, weight, italic, idx as int) {
                    Some((bi, bs, bf)) => best == Some((bi as usize, bs as i32, bf)) && 0 <= bi < idx
                        && 0 <= bs <= 65535 + 520,
                    None => best is None,
                },
            decreases self.faces.len() - idx,
        {
            let face = &self.faces[idx];
            let same_family = crate::text::str_eq(face.family_norm.as_str(), requested.as_str());
            let family_matches = same_family || generic;
            let family_penalty: i32 = if family_matches {
                0
            } else {
                450
            };
            let italic_penalty: i32 = if face.italic == italic {
                0
            } else {
                70
            };
            let weight_penalty: i32 = if face.weight >= weight {
                (face.weight - weight) as i32
            } else {
                (weight - face.weight) as i32
            };
            let score = family_penalty + italic_penalty + weight_penalty;
            proof {
                assert(self.spec_faces()[idx as int] == face_view(self.faces@[idx as int]));
                assert(requested@ == req@);
                assert(family_matches == face_family_matches(self.spec_faces()[idx as int], req@));
                assert(score as int == face_score(self.spec_faces()[idx as int], req@, weight, italic));
            }
            match best {
                Some((_, best_score, _)) => {
                    if score < best_score {
                        best = Some((idx, score, family_matches));
                    }
                },
                None => {
                    best = Some((idx, score, family_matches));
                },
            }
            idx += 1;
        }
        match best {
            Some((i, _, fm)) => Some((i, fm)),
            None => None,
        }
    }

    /// Metrics of a TrueType font id naming an accepted face; `None` when
    /// the id is a mono id or names no accepted face.
    pub fn metrics(&self, font_id: FontId) -> (r: Option<FontMetrics>)
        ensures
            match decode_ttf(font_id) {
                Some((idx, bucket)) => if idx < self.spec_faces().len() {
                    r == Some(
                        FontMetrics {
                            char_width: scaled_metric(
                                self.spec_faces()[idx].3.avg_advance,
                                self.spec_faces()[idx].3.units_per_em,
                                bucket,
                            ),
                            space_width: scaled_metric(
                                self.spec_faces()[idx].3.space_advance,
                                self.spec_faces()[idx].3.units_per_em,
                                bucket,
                            ),
                        },
                    )
                } else {
                    r is None
                },
                None => r is None,
            },
    {
        if let Some((face_idx, size_bucket)) = decode_ttf_font_id(font_id) {
            if face_idx < self.faces.len() {
                let m = self.faces[face_idx].metrics;
                proof {
                    assert(self.spec_faces()[face_idx as int] == face_view(self.faces@[face_idx as int]));
                }
                return Some(
                    FontMetrics {
                        char_width: scaled_metric_px(m.avg_advance, m.units_per_em, size_bucket),
                        space_width: scaled_metric_px(m.space_advance, m.units_per_em, size_bucket),
                    },
                );
            }
        }
        None
    }

    /// Mono font id that draws text for `font_id`: for an accepted face, the
    /// mono id of its size bucket and style; otherwise `font_id` itself.
    pub fn surrogate_mono_font_id(&self, font_id: FontId) -> (r: FontId)
        ensures
            match decode_ttf(font_id) {
                Some((idx, bucket)) => if idx < self.spec_faces().len() {
                    r == mono_font_id(
                        bucket,
                        mono_variant(self.spec_faces()[idx].1, self.spec_faces()[idx].2),
                    )
                } else {
                    r == font_id
                },
                None => r == font_id,
            },
    {
        if let Some((face_idx, size_bucket)) = decode_ttf_font_id(font_id) {
            if face_idx < self.faces.len() {
                let face = &self.faces[face_idx];
                proof {
                    assert(self.spec_faces()[face_idx as int] == face_view(self.faces@[face_idx as int]));
                }
                let variant = MonoFontBackend::style_variant_for_weight_italic(
                    face.weight,
                    face.italic,
                );
                return MonoFontBackend::encode_font_id(size_bucket, variant);
            }
        }
        font_id
    }

    /// Font selection for a style given its size bucket, and whether an
    /// accepted face was used.
    ///
    /// An explicit id beyond `u8` falls back to the mono selection with
    /// reason `UnknownFontId`; an explicit TrueType id is used as is when it
    /// names an accepted face and falls back likewise otherwise; an explicit
    /// mono id is ignored. Without faces the mono selection is used with
    /// reason `BackendUnavailable`; else the best face is used, with reason
    /// `UnknownFamily` when it does not serve the family.
    pub fn resolve_font(
        &self,
        family: &str,
        size_bucket: FontId,
        weight: u16,
        italic: bool,
        font_id: Option<u32>,
    ) -> (r: (FontSelection, bool))
        ensures
            r == ttf_selection(
                self.spec_faces(),
                family@,
                size_bucket,
                weight,
                italic,
                font_id,
            ),
    {
        if let Some(explicit_id) = font_id {
            if explicit_id > 255 {
                let sel = MonoFontBackend::resolve_font(family, size_bucket, weight, italic, font_id);
                return (
                    FontSelection {
                        font_id: sel.font_id,
                        fallback_reason: Some(FontFallbackReason::UnknownFontId),
                    },
                    false,
                );
            }
            let fid = explicit_id as u8;
            if let Some((face_idx, _)) = decode_ttf_font_id(fid) {
                if face_idx < self.faces.len() {
                    return (FontSelection { font_id: fid, fallback_reason: None }, true);
                }
                let sel = MonoFontBackend::resolve_font(
                    family,
                    size_bucket,
                    weight,
                    italic,
                    Some(explicit_id),
                );
                return (
                    FontSelection {
                        font_id: sel.font_id,
                        fallback_reason: Some(FontFallbackReason::UnknownFontId),
                    },
                    false,
                );
            }
        }
        match self.select_face_index(family, weight, italic) {
            None => {
                let sel = MonoFontBackend::resolve_font(family, size_bucket, weight, italic, font_id);
                (
                    FontSelection {
                        font_id: sel.font_id,
                        fallback_reason: Some(FontFallbackReason::BackendUnavailable),
                    },
                    false,
                )
            },
            Some((face_idx, exact)) => {
                (
                    FontSelection {
                        font_id: encode_ttf_font_id(face_idx, size_bucket),
                        fallback_reason: if exact {
                            None
                        } else {
                            Some(FontFallbackReason::UnknownFamily)
                        },
                    },
                    true,
                )
            },
        }
    }
}

/// Decoded TrueType font id.
pub open spec fn decode_ttf(font_id: u8) -> Option<(int, u8)> {
    if font_id & 0x80u8 == 0 {
        None
    } else {
        Some(((font_id & 0x1fu8) as int, ((font_id & 0x60u8) >> 5u8) as u8))
    }
}

/// Scaled metric as `scaled_metric_px` computes it.
pub open spec fn scaled_metric(metric_units: u16, units_per_em: u16, size_bucket: u8) -> i32 {
    if units_per_em == 0 {
        1
    } else {
        at_least_one(
            (metric_units * at_least_one(MonoFontBackend::spec_size_bucket_px(size_bucket) as int)
                + units_per_em - 1) / (units_per_em as int),
        ) as i32
    }
}

/// Selection made by the TrueType backend, and whether a face was used.
pub open spec fn ttf_selection(
    faces: Seq<FaceView>,
    family: Seq<char>,
    size_bucket: u8,
    weight: u16,
    italic: bool,
    font_id: Option<u32>,
) -> (FontSelection, bool) {
    let mono = mono_selection(trim_lower(family), size_bucket, weight, italic, font_id);
    let best = best_face(faces, normalized_family(family), weight, italic, faces.len() as int);
    let explicit: u32 = match font_id {
        Some(id) => id,
        None => 0,
    };
    if font_id is Some && explicit > 255 {
        (FontSelection { font_id: mono.font_id, fallback_reason: Some(FontFallbackReason::UnknownFontId) }, false)
    } else if font_id is Some && decode_ttf(explicit as u8) is Some {
        let (face_idx, _) = decode_ttf(explicit as u8)->0;
        if face_idx < faces.len() {
            (FontSelection { font_id: explicit as u8, fallback_reason: None }, true)
        } else {
            (FontSelection { font_id: mono.font_id, fallback_reason: Some(FontFallbackReason::UnknownFontId) }, false)
        }
    } else {
        match best {
            None => (FontSelection { font_id: mono.font_id, fallback_reason: Some(FontFallbackReason::BackendUnavailable) }, false),
            Some((idx, _, fm)) => (
                FontSelection {
                    font_id: ttf_font_id(idx as usize, size_bucket),
                    fallback_reason: if fm {
                        None
                    } else {
                        Some(FontFallbackReason::UnknownFamily)
                    },
                },
                true,
            ),
        }
    }
}

/// The bitmap face for each size bucket (0 small, 1 medium, 2 large, 3
/// extra large) and style variant (0 regular, 1 italic, 2 bold, 3 bold
/// italic), with the reason when it stands in for the requested style; any
/// other bucket or variant draws 8x13 as an unknown font id.
pub proof fn law_mono_faces(size_bucket: u8, variant: u8)
    ensures
        size_bucket == 0 && variant == 0 ==> mono_face_for(size_bucket, variant) == (MonoFontFace::Font6x9, None::<FontFallbackReason>),
        size_bucket == 0 && variant == 1 ==> mono_face_for(size_bucket, variant) == (MonoFontFace::Font6x13Italic, None::<FontFallbackReason>),
        size_bucket == 0 && variant == 2 ==> mono_face_for(size_bucket, variant) == (MonoFontFace::Font6x13Bold, None::<FontFallbackReason>),
        size_bucket == 0 && variant == 3 ==> mono_face_for(size_bucket, variant) == (MonoFontFace::Font6x13Bold, Some(FontFallbackReason::UnsupportedWeightItalic)),
        size_bucket == 1 && variant == 0 ==> mono_face_for(size_bucket, variant) == (MonoFontFace::Font7x14, None::<FontFallbackReason>),
        size_bucket == 1 && variant == 1 ==> mono_face_for(size_bucket, variant) == (MonoFontFace::Font7x13Italic, None::<FontFallbackReason>),
        size_bucket == 1 && variant == 2 ==> mono_face_for(size_bucket, variant) == (MonoFontFace::Font7x14Bold, None::<FontFallbackReason>),
        size_bucket == 1 && variant == 3 ==> mono_face_for(size_bucket, variant) == (MonoFontFace::Font7x14Bold, Some(FontFallbackReason::UnsupportedWeightItalic)),
        size_bucket == 2 && variant == 0 ==> mono_face_for(size_bucket, variant) == (MonoFontFace::Font8x13, None::<FontFallbackReason>),
        size_bucket == 2 && variant == 1 ==> mono_face_for(size_bucket, variant) == (MonoFontFace::Font8x13Italic, None::<FontFallbackReason>),
        size_bucket == 2 && variant == 2 ==> mono_face_for(size_bucket, variant) == (MonoFontFace::Font8x13Bold, None::<FontFallbackReason>),
        size_bucket == 2 && variant == 3 ==> mono_face_for(size_bucket, variant) == (MonoFontFace::Font8x13Bold, Some(FontFallbackReason::UnsupportedWeightItalic)),
        size_bucket == 3 && variant == 0 ==> mono_face_for(size_bucket, variant) == (MonoFontFace::Font10x20, None::<FontFallbackReason>),
        size_bucket == 3 && variant == 1 ==> mono_face_for(size_bucket, variant) == (MonoFontFace::Font9x18, Some(FontFallbackReason::UnsupportedWeightItalic)),
        size_bucket == 3 && variant == 2 ==> mono_face_for(size_bucket, variant) == (MonoFontFace::Font9x18Bold, None::<FontFallbackReason>),
        size_bucket == 3 && variant == 3 ==> mono_face_for(size_bucket, variant) == (MonoFontFace::Font9x18Bold, Some(FontFallbackReason::UnsupportedWeightItalic)),
        size_bucket > 3 || variant > 3 ==> mono_face_for(size_bucket, variant) == (MonoFontFace::Font8x13, Some(FontFallbackReason::UnknownFontId)),
{
}

/// The families the mono fonts stand for: `monospace`, `mono`, `fixed`,
/// `serif` and `sans-serif`.
pub proof fn law_mono_families(key: Seq<char>)
    ensures
        key == "monospace"@ || key == "mono"@ || key == "fixed"@ || key == "serif"@ || key == "sans-serif"@ ==> mono_family_supported(key) == true,
        key != "monospace"@ && key != "mono"@ && key != "fixed"@ && key != "serif"@ && key != "sans-serif"@ ==> mono_family_supported(key) == false,
{
    reveal_strlit("monospace");
    reveal_strlit("mono");
    reveal_strlit("fixed");
    reveal_strlit("serif");
    reveal_strlit("sans-serif");
    assert("monospace"@ != "mono"@) by { assert("monospace"@.len() != "mono"@.len()); }
    assert("monospace"@ != "fixed"@) by { assert("monospace"@.len() != "fixed"@.len()); }
    assert("monospace"@ != "serif"@) by { assert("monospace"@.len() != "serif"@.len()); }
    assert("monospace"@ != "sans-serif"@) by { assert("monospace"@.len() != "sans-serif"@.len()); }
    assert("mono"@ != "fixed"@) by { assert("mono"@.len() != "fixed"@.len()); }
    assert("mono"@ != "serif"@) by { assert("mono"@.len() != "serif"@.len()); }
    assert("mono"@ != "sans-serif"@) by { assert("mono"@.len() != "sans-serif"@.len()); }
    assert("fixed"@ != "serif"@) by { assert("fixed"@[0] != "serif"@[0]); }
    assert("fixed"@ != "sans-serif"@) by { assert("fixed"@.len() != "sans-serif"@.len()); }
    assert("serif"@ != "sans-serif"@) by { assert("serif"@.len() != "sans-serif"@.len()); }
}

/// Bold from weight 700, italic when slanted: variant 3 for both, 2 for
/// bold, 1 for italic, 0 otherwise.
pub proof fn law_mono_variants(weight: u16, italic: bool)
    ensures
        mono_variant(weight, italic) == (if weight >= 700 { 2u8 } else { 0u8 }) + (if italic { 1u8 } else { 0u8 }),
{
}

} // verus!
