use vstd::prelude::*;

use crate::render_ir::{PageChromeConfig, PageChromeKind, PageChromeTextStyle};
use crate::text::{chars_of, trim_bounds, trim_seq};

verus! {

/// Backend-local font identifier used for metrics and rasterization dispatch.
pub type FontId = u8;

/// Why style-to-font mapping had to fall back to a default face.
#[derive(Clone, Copy, Debug, PartialEq, Eq)]
pub enum FontFallbackReason {
    UnknownFamily,
    UnknownFontId,
    UnsupportedWeightItalic,
    BackendUnavailable,
}

/// Resolved font selection for a text style.
#[derive(Clone, Copy, Debug, PartialEq, Eq)]
pub struct FontSelection {
    pub font_id: FontId,
    pub fallback_reason: Option<FontFallbackReason>,
}

/// Backend-provided metrics for a specific font id.
#[derive(Clone, Copy, Debug, PartialEq, Eq)]
pub struct FontMetrics {
    pub char_width: i32,
    pub space_width: i32,
}

/// Backend rendering capabilities used by callers for graceful degradation.
#[derive(Clone, Copy, Debug, PartialEq, Eq)]
pub struct BackendCapabilities {
    pub ttf: bool,
    pub images: bool,
    pub svg: bool,
    pub justification: bool,
}

/// Limits for the in-memory image registry.
#[derive(Clone, Copy, Debug, PartialEq, Eq)]
pub struct ImageRegistryLimits {
    /// Maximum number of registered images.
    pub max_images: usize,
    /// Maximum aggregate pixel count across all registered images.
    pub max_total_pixels: usize,
}

impl Default for ImageRegistryLimits {
    /// Zero limits: the registry starts disabled.
    fn default() -> (r: Self)
        ensures
            r.max_images == 0,
            r.max_total_pixels == 0,
    {
        ImageRegistryLimits { max_images: 0, max_total_pixels: 0 }
    }
}

/// Error returned when image registration fails.
#[derive(Clone, Copy, Debug, PartialEq, Eq)]
pub enum ImageRegistryError {
    RegistryDisabled,
    EmptySource,
    InvalidDimensions,
    InvalidPixelData,
    MaxImagesExceeded,
    MaxTotalPixelsExceeded,
}

/// Bytes needed for `pixels` packed bits, eight to a byte.
pub open spec fn packed_len(pixels: int) -> int {
    (pixels + 7) / 8
}

/// Whether bit `bit` (row-major, most significant bit first) of packed data is set.
pub open spec fn packed_bit_on(data: Seq<u8>, bit: int) -> bool {
    (data[bit / 8] >> ((7 - bit % 8) as u8)) & 1u8 == 1u8
}

/// Pre-decoded monochrome bitmap stored in packed row-major bits.
#[derive(Clone, Debug, PartialEq, Eq)]
pub struct MonochromeBitmap {
    width: u32,
    height: u32,
    pixels: Vec<u8>,
}

impl MonochromeBitmap {
    pub closed spec fn spec_width(&self) -> u32 {
        self.width
    }

    pub closed spec fn spec_height(&self) -> u32 {
        self.height
    }

    pub closed spec fn spec_pixels(&self) -> Seq<u8> {
        self.pixels@
    }

    /// Number of pixels of the bitmap.
    pub open spec fn spec_pixel_count(&self) -> int {
        self.spec_width() * self.spec_height()
    }

    /// Non-empty dimensions whose pixel count fits in `u32`, and exactly the
    /// packed bytes those pixels need.
    pub open spec fn wf(&self) -> bool {
        &&& self.spec_width() > 0
        &&& self.spec_height() > 0
        &&& self.spec_pixel_count() <= u32::MAX
        &&& self.spec_pixels().len() == packed_len(self.spec_pixel_count())
    }

    /// Construct a bitmap from packed row-major bits.
    pub fn from_packed_bits(width: u32, height: u32, pixels: Vec<u8>) -> (r: Result<
        Self,
        ImageRegistryError,
    >)
        ensures
            width == 0 || height == 0 || width * height > u32::MAX ==> r == Err::<
                Self,
                ImageRegistryError,
            >(ImageRegistryError::InvalidDimensions),
            width > 0 && height > 0 && width * height <= u32::MAX && pixels@.len() != packed_len(
                width * height,
            ) ==> r == Err::<Self, ImageRegistryError>(ImageRegistryError::InvalidPixelData),
            r matches Ok(b) ==> b.wf() && b.spec_width() == width && b.spec_height() == height
                && b.spec_pixels() == pixels@,
            width > 0 && height > 0 && width * height <= u32::MAX && pixels@.len() == packed_len(
                width * height,
            ) ==> r is Ok,
    {
        if width == 0 || height == 0 {
            return Err(ImageRegistryError::InvalidDimensions);
        }
        let required_bytes = match Self::required_bytes(width, height) {
            Some(n) => n,
            None => {
                return Err(ImageRegistryError::InvalidDimensions);
            },
        };
        if pixels.len() != required_bytes {
            return Err(ImageRegistryError::InvalidPixelData);
        }
        Ok(Self { width, height, pixels })
    }

    /// Width in pixels.
    pub fn width(&self) -> (r: u32)
        ensures
            r == self.spec_width(),
    {
        self.width
    }

    /// Height in pixels.
    pub fn height(&self) -> (r: u32)
        ensures
            r == self.spec_height(),
    {
        self.height
    }

    /// Total pixel count.
    pub fn pixel_count(&self) -> (r: usize)
        requires
            self.wf(),
        ensures
            r == self.spec_pixel_count(),
    {
        assert(self.width * self.height <= u32::MAX);
        self.width as usize * self.height as usize
    }

    /// Packed bytes for a `width` x `height` bitmap, when its pixel count fits
    /// in `u32`.
    pub fn required_bytes(width: u32, height: u32) -> (r: Option<usize>)
        ensures
            width * height <= u32::MAX ==> r == Some(packed_len(width * height) as usize),
            width * height > u32::MAX ==> r is None,
    {
        proof {
            lemma_u32_product_fits(width, height);
        }
        let product: u64 = width as u64 * height as u64;
        if product > u32::MAX as u64 {
            return None;
        }
        Some(((product + 7) / 8) as usize)
    }

    /// Whether pixel `(x, y)` is set; pixels outside the bitmap are off.
    pub fn pixel_is_on(&self, x: u32, y: u32) -> (r: bool)
        requires
            self.wf(),
        ensures
            r == (x < self.spec_width() && y < self.spec_height() && packed_bit_on(
                self.spec_pixels(),
                y * self.spec_width() + x,
            )),
    {
        if x >= self.width || y >= self.height {
            return false;
        }
        proof {
            lemma_bit_index_in_bounds(x as int, y as int, self.width as int, self.height as int);
        }
        let bit_index: usize = y as usize * self.width as usize + x as usize;
        let byte_index = bit_index / 8;
        let bit_in_byte: u8 = (7 - (bit_index % 8)) as u8;
        ((self.pixels[byte_index] >> bit_in_byte) & 1u8) == 1u8
    }
}

pub(crate) proof fn lemma_u32_product_fits(a: u32, b: u32)
    ensures
        0 <= a * b <= 0xffff_fffe_0000_0001,
{
    assert(0 <= a * b <= 0xffff_ffff * 0xffff_ffff) by (nonlinear_arith)
        requires
            0 <= a <= 0xffff_ffff,
            0 <= b <= 0xffff_ffff,
    ;
}

proof fn lemma_bit_index_in_bounds(x: int, y: int, w: int, h: int)
    requires
        0 <= x < w,
        0 <= y < h,
    ensures
        0 <= y * w + x < w * h,
        (y * w + x) / 8 < (w * h + 7) / 8,
{
    assert(y * w + x < w * h) by (nonlinear_arith)
        requires
            0 <= x < w,
            0 <= y < h,
    ;
    assert(0 <= y * w) by (nonlinear_arith)
        requires
            0 <= y,
            0 <= w,
    ;
}

/// A registered image: its source key and its bitmap.
#[derive(Clone, Debug)]
pub struct ImageRegistryEntry {
    pub src: String,
    pub bitmap: MonochromeBitmap,
}

/// Whether a source key is blank (empty once trimmed).
pub open spec fn blank_source(src: Seq<char>) -> bool {
    trim_seq(src).len() == 0
}

/// Whether limits leave the registry enabled.
pub open spec fn registry_enabled(limits: ImageRegistryLimits) -> bool {
    limits.max_images > 0 && limits.max_total_pixels > 0
}

/// What a renderer reports: its backend's flags, with images on as soon as
/// either the backend draws them or the image registry is enabled.
pub open spec fn with_registry_images(backend: BackendCapabilities, limits: ImageRegistryLimits) -> BackendCapabilities {
    BackendCapabilities { images: backend.images || registry_enabled(limits), ..backend }
}

/// Capabilities of a renderer built on a backend with the given flags and an
/// image registry with the given limits.
pub fn renderer_capabilities(backend: BackendCapabilities, limits: ImageRegistryLimits) -> (r: BackendCapabilities)
    ensures
        r == with_registry_images(backend, limits),
{
    let mut capabilities = backend;
    capabilities.images = capabilities.images || (limits.max_images > 0 && limits.max_total_pixels > 0);
    capabilities
}

/// `a + b`, saturating at `usize::MAX`.
pub open spec fn sat_add_usize(a: int, b: int) -> int {
    if a + b > usize::MAX {
        usize::MAX as int
    } else {
        a + b
    }
}

/// `a - b`, saturating at zero.
pub open spec fn sat_sub_usize(a: int, b: int) -> int {
    if a < b {
        0
    } else {
        a - b
    }
}

/// Sum of the pixel counts of registered images.
pub open spec fn pixel_sum(entries: Seq<(Seq<char>, MonochromeBitmap)>) -> int
    decreases entries.len(),
{
    if entries.len() == 0 {
        0
    } else {
        pixel_sum(entries.drop_last()) + entries.last().1.spec_pixel_count()
    }
}

/// Index of the first entry registered under `src`, or `entries.len()`.
pub open spec fn entry_index(entries: Seq<(Seq<char>, MonochromeBitmap)>, src: Seq<char>, i: int) -> int
    decreases entries.len() - i,
{
    if i >= entries.len() || i < 0 {
        entries.len() as int
    } else if entries[i].0 == src {
        i
    } else {
        entry_index(entries, src, i + 1)
    }
}

/// Bitmap registered under `src`, if any.
pub open spec fn lookup_bitmap(entries: Seq<(Seq<char>, MonochromeBitmap)>, src: Seq<char>) -> Option<MonochromeBitmap> {
    let k = entry_index(entries, src, 0);
    if k < entries.len() {
        Some(entries[k].1)
    } else {
        None
    }
}

pub proof fn lemma_entry_index_bounds(entries: Seq<(Seq<char>, MonochromeBitmap)>, src: Seq<char>, i: int)
    requires
        0 <= i <= entries.len(),
    ensures
        i <= entry_index(entries, src, i) <= entries.len(),
        entry_index(entries, src, i) < entries.len() ==> entries[entry_index(entries, src, i)].0
            == src,
        forall|j: int| i <= j < entry_index(entries, src, i) ==> entries[j].0 != src,
    decreases entries.len() - i,
{
    if i < entries.len() && entries[i].0 != src {
        lemma_entry_index_bounds(entries, src, i + 1);
    }
}

/// Summing after replacing one entry.
pub proof fn lemma_pixel_sum_update(
    entries: Seq<(Seq<char>, MonochromeBitmap)>,
    k: int,
    e: (Seq<char>, MonochromeBitmap),
)
    requires
        0 <= k < entries.len(),
    ensures
        pixel_sum(entries.update(k, e)) == pixel_sum(entries) - entries[k].1.spec_pixel_count()
            + e.1.spec_pixel_count(),
    decreases entries.len(),
{
    let u = entries.update(k, e);
    if k == entries.len() - 1 {
        assert(u.drop_last() =~= entries.drop_last());
    } else {
        lemma_pixel_sum_update(entries.drop_last(), k, e);
        assert(u.drop_last() =~= entries.drop_last().update(k, e));
    }
}

/// In-memory registry of pre-decoded bitmaps keyed by resource source.
#[derive(Clone, Debug)]
pub struct ImageRegistry {
    limits: ImageRegistryLimits,
    total_pixels: usize,
    entries: Vec<ImageRegistryEntry>,
}

impl ImageRegistry {
    pub closed spec fn spec_limits(&self) -> ImageRegistryLimits {
        self.limits
    }

    pub closed spec fn spec_total_pixels(&self) -> usize {
        self.total_pixels
    }

    /// Registered images in registration order: source and bitmap.
    pub closed spec fn spec_entries(&self) -> Seq<(Seq<char>, MonochromeBitmap)> {
        self.entries@.map_values(|e: ImageRegistryEntry| (e.src@, e.bitmap))
    }

    /// Registry invariant: valid bitmaps under distinct, non-blank sources, and
    /// when anything is registered the limits are enabled and respected.
    pub open spec fn wf(&self) -> bool {
        let es = self.spec_entries();
        &&& forall|i: int| 0 <= i < es.len() ==> (#[trigger] es[i]).1.wf() && !blank_source(es[i].0)
        &&& forall|i: int, j: int| 0 <= i < j < es.len() ==> (#[trigger] es[i]).0 != (#[trigger] es[j]).0
        &&& es.len() == 0 ==> self.spec_total_pixels() == 0
        &&& es.len() > 0 ==> {
            &&& registry_enabled(self.spec_limits())
            &&& es.len() <= self.spec_limits().max_images
            &&& self.spec_total_pixels() <= self.spec_limits().max_total_pixels
        }
    }

    /// Empty registry with the given limits.
    pub fn with_limits(limits: ImageRegistryLimits) -> (r: Self)
        ensures
            r.wf(),
            r.spec_limits() == limits,
            r.spec_total_pixels() == 0,
            r.spec_entries().len() == 0,
    {
        let r = Self { limits, total_pixels: 0, entries: Vec::new() };
        assert(r.spec_entries() =~= Seq::<(Seq<char>, MonochromeBitmap)>::empty());
        r
    }

    /// Current limits.
    pub fn limits(&self) -> (r: ImageRegistryLimits)
        ensures
            r == self.spec_limits(),
    {
        self.limits
    }

    /// Number of registered images.
    pub fn len(&self) -> (r: usize)
        ensures
            r == self.spec_entries().len(),
    {
        self.entries.len()
    }

    /// Aggregate pixel count of registered images.
    pub fn total_pixels(&self) -> (r: usize)
        ensures
            r == self.spec_total_pixels(),
    {
        self.total_pixels
    }

    /// Replaces the limits. Disabling limits (a zero maximum) is accepted only
    /// on an empty registry; other limits must admit what is registered. On
    /// refusal nothing changes.
    pub fn set_limits(&mut self, limits: ImageRegistryLimits) -> (r: Result<(), ImageRegistryError>)
        requires
            old(self).wf(),
        ensures
            final(self).wf(),
            r is Err ==> *final(self) == *old(self),
            !registry_enabled(limits) && old(self).spec_entries().len() > 0 ==> r == Err::<
                (),
                ImageRegistryError,
            >(ImageRegistryError::RegistryDisabled),
            registry_enabled(limits) && old(self).spec_entries().len() > limits.max_images ==> r
                == Err::<(), ImageRegistryError>(ImageRegistryError::MaxImagesExceeded),
            registry_enabled(limits) && old(self).spec_entries().len() <= limits.max_images
                && old(self).spec_total_pixels() > limits.max_total_pixels ==> r == Err::<
                (),
                ImageRegistryError,
            >(ImageRegistryError::MaxTotalPixelsExceeded),
            r is Ok ==> {
                &&& final(self).spec_limits() == limits
                &&& final(self).spec_entries() == old(self).spec_entries()
                &&& final(self).spec_total_pixels() == (if registry_enabled(limits) {
                    old(self).spec_total_pixels()
                } else {
                    0
                })
            },
            (!registry_enabled(limits) && old(self).spec_entries().len() == 0) || (registry_enabled(
                limits,
            ) && old(self).spec_entries().len() <= limits.max_images
                && old(self).spec_total_pixels() <= limits.max_total_pixels) ==> r is Ok,
    {
        if limits.max_images == 0 || limits.max_total_pixels == 0 {
            if self.entries.len() == 0 {
                self.limits = limits;
                self.total_pixels = 0;
                return Ok(());
            }
            return Err(ImageRegistryError::RegistryDisabled);
        }
        if self.entries.len() > limits.max_images {
            return Err(ImageRegistryError::MaxImagesExceeded);
        }
        if self.total_pixels > limits.max_total_pixels {
            return Err(ImageRegistryError::MaxTotalPixelsExceeded);
        }
        self.limits = limits;
        Ok(())
    }

    fn find_entry(&self, src: &str) -> (r: usize)
        ensures
            r == entry_index(self.spec_entries(), src@, 0),
    {
        proof {
            lemma_entry_index_bounds(self.spec_entries(), src@, 0);
        }
        let mut i: usize = 0;
        while i < self.entries.len()
            invariant
                i <= self.entries.len(),
                entry_index(self.spec_entries(), src@, i as int) == entry_index(
                    self.spec_entries(),
                    src@,
                    0,
                ),
            decreases self.entries.len() - i,
        {
            if crate::text::str_eq(self.entries[i].src.as_str(), src) {
                return i;
            }
            i += 1;
        }
        i
    }

    /// Registers (or replaces) the bitmap for `src`.
    ///
    /// Refused, with nothing changed: a blank source; a disabled registry; a
    /// replacement or addition whose pixel total (saturating) would exceed the
    /// limit; an addition beyond the image limit. A replacement keeps the
    /// entry's position.
    pub fn register(&mut self, src: String, bitmap: MonochromeBitmap) -> (r: Result<
        (),
        ImageRegistryError,
    >)
        requires
            old(self).wf(),
            bitmap.wf(),
        ensures
            final(self).wf(),
            r is Err ==> *final(self) == *old(self),
            final(self).spec_limits() == old(self).spec_limits(),
            ({
                let es = old(self).spec_entries();
                let k = entry_index(es, src@, 0);
                let lim = old(self).spec_limits();
                let total = old(self).spec_total_pixels() as int;
                let new_px = bitmap.spec_pixel_count();
                if blank_source(src@) {
                    r == Err::<(), ImageRegistryError>(ImageRegistryError::EmptySource)
                } else if !registry_enabled(lim) {
                    r == Err::<(), ImageRegistryError>(ImageRegistryError::RegistryDisabled)
                } else if k < es.len() {
                    let updated = sat_add_usize(
                        sat_sub_usize(total, es[k].1.spec_pixel_count()),
                        new_px,
                    );
                    if updated > lim.max_total_pixels {
                        r == Err::<(), ImageRegistryError>(
                            ImageRegistryError::MaxTotalPixelsExceeded,
                        )
                    } else {
                        &&& r is Ok
                        &&& final(self).spec_entries() == es.update(k, (src@, bitmap))
                        &&& final(self).spec_total_pixels() == updated
                    }
                } else if es.len() >= lim.max_images {
                    r == Err::<(), ImageRegistryError>(ImageRegistryError::MaxImagesExceeded)
                } else if sat_add_usize(total, new_px) > lim.max_total_pixels {
                    r == Err::<(), ImageRegistryError>(ImageRegistryError::MaxTotalPixelsExceeded)
                } else {
                    &&& r is Ok
                    &&& final(self).spec_entries() == es.push((src@, bitmap))
                    &&& final(self).spec_total_pixels() == sat_add_usize(total, new_px)
                }
            }),
            r is Ok ==> lookup_bitmap(final(self).spec_entries(), src@) == Some(bitmap),
            r is Ok ==> forall|other: Seq<char>|
                other != src@ ==> lookup_bitmap(final(self).spec_entries(), other)
                    == lookup_bitmap(old(self).spec_entries(), other),
    {
        let ghost es = self.spec_entries();
        let sv = chars_of(src.as_str());
        let (lo, hi) = trim_bounds(&sv);
        if lo == hi {
            assert(trim_seq(src@) =~= src@.subrange(lo as int, hi as int));
            return Err(ImageRegistryError::EmptySource);
        }
        if self.limits.max_images == 0 || self.limits.max_total_pixels == 0 {
            return Err(ImageRegistryError::RegistryDisabled);
        }
        let new_pixels = bitmap.pixel_count();
        let existing = self.find_entry(src.as_str());
        proof {
            lemma_entry_index_bounds(es, src@, 0);
        }
        if existing < self.entries.len() {
            let previous_pixels = self.entries[existing].bitmap.pixel_count();
            let updated_total = self.total_pixels.saturating_sub(previous_pixels).saturating_add(
                new_pixels,
            );
            if updated_total > self.limits.max_total_pixels {
                return Err(ImageRegistryError::MaxTotalPixelsExceeded);
            }
            self.entries.set(existing, ImageRegistryEntry { src, bitmap });
            self.total_pixels = updated_total;
            proof {
                let ns = self.spec_entries();
                assert(ns =~= es.update(existing as int, (src@, bitmap)));
                assert forall|j: int| 0 <= j < existing implies ns[j].0 != src@ by {}
                assert(entry_index(ns, src@, 0) == existing) by {
                    lemma_entry_index_bounds(ns, src@, 0);
                    let m = entry_index(ns, src@, 0);
                    if m < existing {
                        assert(ns[m] == es[m]);
                    }
                    if m > existing {
                        assert(ns[existing as int].0 == src@);
                    }
                }
                assert forall|other: Seq<char>| other != src@ implies lookup_bitmap(ns, other)
                    == lookup_bitmap(es, other) by {
                    lemma_entry_index_same(es, ns, other, 0, existing as int);
                }
            }
            return Ok(());
        }
        if self.entries.len() >= self.limits.max_images {
            return Err(ImageRegistryError::MaxImagesExceeded);
        }
        let updated_total = self.total_pixels.saturating_add(new_pixels);
        if updated_total > self.limits.max_total_pixels {
            return Err(ImageRegistryError::MaxTotalPixelsExceeded);
        }
        self.entries.push(ImageRegistryEntry { src, bitmap });
        self.total_pixels = updated_total;
        proof {
            let ns = self.spec_entries();
            assert(ns =~= es.push((src@, bitmap)));
            assert(entry_index(ns, src@, 0) == es.len()) by {
                lemma_entry_index_push(es, src@, bitmap, 0);
            }
            assert forall|other: Seq<char>| other != src@ implies lookup_bitmap(ns, other)
                == lookup_bitmap(es, other) by {
                lemma_entry_index_push_other(es, src@, bitmap, other, 0);
                lemma_entry_index_bounds(es, other, 0);
                let m = entry_index(es, other, 0);
                if m < es.len() {
                    assert(ns[m] == es[m]);
                }
            }
        }
        Ok(())
    }

    /// Bitmap registered for `src`, if any.
    pub fn bitmap_for(&self, src: &str) -> (r: Option<&MonochromeBitmap>)
        ensures
            match r {
                Some(b) => lookup_bitmap(self.spec_entries(), src@) == Some(*b),
                None => lookup_bitmap(self.spec_entries(), src@) is None,
            },
    {
        let k = self.find_entry(src);
        if k < self.entries.len() {
            Some(&self.entries[k].bitmap)
        } else {
            None
        }
    }
}

/// Replacing entry `k` changes no lookup of another source.
proof fn lemma_entry_index_same(
    es: Seq<(Seq<char>, MonochromeBitmap)>,
    ns: Seq<(Seq<char>, MonochromeBitmap)>,
    other: Seq<char>,
    i: int,
    k: int,
)
    requires
        0 <= i <= es.len(),
        ns.len() == es.len(),
        0 <= k < es.len(),
        es[k].0 != other,
        ns[k].0 != other,
        forall|j: int| 0 <= j < es.len() && j != k ==> ns[j] == es[j],
    ensures
        entry_index(ns, other, i) == entry_index(es, other, i),
        entry_index(es, other, i) < es.len() ==> ns[entry_index(es, other, i)] == es[entry_index(es, other, i)],
    decreases es.len() - i,
{
    if i < es.len() {
        lemma_entry_index_same(es, ns, other, i + 1, k);
    }
}

proof fn lemma_entry_index_push(
    es: Seq<(Seq<char>, MonochromeBitmap)>,
    src: Seq<char>,
    b: MonochromeBitmap,
    i: int,
)
    requires
        0 <= i <= es.len(),
        entry_index(es, src, i) == es.len(),
    ensures
        entry_index(es.push((src, b)), src, i) == es.len(),
    decreases es.len() - i,
{
    if i < es.len() {
        lemma_entry_index_push(es, src, b, i + 1);
    }
}

proof fn lemma_entry_index_push_other(
    es: Seq<(Seq<char>, MonochromeBitmap)>,
    src: Seq<char>,
    b: MonochromeBitmap,
    other: Seq<char>,
    i: int,
)
    requires
        0 <= i <= es.len(),
        other != src,
    ensures
        entry_index(es.push((src, b)), other, i) == entry_index(es, other, i) || (entry_index(
            es,
            other,
            i,
        ) == es.len() && entry_index(es.push((src, b)), other, i) == es.len() + 1),
        entry_index(es, other, i) < es.len() ==> entry_index(es.push((src, b)), other, i)
            == entry_index(es, other, i),
        entry_index(es, other, i) == es.len() ==> entry_index(es.push((src, b)), other, i)
            == es.len() + 1,
    decreases es.len() + 1 - i,
{
    if i < es.len() {
        lemma_entry_index_push_other(es, src, b, other, i + 1);
    } else {
        assert(entry_index(es.push((src, b)), other, i + 1) == es.len() + 1);
    }
}

/// While the registered pixel counts sum to at most `usize::MAX`, a registry
/// whose total equals that sum keeps it equal after a successful
/// registration.
pub proof fn law_total_pixels_track_registered_sum(
    old_entries: Seq<(Seq<char>, MonochromeBitmap)>,
    old_total: int,
    k: int,
    src: Seq<char>,
    bitmap: MonochromeBitmap,
)
    requires
        old_total == pixel_sum(old_entries),
        0 <= old_total,
        0 <= k <= old_entries.len(),
        k < old_entries.len() ==> 0 <= old_entries[k].1.spec_pixel_count() <= old_total,
        0 <= bitmap.spec_pixel_count(),
        k < old_entries.len() ==> pixel_sum(old_entries.update(k, (src, bitmap))) <= usize::MAX,
        k == old_entries.len() ==> pixel_sum(old_entries.push((src, bitmap))) <= usize::MAX,
    ensures
        k < old_entries.len() ==> sat_add_usize(
            sat_sub_usize(old_total, old_entries[k].1.spec_pixel_count()),
            bitmap.spec_pixel_count(),
        ) == pixel_sum(old_entries.update(k, (src, bitmap))),
        k == old_entries.len() ==> sat_add_usize(old_total, bitmap.spec_pixel_count())
            == pixel_sum(old_entries.push((src, bitmap))),
{
    if k < old_entries.len() {
        lemma_pixel_sum_update(old_entries, k, (src, bitmap));
    } else {
        assert(old_entries.push((src, bitmap)).drop_last() =~= old_entries);
    }
}

// ---------------------------------------------------------------------------
// Drawing geometry.
// ---------------------------------------------------------------------------

/// `max(v, 1)`.
pub open spec fn at_least_one_int(v: int) -> int {
    if v < 1 {
        1
    } else {
        v
    }
}

/// Size of a bitmap scaled to fit a target box, aspect ratio kept: the
/// limiting side fills the box, the other is scaled down (at least 1).
pub open spec fn fitted_size(src_w: int, src_h: int, target_w: int, target_h: int) -> (int, int) {
    let sw = at_least_one_int(src_w);
    let sh = at_least_one_int(src_h);
    let tw = at_least_one_int(target_w);
    let th = at_least_one_int(target_h);
    if tw * sh <= th * sw {
        let h = at_least_one_int(tw * sh / sw);
        (tw, if h < th {
            h
        } else {
            th
        })
    } else {
        let w = at_least_one_int(th * sw / sh);
        (if w < tw {
            w
        } else {
            tw
        }, th)
    }
}

proof fn lemma_floor_div_bounds(x: int, d: int, limit: int)
    by (nonlinear_arith)
    requires
        x >= 0,
        d > 0,
    ensures
        (x / d) * d <= x < (x / d) * d + d,
        x >= d ==> x / d >= 1,
        x <= limit * d ==> x / d <= limit,
{
}

/// Fitting keeps the aspect ratio: the fitted box lies inside the target,
/// one side fills it, and, when the other side scales to at least one
/// pixel, it is the proportional size rounded down (the cross products
/// differ by less than one source side).
pub proof fn law_fit_keeps_aspect_ratio(src_w: int, src_h: int, target_w: int, target_h: int)
    requires
        0 <= src_w,
        0 <= src_h,
        0 <= target_w,
        0 <= target_h,
    ensures
        ({
            let sw = at_least_one_int(src_w);
            let sh = at_least_one_int(src_h);
            let tw = at_least_one_int(target_w);
            let th = at_least_one_int(target_h);
            let (w, h) = fitted_size(src_w, src_h, target_w, target_h);
            &&& 1 <= w <= tw
            &&& 1 <= h <= th
            &&& w == tw || h == th
            &&& (tw * sh <= th * sw && tw * sh >= sw) ==> 0 <= w * sh - h * sw < sw
            &&& (tw * sh > th * sw && th * sw >= sh) ==> 0 <= h * sw - w * sh < sh
        }),
{
    let sw = at_least_one_int(src_w);
    let sh = at_least_one_int(src_h);
    let tw = at_least_one_int(target_w);
    let th = at_least_one_int(target_h);
    assert(tw * sh >= 0 && th * sw >= 0) by (nonlinear_arith)
        requires
            tw >= 1,
            sh >= 1,
            th >= 1,
            sw >= 1,
    ;
    lemma_floor_div_bounds(tw * sh, sw, th);
    lemma_floor_div_bounds(th * sw, sh, tw);
}

proof fn lemma_fit_quotient(a: int, b: int, c: int, d: int)
    requires
        1 <= a <= 0xffff_ffff,
        1 <= b <= 0xffff_ffff,
        1 <= c <= 0xffff_ffff,
        1 <= d <= 0xffff_ffff,
        a * b <= c * d,
    ensures
        a * b / d <= c,
        0 <= a * b <= 0xffff_fffe_0000_0001,
{
    assert(a * b / d <= c) by (nonlinear_arith)
        requires
            1 <= d,
            0 <= a * b <= c * d,
    ;
    assert(0 <= a * b <= 0xffff_ffff * 0xffff_ffff) by (nonlinear_arith)
        requires
            1 <= a <= 0xffff_ffff,
            1 <= b <= 0xffff_ffff,
    ;
}

/// Size of a `src_w` x `src_h` bitmap scaled to fit `target_w` x `target_h`.
pub fn fit_bitmap_inside(src_w: u32, src_h: u32, target_w: u32, target_h: u32) -> (r: (u32, u32))
    ensures
        (r.0 as int, r.1 as int) == fitted_size(src_w as int, src_h as int, target_w as int, target_h as int),
        1 <= r.0 <= at_least_one_int(target_w as int),
        1 <= r.1 <= at_least_one_int(target_h as int),
{
    let sw: u64 = if src_w < 1 { 1 } else { src_w as u64 };
    let sh: u64 = if src_h < 1 { 1 } else { src_h as u64 };
    let tw: u64 = if target_w < 1 { 1 } else { target_w as u64 };
    let th: u64 = if target_h < 1 { 1 } else { target_h as u64 };
    proof {
        crate::graphics::lemma_u32_product_fits(tw as u32, sh as u32);
        crate::graphics::lemma_u32_product_fits(th as u32, sw as u32);
    }
    let width_limited = tw * sh <= th * sw;
    if width_limited {
        proof {
            lemma_fit_quotient(tw as int, sh as int, th as int, sw as int);
        }
        let q: u64 = (tw * sh) / sw;
        let scaled_h: u64 = if q < 1 { 1 } else { q };
        let h: u64 = if scaled_h < th { scaled_h } else { th };
        (tw as u32, h as u32)
    } else {
        proof {
            lemma_fit_quotient(th as int, sw as int, tw as int, sh as int);
        }
        let q: u64 = (th * sw) / sh;
        let scaled_w: u64 = if q < 1 { 1 } else { q };
        let w: u64 = if scaled_w < tw { scaled_w } else { tw };
        (w as u32, th as u32)
    }
}

/// What to draw for a page chrome command.
#[derive(Clone, Copy, Debug, PartialEq, Eq)]
pub enum ChromeDraw {
    /// Nothing (chrome kind disabled, or no text to show).
    Nothing,
    /// The command's text at a baseline, in a style.
    Text { x: i32, baseline_y: i32, style: PageChromeTextStyle },
    /// A progress bar: outline of the full bar, then the filled part.
    ProgressBar { x: i32, y: i32, width: u32, height: u32, stroke_width: u32, filled: u32 },
}

/// `a - b`, saturating to the `i32` range.
pub open spec fn sat_sub_i32(a: i32, b: i32) -> i32 {
    if a - b > i32::MAX {
        i32::MAX
    } else if a - b < i32::MIN {
        i32::MIN
    } else {
        (a - b) as i32
    }
}

fn sat_sub_i32_exec(a: i32, b: i32) -> (r: i32)
    ensures
        r == sat_sub_i32(a, b),
{
    let d: i64 = a as i64 - b as i64;
    if d > i32::MAX as i64 {
        i32::MAX
    } else if d < i32::MIN as i64 {
        i32::MIN
    } else {
        d as i32
    }
}

/// Width of the progress bar on a display `width` pixels wide.
pub open spec fn progress_bar_width(cfg: PageChromeConfig, width: int) -> int {
    at_least_one_int(width - cfg.progress_x_inset * 2)
}

/// Whether drawing progress chrome stays within machine integers: the inset
/// doubled and subtracted from the width fit `i32`, and the filled length
/// product fits `usize`.
pub open spec fn progress_geometry_fits(
    cfg: PageChromeConfig,
    width: int,
    current: Option<usize>,
    total: Option<usize>,
) -> bool {
    let cur = match current {
        Some(c) => c as int,
        None => 0,
    };
    let tot = at_least_one_int(
        match total {
            Some(t) => t as int,
            None => 1,
        },
    );
    let shown = if cur < tot {
        cur
    } else {
        tot
    };
    &&& i32::MIN <= cfg.progress_x_inset * 2 <= i32::MAX
    &&& i32::MIN <= width - cfg.progress_x_inset * 2 <= i32::MAX
    &&& progress_bar_width(cfg, width) * shown <= usize::MAX
}

/// What to draw for a chrome command of `kind` on a `width` x `height`
/// display.
pub open spec fn chrome_draw(
    cfg: PageChromeConfig,
    kind: PageChromeKind,
    has_text: bool,
    current: Option<usize>,
    total: Option<usize>,
    width: i32,
    height: i32,
) -> ChromeDraw {
    match kind {
        PageChromeKind::Header => if cfg.header_enabled && has_text {
            ChromeDraw::Text { x: cfg.header_x, baseline_y: cfg.header_baseline_y, style: cfg.header_style }
        } else {
            ChromeDraw::Nothing
        },
        PageChromeKind::Footer => if cfg.footer_enabled && has_text {
            ChromeDraw::Text {
                x: cfg.footer_x,
                baseline_y: sat_sub_i32(height, cfg.footer_baseline_from_bottom),
                style: cfg.footer_style,
            }
        } else {
            ChromeDraw::Nothing
        },
        PageChromeKind::Progress => if !cfg.progress_enabled {
            ChromeDraw::Nothing
        } else {
            let cur = match current {
                Some(c) => c as int,
                None => 0,
            };
            let tot = at_least_one_int(
                match total {
                    Some(t) => t as int,
                    None => 1,
                },
            );
            let shown = if cur < tot {
                cur
            } else {
                tot
            };
            let bar_w = progress_bar_width(cfg, width as int);
            ChromeDraw::ProgressBar {
                x: cfg.progress_x_inset,
                y: sat_sub_i32(height, cfg.progress_y_from_bottom),
                width: bar_w as u32,
                height: at_least_one_int(cfg.progress_height as int) as u32,
                stroke_width: at_least_one_int(cfg.progress_stroke_width as int) as u32,
                filled: (bar_w * shown / tot) as u32,
            }
        },
    }
}

/// What to draw for a page chrome command on a `width` x `height` display:
/// header and footer text when enabled and present (the footer measured up
/// from the bottom edge), or a progress bar whose filled length is the
/// bar's width times `current / total` (current capped at total).
pub fn page_chrome_plan(
    cfg: &PageChromeConfig,
    kind: PageChromeKind,
    has_text: bool,
    current: Option<usize>,
    total: Option<usize>,
    width: i32,
    height: i32,
) -> (r: ChromeDraw)
    requires
        kind == PageChromeKind::Progress && cfg.progress_enabled ==> progress_geometry_fits(
            *cfg,
            width as int,
            current,
            total,
        ),
    ensures
        r == chrome_draw(*cfg, kind, has_text, current, total, width, height),
        r matches ChromeDraw::ProgressBar { width: w, filled: f, .. } ==> f <= w,
{
    match kind {
        PageChromeKind::Header => {
            if cfg.header_enabled && has_text {
                ChromeDraw::Text {
                    x: cfg.header_x,
                    baseline_y: cfg.header_baseline_y,
                    style: cfg.header_style,
                }
            } else {
                ChromeDraw::Nothing
            }
        },
        PageChromeKind::Footer => {
            if cfg.footer_enabled && has_text {
                ChromeDraw::Text {
                    x: cfg.footer_x,
                    baseline_y: sat_sub_i32_exec(height, cfg.footer_baseline_from_bottom),
                    style: cfg.footer_style,
                }
            } else {
                ChromeDraw::Nothing
            }
        },
        PageChromeKind::Progress => {
            if !cfg.progress_enabled {
                return ChromeDraw::Nothing;
            }
            let current_v: usize = match current {
                Some(c) => c,
                None => 0,
            };
            let total_raw: usize = match total {
                Some(t) => t,
                None => 1,
            };
            let total_v: usize = if total_raw < 1 { 1 } else { total_raw };
            let shown: usize = if current_v < total_v { current_v } else { total_v };
            let inner: i32 = width - cfg.progress_x_inset * 2;
            let bar_w: u32 = if inner < 1 { 1 } else { inner as u32 };
            let bar_h: u32 = if cfg.progress_height < 1 { 1 } else { cfg.progress_height };
            let stroke: u32 = if cfg.progress_stroke_width < 1 {
                1
            } else {
                cfg.progress_stroke_width
            };
            let product: usize = bar_w as usize * shown;
            let filled_wide: usize = product / total_v;
            proof {
                assert(filled_wide <= bar_w) by (nonlinear_arith)
                    requires
                        filled_wide == product / total_v,
                        product == bar_w * shown,
                        shown <= total_v,
                        1 <= total_v,
                ;
            }
            ChromeDraw::ProgressBar {
                x: cfg.progress_x_inset,
                y: sat_sub_i32_exec(height, cfg.progress_y_from_bottom),
                width: bar_w,
                height: bar_h,
                stroke_width: stroke,
                filled: filled_wide as u32,
            }
        },
    }
}

/// Extra pixels per inter-word space, and how many spaces get one more, for
/// justified text with `spaces` spaces: the extra is capped at half a space
/// (at least one pixel) per space. `None` when there is nothing to spread.
pub open spec fn inter_word_spread(spaces: int, extra_px_total: int, space_width: int) -> Option<(int, int)> {
    if spaces <= 0 || extra_px_total <= 0 {
        None
    } else {
        let per_space_cap = at_least_one_int(space_width / 2);
        let capped = if extra_px_total < per_space_cap * spaces {
            extra_px_total
        } else {
            per_space_cap * spaces
        };
        Some((capped / spaces, capped % spaces))
    }
}

/// Spacing of justified text with `spaces` spaces; see `inter_word_spread`.
/// The extra handed out never exceeds `extra_px_total`.
pub fn inter_word_spacing(spaces: i32, extra_px_total: i32, space_width: i32) -> (r: Option<(i32, i32)>)
    requires
        spaces > 0 && extra_px_total > 0 ==> at_least_one_int(space_width / 2) * spaces <= i32::MAX,
    ensures
        match inter_word_spread(spaces as int, extra_px_total as int, space_width as int) {
            Some((per, rem)) => r == Some((per as i32, rem as i32)),
            None => r is None,
        },
        r matches Some((per, rem)) ==> 0 <= rem < spaces && 0 <= per && per * spaces + rem
            <= extra_px_total,
{
    if spaces <= 0 || extra_px_total <= 0 {
        return None;
    }
    let half = space_width / 2;
    let max_extra_per_space: i32 = if half < 1 { 1 } else { half };
    let cap: i32 = max_extra_per_space * spaces;
    let capped: i32 = if extra_px_total < cap { extra_px_total } else { cap };
    let per_space = capped / spaces;
    let remainder = capped % spaces;
    proof {
        assert(per_space * spaces + remainder == capped) by (nonlinear_arith)
            requires
                per_space == capped / spaces,
                remainder == capped % spaces,
                spaces > 0,
        ;
        assert(0 <= per_space) by (nonlinear_arith)
            requires
                per_space == capped / spaces,
                capped >= 0,
                spaces > 0,
        ;
    }
    Some((per_space, remainder))
}

/// Number of `' '` characters in `s`.
pub open spec fn space_count(s: Seq<char>) -> int
    decreases s.len(),
{
    if s.len() == 0 {
        0
    } else {
        space_count(s.drop_last()) + if s.last() == ' ' {
            1int
        } else {
            0int
        }
    }
}

/// Number of spaces in a text run.
pub fn count_spaces(text: &str) -> (r: usize)
    ensures
        r == space_count(text@),
{
    let v = chars_of(text);
    let mut n: usize = 0;
    let mut i: usize = 0;
    while i < v.len()
        invariant
            i <= v.len(),
            v@ == text@,
            n == space_count(v@.take(i as int)),
            n <= i,
        decreases v.len() - i,
    {
        assert(v@.take(i + 1).drop_last() =~= v@.take(i as int));
        if v[i] == ' ' {
            n += 1;
        }
        i += 1;
    }
    assert(v@.take(v.len() as int) =~= v@);
    n
}

/// Whether bitmap pixel `(sx, sy)` is on (pixels outside are off).
pub open spec fn bitmap_on(bm: MonochromeBitmap, sx: int, sy: int) -> bool {
    0 <= sx < bm.spec_width() && 0 <= sy < bm.spec_height() && packed_bit_on(
        bm.spec_pixels(),
        sy * bm.spec_width() + sx,
    )
}

/// Source coordinate sampled for destination offset `d` when `src_len`
/// pixels are scaled to `scaled` pixels (nearest, rounding down).
pub open spec fn sample_coord(d: int, src_len: int, scaled: int) -> int {
    d * src_len / scaled
}

/// Display points set by destination row `dy`, for offsets `0..n`.
pub open spec fn row_points(
    bm: MonochromeBitmap,
    ox: int,
    oy: int,
    sw: int,
    sh: int,
    dy: int,
    n: int,
) -> Seq<(i32, i32)>
    decreases n,
{
    if n <= 0 {
        Seq::empty()
    } else {
        let prev = row_points(bm, ox, oy, sw, sh, dy, n - 1);
        if bitmap_on(
            bm,
            sample_coord(n - 1, bm.spec_width() as int, sw),
            sample_coord(dy, bm.spec_height() as int, sh),
        ) {
            prev.push(((ox + n - 1) as i32, (oy + dy) as i32))
        } else {
            prev
        }
    }
}

/// Display points set by destination rows `0..m`, row by row.
pub open spec fn box_points(bm: MonochromeBitmap, ox: int, oy: int, sw: int, sh: int, m: int) -> Seq<(i32, i32)>
    decreases m,
{
    if m <= 0 {
        Seq::empty()
    } else {
        box_points(bm, ox, oy, sw, sh, m - 1) + row_points(bm, ox, oy, sw, sh, m - 1, sw)
    }
}

/// Display points set when a bitmap is drawn into the box at `(x, y)` of
/// `width` x `height`: scaled to fit, centred, sampled nearest-pixel.
pub open spec fn bitmap_draw(bm: MonochromeBitmap, x: int, y: int, width: int, height: int) -> Seq<(i32, i32)> {
    let tw = at_least_one_int(width);
    let th = at_least_one_int(height);
    let fit = fitted_size(bm.spec_width() as int, bm.spec_height() as int, tw, th);
    let ox = x + (tw - fit.0) / 2;
    let oy = y + (th - fit.1) / 2;
    box_points(bm, ox, oy, fit.0, fit.1, fit.1)
}

proof fn lemma_sample_in_range(d: int, src_len: int, scaled: int)
    requires
        0 <= d < scaled,
        1 <= src_len,
    ensures
        0 <= sample_coord(d, src_len, scaled) < src_len,
{
    assert(0 <= d * src_len / scaled < src_len) by (nonlinear_arith)
        requires
            0 <= d < scaled,
            1 <= src_len,
    ;
}

/// Display points to set for a registered bitmap drawn into the box at
/// `(x, y)` of `width` x `height` (see `bitmap_draw`).
pub fn bitmap_draw_points(bm: &MonochromeBitmap, x: i32, y: i32, width: u32, height: u32) -> (r: Vec<(i32, i32)>)
    requires
        bm.wf(),
        width <= i32::MAX,
        height <= i32::MAX,
        x + width <= i32::MAX,
        y + height <= i32::MAX,
    ensures
        r@ == bitmap_draw(*bm, x as int, y as int, width as int, height as int),
{
    let tw: u32 = if width < 1 { 1 } else { width };
    let th: u32 = if height < 1 { 1 } else { height };
    let (sw, sh) = fit_bitmap_inside(bm.width(), bm.height(), tw, th);
    let ox: i32 = x + (tw as i32 - sw as i32) / 2;
    let oy: i32 = y + (th as i32 - sh as i32) / 2;
    let ghost gsw = sw as int;
    let ghost gsh = sh as int;
    let mut out: Vec<(i32, i32)> = Vec::new();
    let mut dy: u32 = 0;
    while dy < sh
        invariant
            bm.wf(),
            tw <= i32::MAX,
            th <= i32::MAX,
            1 <= sw <= tw,
            1 <= sh <= th,
            ox as int + sw <= i32::MAX + 1,
            oy as int + sh <= i32::MAX + 1,
            dy <= sh,
            out@ == box_points(*bm, ox as int, oy as int, sw as int, sh as int, dy as int),
        decreases sh - dy,
    {
        proof {
            lemma_u32_product_fits(dy, bm.spec_height());
            lemma_sample_in_range(dy as int, bm.spec_height() as int, sh as int);
        }
        let src_y: u32 = ((dy as u64 * bm.height() as u64) / sh as u64) as u32;
        let row_y: i32 = oy + dy as i32;
        let ghost base = out@;
        let mut dx: u32 = 0;
        while dx < sw
            invariant
                bm.wf(),
                tw <= i32::MAX,
                th <= i32::MAX,
                1 <= sw <= tw,
                1 <= sh <= th,
                ox as int + sw <= i32::MAX + 1,
                oy as int + sh <= i32::MAX + 1,
                dy < sh,
                src_y == sample_coord(dy as int, bm.spec_height() as int, sh as int),
                row_y == oy + dy,
                dx <= sw,
                out@ == base + row_points(*bm, ox as int, oy as int, sw as int, sh as int, dy as int, dx as int),
            decreases sw - dx,
        {
            proof {
                lemma_u32_product_fits(dx, bm.spec_width());
                lemma_sample_in_range(dx as int, bm.spec_width() as int, sw as int);
            }
            let src_x: u32 = ((dx as u64 * bm.width() as u64) / sw as u64) as u32;
            if bm.pixel_is_on(src_x, src_y) {
                out.push((ox + dx as i32, row_y));
            }
            dx += 1;
            proof {
                assert(out@ =~= base + row_points(*bm, ox as int, oy as int, sw as int, sh as int, dy as int, dx as int));
            }
        }
        dy += 1;
        proof {
            assert(out@ =~= box_points(*bm, ox as int, oy as int, sw as int, sh as int, dy as int));
        }
    }
    out
}

/// Whether a progress bar can be planned for this configuration and display
/// (see `progress_geometry_fits`).
pub fn progress_geometry_check(
    cfg: &PageChromeConfig,
    width: i32,
    current: Option<usize>,
    total: Option<usize>,
) -> (r: bool)
    ensures
        r == progress_geometry_fits(*cfg, width as int, current, total),
{
    let inset: i64 = cfg.progress_x_inset as i64;
    let doubled: i64 = inset * 2;
    if doubled < i32::MIN as i64 || doubled > i32::MAX as i64 {
        return false;
    }
    let inner: i64 = width as i64 - doubled;
    if inner < i32::MIN as i64 || inner > i32::MAX as i64 {
        return false;
    }
    let bar_w: u64 = if inner < 1 { 1 } else { inner as u64 };
    let cur: usize = match current {
        Some(c) => c,
        None => 0,
    };
    let tot_raw: usize = match total {
        Some(t) => t,
        None => 1,
    };
    let tot: usize = if tot_raw < 1 { 1 } else { tot_raw };
    let shown: usize = if cur < tot { cur } else { tot };
    assert(bar_w as int == progress_bar_width(*cfg, width as int));
    if shown == 0 {
        assert(bar_w * shown == 0) by (nonlinear_arith)
            requires
                shown == 0,
        ;
        return true;
    }
    let q: usize = usize::MAX / shown;
    proof {
        let m = usize::MAX as int;
        assert((bar_w <= q) <==> (bar_w * shown <= m)) by (nonlinear_arith)
            requires
                q == m / (shown as int),
                shown > 0,
                bar_w >= 0,
        ;
    }
    bar_w <= q as u64
}

/// Whether a bitmap box fits `i32` coordinates (see `bitmap_draw_points`).
pub fn bitmap_box_check(x: i32, y: i32, width: u32, height: u32) -> (r: bool)
    ensures
        r == (width <= i32::MAX && height <= i32::MAX && x + width <= i32::MAX && y + height
            <= i32::MAX),
{
    width <= i32::MAX as u32 && height <= i32::MAX as u32 && x as i64 + width as i64
        <= i32::MAX as i64 && y as i64 + height as i64 <= i32::MAX as i64
}

/// Justification spreads extra width over the spaces without exceeding it:
/// nothing without spaces or extra width; otherwise each space gets `per`
/// more pixels and the first `rem` (fewer than the spaces) one more, in all
/// the extra width capped at half a space width (at least 1) per space.
pub proof fn law_inter_word_spread_distributes_extra(spaces: int, extra_px_total: int, space_width: int)
    ensures
        (spaces <= 0 || extra_px_total <= 0) <==> inter_word_spread(spaces, extra_px_total, space_width) is None,
        inter_word_spread(spaces, extra_px_total, space_width) matches Some((per, rem)) ==> {
            let cap = if space_width / 2 < 1 { 1 } else { space_width / 2 };
            let total = per * spaces + rem;
            &&& 0 <= rem < spaces
            &&& 0 <= per <= cap
            &&& total <= extra_px_total
            &&& total <= cap * spaces
            &&& (extra_px_total <= cap * spaces ==> total == extra_px_total)
            &&& (extra_px_total >= cap * spaces ==> total == cap * spaces)
        },
{
    if spaces > 0 && extra_px_total > 0 {
        let cap = at_least_one_int(space_width / 2);
        let capped = if extra_px_total < cap * spaces { extra_px_total } else { cap * spaces };
        assert(cap * spaces > 0) by (nonlinear_arith)
            requires cap >= 1, spaces >= 1;
        vstd::arithmetic::div_mod::lemma_fundamental_div_mod(capped, spaces);
        vstd::arithmetic::div_mod::lemma_mod_bound(capped, spaces);
        let per = capped / spaces;
        let rem = capped % spaces;
        assert(per * spaces == spaces * per) by (nonlinear_arith);
        assert(per <= cap) by (nonlinear_arith)
            requires per * spaces + rem == capped, capped <= cap * spaces, 0 <= rem, spaces >= 1;
        assert(per >= 0) by (nonlinear_arith)
            requires per * spaces + rem == capped, capped > 0, rem < spaces, spaces >= 1;
    }
}

/// A progress bar's filled length never exceeds its width, and a page at or
/// past the total fills it.
pub proof fn law_progress_fill_within_bar(
    cfg: PageChromeConfig,
    current: Option<usize>,
    total: Option<usize>,
    width: i32,
    height: i32,
    has_text: bool,
)
    requires
        cfg.progress_enabled,
        progress_bar_width(cfg, width as int) <= u32::MAX,
    ensures
        chrome_draw(cfg, PageChromeKind::Progress, has_text, current, total, width, height) matches ChromeDraw::ProgressBar { width: w, filled, .. } ==> {
            &&& w as int == progress_bar_width(cfg, width as int)
            &&& filled <= w
            &&& ((match current { Some(c) => c as int, None => 0 }) >= (match total { Some(t) => if t < 1 { 1int } else { t as int }, None => 1 }) ==> filled == w)
        },
{
    let cur: int = match current { Some(c) => c as int, None => 0 };
    let tot = at_least_one_int(match total { Some(t) => t as int, None => 1 });
    let shown = if cur < tot { cur } else { tot };
    let bar_w = progress_bar_width(cfg, width as int);
    assert(bar_w * shown / tot <= bar_w) by (nonlinear_arith)
        requires bar_w >= 1, 0 <= shown <= tot, tot >= 1;
    assert(bar_w * shown / tot >= 0) by (nonlinear_arith)
        requires bar_w >= 1, 0 <= shown, tot >= 1;
    if cur >= tot {
        assert(bar_w * tot / tot == bar_w) by (nonlinear_arith)
            requires tot >= 1;
    }
}

/// Bits are packed most significant first: pixel `8 i + k` is bit `7 - k`
/// of byte `i` (pixel `8 i` is the byte's `0x80` bit, pixel `8 i + 7` its
/// `0x01` bit); and packing `p` pixels takes the fewest bytes that hold
/// them.
pub proof fn law_packed_bits(data: Seq<u8>, i: int, k: u8, pixels: nat)
    requires
        0 <= i < data.len(),
        k < 8,
    ensures
        packed_bit_on(data, 8 * i + k) <==> (data[i] & (0x80u8 >> k)) != 0,
        packed_len(pixels as int) * 8 >= pixels,
        pixels > 0 ==> (packed_len(pixels as int) - 1) * 8 < pixels,
{
    let b = data[i];
    assert((8 * i + k) / 8 == i && (8 * i + k) % 8 == k) by (nonlinear_arith)
        requires 0 <= k < 8, i >= 0;
    assert(((b >> ((7 - k) as u8)) & 1u8 == 1u8) <==> (b & (0x80u8 >> k)) != 0) by (bit_vector)
        requires k < 8;
    assert(((pixels + 7) / 8) * 8 >= pixels) by (nonlinear_arith);
    assert(pixels > 0 ==> (((pixels + 7) / 8) - 1) * 8 < pixels) by (nonlinear_arith);
}

} // verus!
