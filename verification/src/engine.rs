use vstd::prelude::*;

use crate::page_map::PageRange;
use crate::render_ir::PaginationProfileId;
use crate::fonts::{strip_char, strip_char_exec};
use crate::paths::{find_bytes, find_char_from, occurs_at};
use crate::text::{chars_of, is_ws, string_from_chars, trim_bounds, trim_seq};
use vstd::string::StrSliceExecFns;
use vstd::utf8::encode_utf8;

verus! {

/// Cancellation hook for long-running layout operations.
pub trait CancelToken {
    fn is_cancelled(&self) -> bool;
}

/// Summary emitted after chapter layout completes.
#[derive(Clone, Copy, Debug, Default)]
pub struct ChapterLayoutSummary {
    /// Total pages produced for this chapter.
    pub page_count: usize,
}

/// Never-cancel token for default call paths.
#[derive(Clone, Copy, Debug, Default)]
pub struct NeverCancel;

impl CancelToken for NeverCancel {
    fn is_cancelled(&self) -> (r: bool)
        ensures
            !r,
    {
        false
    }
}

/// Runtime diagnostics from render preparation/layout.
#[derive(Clone, Debug, PartialEq)]
pub enum RenderDiagnostic {
    ReflowTimeMs(u32),
    Cancelled,
    MemoryLimitExceeded { kind: &'static str, actual: usize, limit: usize },
    CacheHit { chapter_index: usize, page_count: usize },
    CacheMiss { chapter_index: usize },
}

/// Errors a chapter render gets from the engine's own decisions: a
/// cancelled run, or more pages than the in-memory page limit. (Errors of
/// reading and preparing the book come from the book side.)
#[derive(Clone, Debug)]
pub enum RenderEngineError {
    /// Layout run was cancelled.
    Cancelled,
    /// Render page collection exceeded configured memory limits.
    LimitExceeded { kind: &'static str, actual: usize, limit: usize },
}

impl RenderEngineError {
    /// The diagnostic reported alongside the error.
    pub fn diagnostic(&self) -> (r: RenderDiagnostic)
        ensures
            match *self {
                RenderEngineError::Cancelled => r == RenderDiagnostic::Cancelled,
                RenderEngineError::LimitExceeded { kind, actual, limit } => r
                    == (RenderDiagnostic::MemoryLimitExceeded { kind, actual, limit }),
            },
    {
        match self {
            RenderEngineError::Cancelled => RenderDiagnostic::Cancelled,
            RenderEngineError::LimitExceeded { kind, actual, limit } => {
                RenderDiagnostic::MemoryLimitExceeded { kind: *kind, actual: *actual, limit: *limit }
            },
        }
    }
}

/// A run asked to stop fails with `Cancelled` before anything is read or
/// laid out; otherwise it goes on.
pub fn cancellation_outcome(cancelled: bool) -> (r: Result<(), RenderEngineError>)
    ensures
        cancelled ==> r matches Err(RenderEngineError::Cancelled),
        !cancelled ==> r is Ok,
{
    if cancelled {
        Err(RenderEngineError::Cancelled)
    } else {
        Ok(())
    }
}

/// Asks a cancellation token whether the run must stop (see
/// [`cancellation_outcome`]). What the token answers is its implementor's.
pub fn check_cancelled<C: CancelToken + ?Sized>(cancel: &C) -> (r: Result<(), RenderEngineError>)
    ensures
        r is Ok || r matches Err(RenderEngineError::Cancelled),
{
    cancellation_outcome(cancel.is_cancelled())
}

/// Whether the next emitted page is kept when `collected` pages are already
/// held under a limit of `limit` pages in memory.
pub fn keeps_next_page(collected: usize, limit: usize) -> (r: bool)
    ensures
        r == (collected < limit),
{
    collected < limit
}

/// Outcome of collecting a chapter that emitted `emitted` pages under a
/// limit of `limit` pages in memory: all of them, or, when more were
/// emitted, `LimitExceeded` with the number emitted and the limit.
pub fn collected_pages_outcome(emitted: usize, limit: usize) -> (r: Result<usize, RenderEngineError>)
    ensures
        emitted <= limit ==> r == Ok::<usize, RenderEngineError>(emitted),
        emitted > limit ==> (r matches Err(RenderEngineError::LimitExceeded { kind, actual, limit: l })
            && kind@ == "max_pages_in_memory"@ && actual == emitted && l == limit),
{
    if emitted <= limit {
        Ok(emitted)
    } else {
        Err(RenderEngineError::LimitExceeded { kind: "max_pages_in_memory", actual: emitted, limit })
    }
}

/// Whether a page range selects no page, so that rendering it returns no
/// pages without reading the book.
pub fn page_range_is_empty(range: &PageRange) -> (r: bool)
    ensures
        r == (range.start >= range.end),
{
    range.start >= range.end
}

/// Effective page range: an inverted or empty range selects no page.
pub open spec fn normalized_range(range: Option<PageRange>) -> Option<(int, int)> {
    match range {
        Some(r) => if r.start < r.end {
            Some((r.start as int, r.end as int))
        } else {
            Some((0, 0))
        },
        None => None,
    }
}

/// Normalise an optional page range: inverted or empty ranges become `0..0`.
pub fn normalize_page_range(range: Option<PageRange>) -> (r: Option<PageRange>)
    ensures
        match r {
            Some(n) => normalized_range(range) == Some((n.start as int, n.end as int)),
            None => normalized_range(range) is None,
        },
{
    match range {
        Some(r) => {
            if r.start < r.end {
                Some(r)
            } else {
                Some(core::ops::Range { start: 0, end: 0 })
            }
        },
        None => None,
    }
}

/// Whether chapter page `idx` is selected by `range` (every page when there is none).
pub fn page_in_range(idx: usize, range: &Option<PageRange>) -> (r: bool)
    ensures
        r == match range {
            Some(n) => n.start <= idx && idx < n.end,
            None => true,
        },
{
    match range {
        Some(n) => n.start <= idx && idx < n.end,
        None => true,
    }
}

/// A page limit `[start, end)` selects exactly the chapter pages `start <= idx < end`.
pub proof fn law_page_range_selects_half_open_interval(start: usize, end: usize, idx: usize)
    ensures
        match normalized_range(Some(core::ops::Range { start, end })) {
            Some((a, b)) => (a <= idx < b) == (start <= idx < end),
            None => false,
        },
{
}

/// Lower-case hexadecimal digit for a value below 16.
pub open spec fn hex_digit(d: int) -> char {
    if d < 10 {
        (('0' as int) + d) as char
    } else {
        (('a' as int) + d - 10) as char
    }
}

/// Lower-case hexadecimal rendering of bytes, two digits per byte.
pub open spec fn hex_of(bytes: Seq<u8>) -> Seq<char>
    decreases bytes.len(),
{
    if bytes.len() == 0 {
        Seq::<char>::empty()
    } else {
        hex_of(bytes.drop_last()) + seq![
            hex_digit(bytes.last() as int / 16),
            hex_digit(bytes.last() as int % 16),
        ]
    }
}

fn hex_digit_exec(d: u8) -> (c: char)
    requires
        d < 16,
    ensures
        c == hex_digit(d as int),
{
    if d < 10 {
        (48u8 + d) as char
    } else {
        (87u8 + d) as char
    }
}

/// Directory name of a pagination profile: its 32 bytes in lower-case hex.
pub fn profile_hex(profile: PaginationProfileId) -> (r: String)
    ensures
        r@ == hex_of(profile.0@),
        r@.len() == 64,
{
    let mut out: Vec<char> = Vec::new();
    let mut i: usize = 0;
    while i < 32
        invariant
            i <= 32,
            profile.0@.len() == 32,
            out@ == hex_of(profile.0@.take(i as int)),
            out@.len() == 2 * i,
        decreases 32 - i,
    {
        let byte = profile.0[i];
        proof {
            assert(profile.0@.take(i + 1).drop_last() =~= profile.0@.take(i as int));
        }
        out.push(hex_digit_exec(byte / 16));
        out.push(hex_digit_exec(byte % 16));
        i += 1;
    }
    assert(profile.0@.take(32) =~= profile.0@);
    string_from_chars(&out)
}

/// Decimal digits of `n`.
pub open spec fn decimal(n: nat) -> Seq<char>
    decreases n,
{
    if n < 10 {
        seq![hex_digit(n as int)]
    } else {
        decimal(n / 10).push(hex_digit((n % 10) as int))
    }
}

pub(crate) fn push_decimal(out: &mut Vec<char>, n: usize)
    ensures
        final(out)@ == old(out)@ + decimal(n as nat),
    decreases n,
{
    if n >= 10 {
        push_decimal(out, n / 10);
    }
    out.push(hex_digit_exec((n % 10) as u8));
    assert(out@ =~= old(out)@ + decimal(n as nat));
}

/// `base` joined with a relative segment, as `Path::join` does on Unix.
pub open spec fn join_path(base: Seq<char>, seg: Seq<char>) -> Seq<char> {
    if base.len() == 0 {
        seg
    } else if base.last() == '/' {
        base + seg
    } else {
        base + seq!['/'] + seg
    }
}

fn push_path_segment(out: &mut Vec<char>, seg: &Vec<char>)
    ensures
        final(out)@ == join_path(old(out)@, seg@),
{
    if out.len() > 0 && out[out.len() - 1] != '/' {
        out.push('/');
    }
    let ghost mid = out@;
    let mut i: usize = 0;
    while i < seg.len()
        invariant
            i <= seg.len(),
            out@ == mid + seg@.take(i as int),
        decreases seg.len() - i,
    {
        out.push(seg[i]);
        i += 1;
        assert(out@ =~= mid + seg@.take(i as int));
    }
    assert(seg@.take(seg.len() as int) =~= seg@);
    assert(out@ =~= join_path(old(out)@, seg@));
}

/// Default maximum size of one cache file.
pub const DEFAULT_MAX_CACHE_FILE_BYTES: usize = 4194304;

/// File name of the cache payload of one chapter: `chapter-<index>.json`.
pub open spec fn chapter_file_name(chapter_index: nat) -> Seq<char> {
    seq!['c', 'h', 'a', 'p', 't', 'e', 'r', '-'] + decimal(chapter_index) + seq![
        '.',
        'j',
        's',
        'o',
        'n',
    ]
}

/// File-backed render-page cache store.
///
/// Cache paths are deterministic by pagination profile and chapter index:
/// `<root>/<profile-hex>/chapter-<index>.json`.
#[derive(Clone, Debug)]
pub struct FileRenderCacheStore {
    root: String,
    max_file_bytes: usize,
}

impl FileRenderCacheStore {
    /// Root directory of the cache.
    pub closed spec fn spec_root(&self) -> Seq<char> {
        self.root@
    }

    /// Maximum size in bytes of one cache file.
    pub closed spec fn spec_max_file_bytes(&self) -> usize {
        self.max_file_bytes
    }

    /// Create a new cache store rooted at `root`.
    pub fn new(root: String) -> (s: Self)
        ensures
            s.spec_root() == root@,
            s.spec_max_file_bytes() == DEFAULT_MAX_CACHE_FILE_BYTES,
    {
        FileRenderCacheStore { root, max_file_bytes: DEFAULT_MAX_CACHE_FILE_BYTES }
    }

    /// Set the maximum allowed cache file size in bytes.
    ///
    /// Values of `0` are treated as `1` to keep the cap explicit.
    pub fn with_max_file_bytes(self, max_file_bytes: usize) -> (s: Self)
        ensures
            s.spec_root() == self.spec_root(),
            s.spec_max_file_bytes() == if max_file_bytes == 0 {
                1
            } else {
                max_file_bytes
            },
    {
        let cap = if max_file_bytes == 0 { 1 } else { max_file_bytes };
        FileRenderCacheStore { root: self.root, max_file_bytes: cap }
    }

    /// Root directory for cache files.
    pub fn cache_root(&self) -> (r: &str)
        ensures
            r@ == self.spec_root(),
    {
        self.root.as_str()
    }

    /// Maximum allowed cache file size in bytes.
    pub fn max_file_bytes(&self) -> (r: usize)
        ensures
            r == self.spec_max_file_bytes(),
    {
        self.max_file_bytes
    }

    /// Deterministic cache path for profile/chapter payload.
    pub fn chapter_cache_path(&self, profile: PaginationProfileId, chapter_index: usize) -> (r:
        String)
        ensures
            r@ == join_path(
                join_path(self.spec_root(), hex_of(profile.0@)),
                chapter_file_name(chapter_index as nat),
            ),
    {
        let mut out = chars_of(self.root.as_str());
        let dir = chars_of(profile_hex(profile).as_str());
        push_path_segment(&mut out, &dir);
        let mut name: Vec<char> = Vec::new();
        name.push('c');
        name.push('h');
        name.push('a');
        name.push('p');
        name.push('t');
        name.push('e');
        name.push('r');
        name.push('-');
        push_decimal(&mut name, chapter_index);
        name.push('.');
        name.push('j');
        name.push('s');
        name.push('o');
        name.push('n');
        assert(name@ =~= chapter_file_name(chapter_index as nat));
        push_path_segment(&mut out, &name);
        string_from_chars(&out)
    }
}

/// Write cap used while persisting a cache file.
pub struct CappedWriter<W> {
    inner: W,
    max_bytes: usize,
    written: usize,
}

impl<W> CappedWriter<W> {
    /// Bytes accepted so far.
    pub closed spec fn spec_written(&self) -> usize {
        self.written
    }

    /// Cap on the bytes accepted.
    pub closed spec fn spec_max_bytes(&self) -> usize {
        self.max_bytes
    }

    /// Wrap `inner` with a cap of `max_bytes` (at least one byte).
    pub fn new(inner: W, max_bytes: usize) -> (w: Self)
        ensures
            w.spec_written() == 0,
            w.spec_max_bytes() == if max_bytes == 0 {
                1
            } else {
                max_bytes
            },
    {
        let cap = if max_bytes == 0 { 1 } else { max_bytes };
        CappedWriter { inner, max_bytes: cap, written: 0 }
    }

    /// Accept `len` more bytes if they fit under the cap; refuse them otherwise.
    pub fn reserve(&mut self, len: usize) -> (ok: bool)
        requires
            old(self).spec_written() <= old(self).spec_max_bytes(),
        ensures
            ok == (len <= old(self).spec_max_bytes() - old(self).spec_written()),
            final(self).spec_max_bytes() == old(self).spec_max_bytes(),
            final(self).spec_written() == if ok {
                old(self).spec_written() + len
            } else {
                old(self).spec_written() as int
            },
            final(self).spec_written() <= final(self).spec_max_bytes(),
    {
        let remaining = self.max_bytes - self.written;
        if len > remaining {
            return false;
        }
        self.written = self.written + len;
        true
    }

    /// The wrapped writer.
    pub closed spec fn spec_inner(&self) -> W {
        self.inner
    }

    /// Mutable access to the wrapped writer; the count and cap stay.
    pub fn inner_mut(&mut self) -> (r: &mut W)
        ensures
            *r == old(self).spec_inner(),
            final(self).spec_inner() == *final(r),
            final(self).spec_written() == old(self).spec_written(),
            final(self).spec_max_bytes() == old(self).spec_max_bytes(),
    {
        &mut self.inner
    }

    /// Unwrap the underlying writer.
    pub fn into_inner(self) -> (r: W)
        ensures
            r == self.spec_inner(),
    {
        self.inner
    }
}

/// Forced-family setting of a render run: the trimmed family, or none when blank.
pub fn forced_family_setting(family: &str) -> (r: Option<String>)
    ensures
        match r {
            Some(f) => f@ == trim_seq(family@) && f@.len() > 0,
            None => trim_seq(family@).len() == 0,
        },
{
    let v = chars_of(family);
    let (lo, hi) = trim_bounds(&v);
    if lo == hi {
        return None;
    }
    let mut out: Vec<char> = Vec::new();
    let mut i = lo;
    while i < hi
        invariant
            lo <= i <= hi <= v.len(),
            out@ == v@.subrange(lo as int, i as int),
        decreases hi - i,
    {
        out.push(v[i]);
        i += 1;
        assert(out@ =~= v@.subrange(lo as int, i as int));
    }
    Some(string_from_chars(&out))
}

/// Anchor attribute patterns for a fragment: `id="f"`, `id='f'`, `name="f"`,
/// `name='f'` (as bytes).
pub open spec fn anchor_pattern(k: int, needle: Seq<u8>) -> Seq<u8> {
    if k == 0 {
        seq![105u8, 100u8, 61u8, 34u8] + needle + seq![34u8]
    } else if k == 1 {
        seq![105u8, 100u8, 61u8, 39u8] + needle + seq![39u8]
    } else if k == 2 {
        seq![110u8, 97u8, 109u8, 101u8, 61u8, 34u8] + needle + seq![34u8]
    } else {
        seq![110u8, 97u8, 109u8, 101u8, 61u8, 39u8] + needle + seq![39u8]
    }
}

/// Whether an anchor for `needle` starts at offset `q` of `html`.
pub open spec fn anchor_at(html: Seq<u8>, needle: Seq<u8>, q: int) -> bool {
    exists|k: int| 0 <= k < 4 && #[trigger] occurs_at(html, anchor_pattern(k, needle), q)
}

/// An anchor for `needle` starts at `q` exactly when one of the four
/// attribute forms `id="needle"`, `id='needle'`, `name="needle"` or
/// `name='needle'` (bytes written out here) occurs there.
pub proof fn law_anchor_forms(html: Seq<u8>, needle: Seq<u8>, q: int)
    ensures
        anchor_at(html, needle, q) <==> {
            ||| occurs_at(html, seq![105u8, 100u8, 61u8, 34u8] + needle + seq![34u8], q)
            ||| occurs_at(html, seq![105u8, 100u8, 61u8, 39u8] + needle + seq![39u8], q)
            ||| occurs_at(html, seq![110u8, 97u8, 109u8, 101u8, 61u8, 34u8] + needle + seq![34u8], q)
            ||| occurs_at(html, seq![110u8, 97u8, 109u8, 101u8, 61u8, 39u8] + needle + seq![39u8], q)
        },
{
    let p0 = seq![105u8, 100u8, 61u8, 34u8] + needle + seq![34u8];
    let p1 = seq![105u8, 100u8, 61u8, 39u8] + needle + seq![39u8];
    let p2 = seq![110u8, 97u8, 109u8, 101u8, 61u8, 34u8] + needle + seq![34u8];
    let p3 = seq![110u8, 97u8, 109u8, 101u8, 61u8, 39u8] + needle + seq![39u8];
    assert(anchor_pattern(0, needle) == p0);
    assert(anchor_pattern(1, needle) == p1);
    assert(anchor_pattern(2, needle) == p2);
    assert(anchor_pattern(3, needle) == p3);
    if anchor_at(html, needle, q) {
        let k = choose|k: int| 0 <= k < 4 && #[trigger] occurs_at(html, anchor_pattern(k, needle), q);
        assert(k == 0 || k == 1 || k == 2 || k == 3);
    }
    if occurs_at(html, p0, q) {
        assert(occurs_at(html, anchor_pattern(0, needle), q));
    }
    if occurs_at(html, p1, q) {
        assert(occurs_at(html, anchor_pattern(1, needle), q));
    }
    if occurs_at(html, p2, q) {
        assert(occurs_at(html, anchor_pattern(2, needle), q));
    }
    if occurs_at(html, p3, q) {
        assert(occurs_at(html, anchor_pattern(3, needle), q));
    }
}

/// The four anchor forms differ pairwise, whatever the needle.
pub proof fn law_anchor_forms_distinct(needle: Seq<u8>)
    ensures
        forall|a: int, b: int|
            0 <= a < b < 4 ==> #[trigger] anchor_pattern(a, needle) != #[trigger] anchor_pattern(b, needle),
{
    assert forall|a: int, b: int| 0 <= a < b < 4 implies #[trigger] anchor_pattern(a, needle)
        != #[trigger] anchor_pattern(b, needle) by {
        let pa = anchor_pattern(a, needle);
        let pb = anchor_pattern(b, needle);
        if a < 2 && b >= 2 {
            assert(pa[0] != pb[0]);
        } else if a == 0 && b == 1 {
            assert(pa[3] != pb[3]);
        } else {
            assert(pa[5] != pb[5]);
        }
    }
}

fn anchor_pattern_exec(k: usize, needle: &[u8]) -> (r: Vec<u8>)
    requires
        k < 4,
    ensures
        r@ == anchor_pattern(k as int, needle@),
{
    let mut out: Vec<u8> = Vec::new();
    if k < 2 {
        out.push(105u8);
        out.push(100u8);
        out.push(61u8);
    } else {
        out.push(110u8);
        out.push(97u8);
        out.push(109u8);
        out.push(101u8);
        out.push(61u8);
    }
    let quote: u8 = if k == 0 || k == 2 { 34u8 } else { 39u8 };
    out.push(quote);
    let ghost head = out@;
    let mut i: usize = 0;
    while i < needle.len()
        invariant
            i <= needle.len(),
            out@ == head + needle@.take(i as int),
        decreases needle.len() - i,
    {
        out.push(needle[i]);
        i += 1;
        assert(out@ =~= head + needle@.take(i as int));
    }
    out.push(quote);
    assert(needle@.take(needle.len() as int) =~= needle@);
    assert(out@ =~= anchor_pattern(k as int, needle@));
    out
}

/// Byte offset of the earliest anchor (`id` or `name` attribute, either
/// quote) naming `fragment` (trimmed) in chapter markup; `None` for empty
/// markup, a blank fragment, or no anchor.
pub fn fragment_anchor_offset(chapter_html: &[u8], fragment: &str) -> (r: Option<usize>)
    ensures
        chapter_html@.len() == 0 || trim_seq(fragment@).len() == 0 ==> r is None,
        r matches Some(p) ==> anchor_at(chapter_html@, encode_utf8(trim_seq(fragment@)), p as int)
            && forall|q: int| 0 <= q < p ==> !anchor_at(chapter_html@, encode_utf8(trim_seq(fragment@)), q),
        chapter_html@.len() > 0 && trim_seq(fragment@).len() > 0 && r is None ==> forall|q: int|
            !anchor_at(chapter_html@, encode_utf8(trim_seq(fragment@)), q),
{
    if chapter_html.len() == 0 {
        return None;
    }
    let v = chars_of(fragment);
    let (lo, hi) = trim_bounds(&v);
    if lo == hi {
        assert(trim_seq(fragment@) =~= fragment@.subrange(lo as int, hi as int));
        return None;
    }
    let trimmed = fragment.substring_char(lo, hi);
    let needle = trimmed.as_bytes();
    let ghost nd = encode_utf8(trim_seq(fragment@));
    assert(needle@ == nd);
    let mut best: Option<usize> = None;
    let mut k: usize = 0;
    while k < 4
        invariant
            k <= 4,
            needle@ == nd,
            match best {
                Some(p) => (exists|j: int| 0 <= j < k && #[trigger] occurs_at(chapter_html@, anchor_pattern(j, nd), p as int))
                    && forall|j: int, q: int| 0 <= j < k && 0 <= q < p ==> !#[trigger] occurs_at(chapter_html@, anchor_pattern(j, nd), q),
                None => forall|j: int, q: int| 0 <= j < k ==> !#[trigger] occurs_at(chapter_html@, anchor_pattern(j, nd), q),
            },
        decreases 4 - k,
    {
        let pattern = anchor_pattern_exec(k, needle);
        let found = find_bytes(chapter_html, pattern.as_slice());
        match found {
            Some(pos) => {
                match best {
                    Some(cur) => {
                        if pos < cur {
                            best = Some(pos);
                        }
                    },
                    None => {
                        best = Some(pos);
                    },
                }
            },
            None => {
                assert(pattern@.len() > 0);
            },
        }
        k += 1;
    }
    best
}

/// Per-run settings of a render that hold plain values: the chapter page
/// range to emit, whether embedded fonts are registered, and the family
/// forced on all text.
#[derive(Clone, Debug, PartialEq, Eq)]
pub struct RenderConfig {
    pub page_range: Option<PageRange>,
    pub embedded_fonts: bool,
    pub forced_font_family: Option<String>,
}

impl Default for RenderConfig {
    fn default() -> (r: Self)
        ensures
            r.page_range is None,
            r.embedded_fonts,
            r.forced_font_family is None,
    {
        RenderConfig { page_range: None, embedded_fonts: true, forced_font_family: None }
    }
}

impl RenderConfig {
    /// Limit emitted pages to the chapter page range `[start, end)`.
    pub fn with_page_range(self, range: PageRange) -> (r: Self)
        ensures
            r.page_range == Some(range),
            r.embedded_fonts == self.embedded_fonts,
            r.forced_font_family == self.forced_font_family,
    {
        RenderConfig { page_range: Some(range), ..self }
    }

    /// Enable or disable embedded-font registration.
    pub fn with_embedded_fonts(self, enabled: bool) -> (r: Self)
        ensures
            r.page_range == self.page_range,
            r.embedded_fonts == enabled,
            r.forced_font_family == self.forced_font_family,
    {
        RenderConfig { embedded_fonts: enabled, ..self }
    }

    /// Force one family on all text; a blank family clears the setting. A
    /// forced family turns embedded fonts off.
    pub fn with_forced_font_family(self, family: &str) -> (r: Self)
        ensures
            r.page_range == self.page_range,
            trim_seq(family@).len() == 0 ==> r.forced_font_family is None && r.embedded_fonts
                == self.embedded_fonts,
            trim_seq(family@).len() > 0 ==> (r.forced_font_family matches Some(f) && f@
                == trim_seq(family@)) && !r.embedded_fonts,
    {
        match forced_family_setting(family) {
            Some(f) => RenderConfig {
                page_range: self.page_range,
                embedded_fonts: false,
                forced_font_family: Some(f),
            },
            None => RenderConfig { forced_font_family: None, ..self },
        }
    }
}

/// Family forced on a render run: the first entry of a CSS family list,
/// trimmed and unquoted, or `serif` when that entry is blank.
pub open spec fn forced_family_name(family: Seq<char>) -> Seq<char> {
    let first = family.take(find_char_from(family, ',', 0));
    let t = strip_char(strip_char(trim_seq(first), '"'), '\'');
    if t.len() == 0 {
        "serif"@
    } else {
        t
    }
}

/// Family forced on a render run: the first entry of a CSS family list,
/// trimmed and unquoted, or `serif` when that entry is blank.
pub fn forced_font_family(family: &str) -> (r: String)
    ensures
        r@ == forced_family_name(family@),
{
    let v = chars_of(family);
    proof {
        crate::paths::lemma_find_char_bounds(v@, ',', 0);
    }
    let k = crate::paths::find_char_exec(&v, ',', 0);
    let mut first: Vec<char> = Vec::new();
    let mut i: usize = 0;
    while i < k
        invariant
            i <= k <= v.len(),
            first@ == v@.take(i as int),
        decreases k - i,
    {
        first.push(v[i]);
        i += 1;
        assert(first@ =~= v@.take(i as int));
    }
    let (lo, hi) = trim_bounds(&first);
    let mut trimmed: Vec<char> = Vec::new();
    let mut j = lo;
    while j < hi
        invariant
            lo <= j <= hi <= first.len(),
            trimmed@ == first@.subrange(lo as int, j as int),
        decreases hi - j,
    {
        trimmed.push(first[j]);
        j += 1;
        assert(trimmed@ =~= first@.subrange(lo as int, j as int));
    }
    let a = strip_char_exec(&trimmed, '"');
    let b = strip_char_exec(&a, '\'');
    if b.len() == 0 {
        return "serif".to_owned();
    }
    string_from_chars(&b)
}

/// Hex digits are `0`..`9` then `a`..`f`, by code point.
pub proof fn law_hex_digits(d: int)
    requires
        0 <= d < 16,
    ensures
        d < 10 ==> hex_digit(d) as int == 48 + d,
        d >= 10 ==> hex_digit(d) as int == 97 + d - 10,
{
}

/// Decimal digits: a number below ten is its one digit (`0`..`9` by code
/// point), and appending a digit `d` to a positive number `n` gives the
/// digits of `10 n + d`.
pub proof fn law_decimal_digits(n: nat, d: nat)
    requires
        d < 10,
    ensures
        decimal(d) == seq![(48 + d) as char],
        n > 0 ==> decimal(n * 10 + d) == decimal(n).push((48 + d) as char),
{
    assert((n * 10 + d) / 10 == n && (n * 10 + d) % 10 == d) by (nonlinear_arith)
        requires d < 10;
}

/// Hex rendering works byte by byte, high nibble first: one byte `x` gives
/// the digits of `x / 16` and `x % 16`, and rendering a concatenation
/// concatenates the renderings.
pub proof fn law_hex_bytes(a: Seq<u8>, b: Seq<u8>, x: u8)
    ensures
        hex_of(seq![x]) == seq![hex_digit(x as int / 16), hex_digit(x as int % 16)],
        hex_of(a + b) == hex_of(a) + hex_of(b),
    decreases b.len(),
{
    assert(seq![x].drop_last() =~= Seq::<u8>::empty());
    assert(hex_of(Seq::<u8>::empty()) == Seq::<char>::empty());
    assert(hex_of(seq![x].drop_last()) == Seq::<char>::empty());
    assert(seq![x].last() == x);
    assert(hex_of(seq![x]) =~= seq![hex_digit(x as int / 16), hex_digit(x as int % 16)]);
    if b.len() == 0 {
        assert(a + b =~= a);
        assert(hex_of(a) + hex_of(b) =~= hex_of(a));
    } else {
        law_hex_bytes(a, b.drop_last(), x);
        assert((a + b).drop_last() =~= a + b.drop_last());
        assert((a + b).last() == b.last());
        assert(hex_of(a + b) =~= hex_of(a) + hex_of(b));
    }
}

} // verus!
