use vstd::prelude::*;

use crate::paths::{
    basename, basename_of, href_base, href_fragment, normalize_rel_path, normalized_path,
    split_href_fragment,
};
use crate::text::{chars_of, str_eq, string_from_chars};

verus! {

/// Chapter range alias used for page slicing.
pub type PageRange = core::ops::Range<usize>;

/// Spine chapter reference: position in the spine and OPF-relative href.
#[derive(Clone, Debug, PartialEq, Eq)]
pub struct ChapterRef {
    /// Spine index (0-based).
    pub index: usize,
    /// Manifest id of the chapter.
    pub idref: String,
    /// OPF-relative chapter href.
    pub href: String,
    /// Media type of the chapter document.
    pub media_type: String,
}

/// Compact chapter-level page span used by `RenderBookPageMap`.
#[derive(Clone, Debug, PartialEq, Eq)]
pub struct RenderBookPageMapEntry {
    /// Chapter index in spine order (0-based).
    pub chapter_index: usize,
    /// Chapter href in OPF-relative form.
    pub chapter_href: String,
    /// First global rendered page index for this chapter.
    pub first_page_index: usize,
    /// Rendered page count for this chapter.
    pub page_count: usize,
}

/// `a + b`, saturating at `usize::MAX`.
pub open spec fn sat_add(a: int, b: int) -> int {
    if a + b > usize::MAX {
        usize::MAX as int
    } else {
        a + b
    }
}

/// Whether `entry` spans global page `g`.
pub open spec fn entry_contains(entry: RenderBookPageMapEntry, g: int) -> bool {
    entry.page_count > 0 && entry.first_page_index <= g && g < sat_add(
        entry.first_page_index as int,
        entry.page_count as int,
    )
}

impl RenderBookPageMapEntry {
    /// Whether this chapter's page span contains `global_page_index`.
    pub fn contains_global_page(&self, global_page_index: usize) -> (r: bool)
        ensures
            r == entry_contains(*self, global_page_index as int),
    {
        if self.page_count == 0 {
            return false;
        }
        let start = self.first_page_index;
        let end = start.saturating_add(self.page_count);
        global_page_index >= start && global_page_index < end
    }
}

/// Deterministic locator resolution kind for rendered page targets.
#[derive(Clone, Copy, Debug, PartialEq, Eq)]
pub enum RenderLocatorTargetKind {
    /// Locator mapped directly to the chapter start page.
    ChapterStart,
    /// Locator fragment mapped to a chapter start fallback.
    FragmentFallbackChapterStart,
    /// Locator fragment matched to an explicit anchor page.
    FragmentAnchor,
}

/// Resolved rendered page target for locator/href operations.
#[derive(Clone, Debug, PartialEq, Eq)]
pub struct RenderLocatorPageTarget {
    /// Resolved global page index.
    pub page_index: usize,
    /// Resolved chapter index.
    pub chapter_index: usize,
    /// Resolved chapter href.
    pub chapter_href: String,
    /// Optional fragment payload (without leading '#').
    pub fragment: Option<String>,
    /// Resolution strategy used for this target.
    pub kind: RenderLocatorTargetKind,
}

/// Compact chapter-level rendered page index for locator and remap operations.
#[derive(Clone, Debug, PartialEq, Eq)]
pub struct RenderBookPageMap {
    entries: Vec<RenderBookPageMapEntry>,
    total_pages: usize,
}

/// Page count recorded for the chapter with spine index `index`: the count
/// at `index`, or zero when the counts have no entry there.
pub open spec fn page_count_for(counts: Seq<usize>, index: int) -> int {
    if 0 <= index < counts.len() {
        counts[index] as int
    } else {
        0
    }
}

/// First global page of chapter `i` (saturating running sum of earlier counts).
pub open spec fn first_page_of(chapters: Seq<ChapterRef>, counts: Seq<usize>, i: int) -> int
    decreases i,
{
    if i <= 0 {
        0
    } else {
        sat_add(
            first_page_of(chapters, counts, i - 1),
            page_count_for(counts, chapters[i - 1].index as int),
        )
    }
}

/// Index of the first entry at or after `i` for chapter `c` that has pages (or `es.len()`).
pub open spec fn first_with_pages_from(es: Seq<RenderBookPageMapEntry>, c: int, i: int) -> int
    decreases es.len() - i,
{
    if i >= es.len() {
        es.len() as int
    } else if es[i].chapter_index == c && es[i].page_count > 0 {
        i
    } else {
        first_with_pages_from(es, c, i + 1)
    }
}

/// Index of the first entry at or after `i` spanning global page `g` (or `es.len()`).
pub open spec fn first_containing_from(es: Seq<RenderBookPageMapEntry>, g: int, i: int) -> int
    decreases es.len() - i,
{
    if i >= es.len() {
        es.len() as int
    } else if entry_contains(es[i], g) {
        i
    } else {
        first_containing_from(es, g, i + 1)
    }
}

/// Index of the first element at or after `i` equal to `t` (or `hs.len()`).
pub open spec fn first_equal_from(hs: Seq<Seq<char>>, t: Seq<char>, i: int) -> int
    decreases hs.len() - i,
{
    if i >= hs.len() {
        hs.len() as int
    } else if hs[i] == t {
        i
    } else {
        first_equal_from(hs, t, i + 1)
    }
}

/// Number of elements of `hs[..n]` equal to `t`.
pub open spec fn count_equal(hs: Seq<Seq<char>>, t: Seq<char>, n: int) -> int
    decreases n,
{
    if n <= 0 {
        0
    } else {
        count_equal(hs, t, n - 1) + if hs[n - 1] == t { 1int } else { 0int }
    }
}

/// Chapter hrefs of the entries.
pub open spec fn entry_hrefs(es: Seq<RenderBookPageMapEntry>) -> Seq<Seq<char>> {
    es.map_values(|e: RenderBookPageMapEntry| e.chapter_href@)
}

/// Normalised chapter hrefs of the entries.
pub open spec fn entry_normalized_hrefs(es: Seq<RenderBookPageMapEntry>) -> Seq<Seq<char>> {
    es.map_values(|e: RenderBookPageMapEntry| normalized_path(e.chapter_href@))
}

/// Base names of the normalised chapter hrefs of the entries.
pub open spec fn entry_basenames(es: Seq<RenderBookPageMapEntry>) -> Seq<Seq<char>> {
    es.map_values(|e: RenderBookPageMapEntry| basename(normalized_path(e.chapter_href@)))
}

/// Chapter matched by an href base: exact href first, then normalised href,
/// then a base name that exactly one chapter has.
pub open spec fn chapter_for_href(es: Seq<RenderBookPageMapEntry>, base: Seq<char>) -> Option<
    usize,
> {
    let exact = first_equal_from(entry_hrefs(es), base, 0);
    let norm = first_equal_from(entry_normalized_hrefs(es), normalized_path(base), 0);
    let target = basename(normalized_path(base));
    let by_name = first_equal_from(entry_basenames(es), target, 0);
    if base.len() == 0 {
        None
    } else if exact < es.len() {
        Some(es[exact].chapter_index)
    } else if norm < es.len() {
        Some(es[norm].chapter_index)
    } else if target.len() == 0 {
        None
    } else if count_equal(entry_basenames(es), target, es.len() as int) == 1 {
        Some(es[by_name].chapter_index)
    } else {
        None
    }
}

/// Whether an optional target equals a resolved chapter-start target for entry `e`.
pub open spec fn is_start_target(
    t: RenderLocatorPageTarget,
    e: RenderBookPageMapEntry,
    fragment: Option<Seq<char>>,
    kind: RenderLocatorTargetKind,
) -> bool {
    &&& t.page_index == e.first_page_index
    &&& t.chapter_index == e.chapter_index
    &&& t.chapter_href@ == e.chapter_href@
    &&& t.kind == kind
    &&& match (t.fragment, fragment) {
        (Some(a), Some(b)) => a@ == b,
        (None, None) => true,
        _ => false,
    }
}

/// Target that `resolve_href` gives for an href: `None`, or the chapter-start
/// target of the matched chapter's first entry with pages.
pub open spec fn href_target_entry(es: Seq<RenderBookPageMapEntry>, href: Seq<char>) -> Option<int> {
    let base = href_base(href);
    if base.len() == 0 {
        None
    } else {
        match chapter_for_href(es, base) {
            None => None,
            Some(c) => {
                let k = first_with_pages_from(es, c as int, 0);
                if k < es.len() {
                    Some(k)
                } else {
                    None
                }
            },
        }
    }
}

/// A resolution: the entry whose start page is the target, the fragment
/// carried along, and the target kind.
pub type Resolution = Option<(int, Option<Seq<char>>, RenderLocatorTargetKind)>;

/// Resolution of an href: the matched chapter's start, carrying the href's
/// fragment, marked as a fragment fallback when there is one.
pub open spec fn href_resolution(es: Seq<RenderBookPageMapEntry>, href: Seq<char>) -> Resolution {
    match href_target_entry(es, href) {
        None => None,
        Some(k) => Some(
            (
                k,
                href_fragment(href),
                if href_fragment(href) is Some {
                    RenderLocatorTargetKind::FragmentFallbackChapterStart
                } else {
                    RenderLocatorTargetKind::ChapterStart
                },
            ),
        ),
    }
}

/// Resolution of a chapter's start, carrying `anchor`; a non-empty anchor
/// marks it as a fragment fallback.
pub open spec fn chapter_start_resolution(
    es: Seq<RenderBookPageMapEntry>,
    c: int,
    anchor: Option<Seq<char>>,
) -> Resolution {
    let k = first_with_pages_from(es, c, 0);
    if k < es.len() {
        Some(
            (
                k,
                anchor,
                if anchor is Some && anchor->0.len() > 0 {
                    RenderLocatorTargetKind::FragmentFallbackChapterStart
                } else {
                    RenderLocatorTargetKind::ChapterStart
                },
            ),
        )
    } else {
        None
    }
}

/// Whether a returned target is the one a resolution describes.
pub open spec fn target_matches(
    r: Option<RenderLocatorPageTarget>,
    es: Seq<RenderBookPageMapEntry>,
    res: Resolution,
) -> bool {
    match res {
        None => r is None,
        Some((k, fragment, kind)) => r matches Some(t) && is_start_target(t, es[k], fragment, kind),
    }
}

/// View of an optional string.
pub open spec fn opt_str(o: Option<String>) -> Option<Seq<char>> {
    match o {
        Some(s) => Some(s@),
        None => None,
    }
}

/// View of an optional string slice.
pub open spec fn opt_slice(o: Option<&str>) -> Option<Seq<char>> {
    match o {
        Some(s) => Some(s@),
        None => None,
    }
}

impl Default for RenderBookPageMap {
    /// The empty page map, as [`RenderBookPageMap::new`] gives it.
    fn default() -> (m: Self)
        ensures
            m.spec_entries().len() == 0,
            m.spec_total_pages() == 0,
            m.wf(),
    {
        Self::new()
    }
}

impl RenderBookPageMap {
    /// Chapter-level entries in spine order.
    pub closed spec fn spec_entries(&self) -> Seq<RenderBookPageMapEntry> {
        self.entries@
    }

    /// Total rendered page count represented by this map.
    pub closed spec fn spec_total_pages(&self) -> usize {
        self.total_pages
    }

    /// Entries lie back to back in global page order and `total_pages` closes the last span.
    pub open spec fn wf(&self) -> bool {
        let es = self.spec_entries();
        &&& forall|i: int|
            0 <= i < es.len() ==> #[trigger] es[i].first_page_index == if i == 0 {
                0
            } else {
                sat_add(es[i - 1].first_page_index as int, es[i - 1].page_count as int)
            }
        &&& self.spec_total_pages() == if es.len() == 0 {
            0
        } else {
            sat_add(es.last().first_page_index as int, es.last().page_count as int)
        }
    }

    /// An empty page map.
    pub fn new() -> (m: Self)
        ensures
            m.spec_entries().len() == 0,
            m.spec_total_pages() == 0,
            m.wf(),
    {
        RenderBookPageMap { entries: Vec::new(), total_pages: 0 }
    }

    /// Build a compact page map from spine chapters and rendered page counts.
    ///
    /// `chapter_page_counts` is interpreted in spine-index space: a chapter
    /// whose spine index has no entry counts as `0` pages.
    pub fn from_chapter_page_counts(chapters: &[ChapterRef], chapter_page_counts: &[usize]) -> (m:
        Self)
        ensures
            m.spec_entries().len() == chapters@.len(),
            forall|i: int|
                0 <= i < chapters@.len() ==> {
                    let e = #[trigger] m.spec_entries()[i];
                    &&& e.chapter_index == chapters@[i].index
                    &&& e.chapter_href@ == chapters@[i].href@
                    &&& e.first_page_index == first_page_of(chapters@, chapter_page_counts@, i)
                    &&& e.page_count == page_count_for(chapter_page_counts@, chapters@[i].index as int)
                },
            m.spec_total_pages() == first_page_of(
                chapters@,
                chapter_page_counts@,
                chapters@.len() as int,
            ),
            m.wf(),
    {
        let mut entries: Vec<RenderBookPageMapEntry> = Vec::new();
        let mut first_page_index: usize = 0;
        let mut order: usize = 0;
        while order < chapters.len()
            invariant
                order <= chapters@.len(),
                entries@.len() == order,
                first_page_index == first_page_of(chapters@, chapter_page_counts@, order as int),
                forall|i: int|
                    0 <= i < order ==> {
                        let e = #[trigger] entries@[i];
                        &&& e.chapter_index == chapters@[i].index
                        &&& e.chapter_href@ == chapters@[i].href@
                        &&& e.first_page_index == first_page_of(
                            chapters@,
                            chapter_page_counts@,
                            i,
                        )
                        &&& e.page_count == page_count_for(chapter_page_counts@, chapters@[i].index as int)
                    },
            decreases chapters@.len() - order,
        {
            let chapter = &chapters[order];
            let page_count = if chapter.index < chapter_page_counts.len() {
                chapter_page_counts[chapter.index]
            } else {
                0
            };
            entries.push(
                RenderBookPageMapEntry {
                    chapter_index: chapter.index,
                    chapter_href: chapter.href.clone(),
                    first_page_index,
                    page_count,
                },
            );
            first_page_index = first_page_index.saturating_add(page_count);
            order += 1;
        }
        let m = RenderBookPageMap { entries, total_pages: first_page_index };
        proof {
            let es = m.entries@;
            assert forall|i: int| 0 <= i < es.len() implies #[trigger] es[i].first_page_index
                == if i == 0 {
                0
            } else {
                sat_add(es[i - 1].first_page_index as int, es[i - 1].page_count as int)
            } by {
                if i > 0 {
                    assert(es[i - 1].first_page_index == first_page_of(
                        chapters@,
                        chapter_page_counts@,
                        i - 1,
                    ));
                }
            }
            if es.len() > 0 {
                let n = es.len() - 1;
                assert(es[n as int].first_page_index == first_page_of(
                    chapters@,
                    chapter_page_counts@,
                    n as int,
                ));
            }
        }
        m
    }

    /// Chapter-level entries in spine order.
    pub fn entries(&self) -> (r: &[RenderBookPageMapEntry])
        ensures
            r@ == self.spec_entries(),
    {
        self.entries.as_slice()
    }

    /// Total rendered page count represented by this map.
    pub fn total_pages(&self) -> (r: usize)
        ensures
            r == self.spec_total_pages(),
    {
        self.total_pages
    }

    /// First entry for `chapter_index` that has rendered pages.
    fn chapter_entry_with_pages(&self, chapter_index: usize) -> (r: Option<&RenderBookPageMapEntry>)
        ensures
            ({
                let k = first_with_pages_from(self.spec_entries(), chapter_index as int, 0);
                if k < self.spec_entries().len() {
                    r == Some(&self.spec_entries()[k])
                } else {
                    r is None
                }
            }),
    {
        let mut i: usize = 0;
        while i < self.entries.len()
            invariant
                i <= self.entries@.len(),
                first_with_pages_from(self.entries@, chapter_index as int, i as int)
                    == first_with_pages_from(self.entries@, chapter_index as int, 0),
            decreases self.entries@.len() - i,
        {
            let e = &self.entries[i];
            if e.chapter_index == chapter_index && e.page_count > 0 {
                return Some(e);
            }
            i += 1;
        }
        None
    }

    /// First entry whose page span contains `global_page_index`.
    fn entry_for_global_page(&self, global_page_index: usize) -> (r: Option<
        &RenderBookPageMapEntry,
    >)
        ensures
            ({
                let k = first_containing_from(self.spec_entries(), global_page_index as int, 0);
                if k < self.spec_entries().len() {
                    r == Some(&self.spec_entries()[k])
                } else {
                    r is None
                }
            }),
    {
        let mut i: usize = 0;
        while i < self.entries.len()
            invariant
                i <= self.entries@.len(),
                first_containing_from(self.entries@, global_page_index as int, i as int)
                    == first_containing_from(self.entries@, global_page_index as int, 0),
            decreases self.entries@.len() - i,
        {
            let e = &self.entries[i];
            if e.contains_global_page(global_page_index) {
                return Some(e);
            }
            i += 1;
        }
        None
    }

    /// Resolve the first rendered page for `chapter_index`.
    ///
    /// Returns `None` if the chapter has zero rendered pages or is absent.
    pub fn chapter_start_page_index(&self, chapter_index: usize) -> (r: Option<usize>)
        ensures
            ({
                let k = first_with_pages_from(self.spec_entries(), chapter_index as int, 0);
                if k < self.spec_entries().len() {
                    r == Some(self.spec_entries()[k].first_page_index)
                } else {
                    r is None
                }
            }),
    {
        match self.chapter_entry_with_pages(chapter_index) {
            Some(entry) => Some(entry.first_page_index),
            None => None,
        }
    }

    /// Resolve the rendered global page range for `chapter_index`.
    ///
    /// Returns `None` if the chapter has zero rendered pages or is absent.
    pub fn chapter_page_range(&self, chapter_index: usize) -> (r: Option<PageRange>)
        ensures
            ({
                let k = first_with_pages_from(self.spec_entries(), chapter_index as int, 0);
                if k < self.spec_entries().len() {
                    let e = self.spec_entries()[k];
                    &&& r is Some
                    &&& r->0.start == e.first_page_index
                    &&& r->0.end == sat_add(e.first_page_index as int, e.page_count as int)
                } else {
                    r is None
                }
            }),
    {
        match self.chapter_entry_with_pages(chapter_index) {
            Some(entry) => Some(
                core::ops::Range {
                    start: entry.first_page_index,
                    end: entry.first_page_index.saturating_add(entry.page_count),
                },
            ),
            None => None,
        }
    }

    /// Chapter index matched by an href base (see [`chapter_for_href`]).
    fn find_chapter_index_for_href(&self, base_href: &str) -> (r: Option<usize>)
        ensures
            r == chapter_for_href(self.spec_entries(), base_href@),
    {
        let ghost es = self.entries@;
        if base_href.is_empty() {
            return None;
        }
        let n = self.entries.len();
        let mut i: usize = 0;
        while i < n
            invariant
                n == es.len(),
                es == self.entries@,
                base_href@.len() > 0,
                i <= n,
                first_equal_from(entry_hrefs(es), base_href@, i as int) == first_equal_from(
                    entry_hrefs(es),
                    base_href@,
                    0,
                ),
            decreases n - i,
        {
            assert(entry_hrefs(es)[i as int] == es[i as int].chapter_href@);
            if str_eq(self.entries[i].chapter_href.as_str(), base_href) {
                assert(first_equal_from(entry_hrefs(es), base_href@, i as int) == i);
                return Some(self.entries[i].chapter_index);
            }
            i += 1;
        }
        let normalized_target = normalize_rel_path(base_href);
        let mut i: usize = 0;
        while i < n
            invariant
                n == es.len(),
                es == self.entries@,
                base_href@.len() > 0,
                i <= n,
                first_equal_from(entry_hrefs(es), base_href@, 0) == n,
                normalized_target@ == normalized_path(base_href@),
                first_equal_from(entry_normalized_hrefs(es), normalized_target@, i as int)
                    == first_equal_from(entry_normalized_hrefs(es), normalized_target@, 0),
            decreases n - i,
        {
            assert(entry_normalized_hrefs(es)[i as int] == normalized_path(
                es[i as int].chapter_href@,
            ));
            let normalized_entry = normalize_rel_path(self.entries[i].chapter_href.as_str());
            if str_eq(normalized_entry.as_str(), normalized_target.as_str()) {
                assert(first_equal_from(entry_normalized_hrefs(es), normalized_target@, i as int)
                    == i);
                return Some(self.entries[i].chapter_index);
            }
            i += 1;
        }
        let target_basename = basename_of(normalized_target.as_str());
        proof {
            lemma_first_equal_bounds(bs_of(es), target_basename@, 0);
        }
        if target_basename.is_empty() {
            return None;
        }
        let ghost bs = entry_basenames(es);
        let ghost tb = target_basename@;
        let mut candidate: Option<usize> = None;
        let mut i: usize = 0;
        while i < n
            invariant
                n == es.len(),
                es == self.entries@,
                bs == entry_basenames(es),
                tb == target_basename@,
                tb == basename(normalized_path(base_href@)),
                base_href@.len() > 0,
                tb.len() > 0,
                first_equal_from(entry_hrefs(es), base_href@, 0) == n,
                first_equal_from(entry_normalized_hrefs(es), normalized_path(base_href@), 0)
                    == n,
                i <= n,
                count_equal(bs, tb, i as int) <= 1,
                match candidate {
                    None => count_equal(bs, tb, i as int) == 0,
                    Some(c) => count_equal(bs, tb, i as int) == 1 && 0 <= first_equal_from(
                        bs,
                        tb,
                        0,
                    ) < i && c == es[first_equal_from(bs, tb, 0)].chapter_index,
                },
                count_equal(bs, tb, i as int) == 0 ==> first_equal_from(bs, tb, i as int)
                    == first_equal_from(bs, tb, 0),
            decreases n - i,
        {
            assert(bs[i as int] == basename(normalized_path(es[i as int].chapter_href@)));
            let normalized_entry = normalize_rel_path(self.entries[i].chapter_href.as_str());
            let entry_basename = basename_of(normalized_entry.as_str());
            if str_eq(entry_basename, target_basename) {
                if candidate.is_some() {
                    proof {
                        assert(count_equal(bs, tb, i + 1) == 2);
                        lemma_count_equal_monotone(bs, tb, i + 1, n as int);
                    }
                    return None;
                }
                candidate = Some(self.entries[i].chapter_index);
            }
            i += 1;
        }
        candidate
    }

    /// Resolve a chapter/fragment href into a rendered page target.
    ///
    /// Fragment hrefs deterministically fall back to the chapter start.
    pub fn resolve_href(&self, href: &str) -> (r: Option<RenderLocatorPageTarget>)
        ensures
            target_matches(r, self.spec_entries(), href_resolution(self.spec_entries(), href@)),
    {
        let (base_href, fragment) = split_href_fragment(href);
        if base_href.is_empty() {
            return None;
        }
        let chapter_index = match self.find_chapter_index_for_href(base_href) {
            Some(c) => c,
            None => return None,
        };
        let chapter = match self.chapter_entry_with_pages(chapter_index) {
            Some(e) => e,
            None => return None,
        };
        let kind = match fragment {
            Some(_) => RenderLocatorTargetKind::FragmentFallbackChapterStart,
            None => RenderLocatorTargetKind::ChapterStart,
        };
        let fragment_owned = match fragment {
            Some(f) => Some(f.to_owned()),
            None => None,
        };
        Some(
            RenderLocatorPageTarget {
                page_index: chapter.first_page_index,
                chapter_index: chapter.chapter_index,
                chapter_href: chapter.chapter_href.clone(),
                fragment: fragment_owned,
                kind,
            },
        )
    }

    /// Alias for resolving TOC href targets.
    pub fn resolve_toc_href(&self, href: &str) -> (r: Option<RenderLocatorPageTarget>)
        ensures
            target_matches(r, self.spec_entries(), href_resolution(self.spec_entries(), href@)),
    {
        self.resolve_href(href)
    }

    /// Resolve the start page of `chapter_index`; a non-empty `anchor` marks the
    /// target as a fragment fallback and is carried along.
    pub fn resolve_chapter_start(&self, chapter_index: usize, anchor: Option<&str>) -> (r: Option<
        RenderLocatorPageTarget,
    >)
        ensures
            target_matches(
                r,
                self.spec_entries(),
                chapter_start_resolution(self.spec_entries(), chapter_index as int, opt_slice(anchor)),
            ),
    {
        let chapter = match self.chapter_entry_with_pages(chapter_index) {
            Some(e) => e,
            None => return None,
        };
        let has_anchor = match anchor {
            Some(a) => !a.is_empty(),
            None => false,
        };
        let kind = if has_anchor {
            RenderLocatorTargetKind::FragmentFallbackChapterStart
        } else {
            RenderLocatorTargetKind::ChapterStart
        };
        let fragment = match anchor {
            Some(a) => Some(a.to_owned()),
            None => None,
        };
        Some(
            RenderLocatorPageTarget {
                page_index: chapter.first_page_index,
                chapter_index: chapter.chapter_index,
                chapter_href: chapter.chapter_href.clone(),
                fragment,
                kind,
            },
        )
    }
}

/// Where a rendered global page sits in its chapter and in the book.
#[derive(Clone, Debug, PartialEq, Eq)]
pub struct PagePosition {
    /// Chapter index in spine order.
    pub chapter_index: usize,
    /// Chapter href in OPF-relative form.
    pub chapter_href: String,
    /// Page offset within the chapter.
    pub chapter_page_index: usize,
    /// Pages in the chapter.
    pub chapter_page_count: usize,
    /// Global page index.
    pub global_page_index: usize,
    /// Pages in the book.
    pub global_page_count: usize,
}

/// Entry a saved position maps to: the chapter its href's base names (when
/// that chapter has pages), else its chapter index (when that chapter has
/// pages); `es.len()` when neither.
pub open spec fn token_entry_index(
    es: Seq<RenderBookPageMapEntry>,
    href: Option<Seq<char>>,
    c: int,
) -> int {
    let by_href = match href {
        Some(h) => match chapter_for_href(es, href_base(h)) {
            Some(ci) => first_with_pages_from(es, ci as int, 0),
            None => es.len() as int,
        },
        None => es.len() as int,
    };
    if by_href < es.len() {
        by_href
    } else {
        first_with_pages_from(es, c, 0)
    }
}

/// Global page a requested index is clamped to: the index itself when it is
/// below `total`, else the last page.
pub open spec fn clamp_page(g: int, total: int) -> int {
    if g < total {
        g
    } else {
        total - 1
    }
}

impl RenderBookPageMap {
    /// Entry for a saved reading position: the chapter named by `chapter_href`
    /// (fragment ignored) when it has pages, else chapter `chapter_index`
    /// when it has pages.
    pub fn chapter_entry_for_token(&self, chapter_href: Option<&str>, chapter_index: usize) -> (r:
        Option<&RenderBookPageMapEntry>)
        ensures
            ({
                let es = self.spec_entries();
                let k = token_entry_index(es, opt_slice(chapter_href), chapter_index as int);
                if k < es.len() {
                    r == Some(&es[k])
                } else {
                    r is None
                }
            }),
    {
        match chapter_href {
            Some(href) => {
                let (base_href, _) = split_href_fragment(href);
                match self.find_chapter_index_for_href(base_href) {
                    Some(ci) => match self.chapter_entry_with_pages(ci) {
                        Some(e) => {
                            return Some(e);
                        },
                        None => {},
                    },
                    None => {},
                }
            },
            None => {},
        }
        self.chapter_entry_with_pages(chapter_index)
    }

    /// Chapter and book position of a global page; an out-of-range index is
    /// clamped to the last page. `None` only for a map without pages.
    pub fn page_position_for_page_index(&self, global_page_index: usize) -> (r: Option<
        PagePosition,
    >)
        ensures
            ({
                let es = self.spec_entries();
                let total = self.spec_total_pages() as int;
                let g = clamp_page(global_page_index as int, total);
                let k = first_containing_from(es, g, 0);
                if total == 0 || k >= es.len() {
                    r is None
                } else {
                    &&& r matches Some(p)
                    &&& p.chapter_index == es[k].chapter_index
                    &&& p.chapter_href@ == es[k].chapter_href@
                    &&& p.chapter_page_index == g - es[k].first_page_index
                    &&& p.chapter_page_count == es[k].page_count
                    &&& p.global_page_index == g
                    &&& p.global_page_count == total
                }
            }),
            self.wf() ==> (r is Some <==> self.spec_total_pages() > 0),
    {
        if self.total_pages == 0 {
            return None;
        }
        let clamped = if global_page_index < self.total_pages {
            global_page_index
        } else {
            self.total_pages - 1
        };
        proof {
            lemma_first_containing(self.entries@, clamped as int, 0);
            if self.wf() {
                law_pages_below_total_have_a_chapter(*self, clamped as int);
            }
        }
        let chapter = match self.entry_for_global_page(clamped) {
            Some(e) => e,
            None => return None,
        };
        let chapter_offset = clamped - chapter.first_page_index;
        let chapter_page_count = if chapter.page_count > 1 {
            chapter.page_count
        } else {
            1
        };
        Some(
            PagePosition {
                chapter_index: chapter.chapter_index,
                chapter_href: chapter.chapter_href.clone(),
                chapter_page_index: chapter_offset,
                chapter_page_count,
                global_page_index: clamped,
                global_page_count: self.total_pages,
            },
        )
    }
}

proof fn lemma_first_containing(es: Seq<RenderBookPageMapEntry>, g: int, i: int)
    requires
        0 <= i <= es.len(),
    ensures
        i <= first_containing_from(es, g, i) <= es.len(),
        first_containing_from(es, g, i) < es.len() ==> entry_contains(
            es[first_containing_from(es, g, i)],
            g,
        ),
    decreases es.len() - i,
{
    if i < es.len() && !entry_contains(es[i], g) {
        lemma_first_containing(es, g, i + 1);
    }
}

proof fn lemma_first_containing_finds(es: Seq<RenderBookPageMapEntry>, g: int, i: int, j: int)
    requires
        0 <= i <= j < es.len(),
        entry_contains(es[j], g),
    ensures
        first_containing_from(es, g, i) <= j,
    decreases j - i,
{
    if i < j && !entry_contains(es[i], g) {
        lemma_first_containing_finds(es, g, i + 1, j);
    }
}

proof fn lemma_page_below_end_is_covered(m: RenderBookPageMap, g: int, j: int)
    requires
        m.wf(),
        0 <= j < m.spec_entries().len(),
        0 <= g < sat_add(
            m.spec_entries()[j].first_page_index as int,
            m.spec_entries()[j].page_count as int,
        ),
    ensures
        exists|i: int| 0 <= i <= j && #[trigger] entry_contains(m.spec_entries()[i], g),
    decreases j,
{
    let es = m.spec_entries();
    assert(es[j].first_page_index == if j == 0 {
        0
    } else {
        sat_add(es[j - 1].first_page_index as int, es[j - 1].page_count as int)
    });
    if g >= es[j].first_page_index {
        assert(entry_contains(es[j], g));
    } else {
        lemma_page_below_end_is_covered(m, g, j - 1);
        let i = choose|i: int| 0 <= i <= j - 1 && #[trigger] entry_contains(es[i], g);
        assert(entry_contains(es[i], g));
    }
}

/// In a well-formed page map every global page below `total_pages` lies in
/// the span of some chapter entry, so looking it up always finds a chapter.
pub proof fn law_pages_below_total_have_a_chapter(m: RenderBookPageMap, g: int)
    requires
        m.wf(),
        0 <= g < m.spec_total_pages(),
    ensures
        first_containing_from(m.spec_entries(), g, 0) < m.spec_entries().len(),
{
    let es = m.spec_entries();
    let j = es.len() - 1;
    lemma_page_below_end_is_covered(m, g, j);
    let i = choose|i: int| 0 <= i <= j && #[trigger] entry_contains(es[i], g);
    lemma_first_containing_finds(es, g, 0, i);
}

/// Base names of the entries (shorthand).
spec fn bs_of(es: Seq<RenderBookPageMapEntry>) -> Seq<Seq<char>> {
    entry_basenames(es)
}

/// Counts are never negative.
pub(crate) proof fn lemma_count_equal_nonneg(hs: Seq<Seq<char>>, t: Seq<char>, n: int)
    ensures
        count_equal(hs, t, n) >= 0,
    decreases n,
{
    if n > 0 {
        lemma_count_equal_nonneg(hs, t, n - 1);
    }
}

proof fn lemma_first_equal_bounds(hs: Seq<Seq<char>>, t: Seq<char>, i: int)
    requires
        0 <= i <= hs.len(),
    ensures
        i <= first_equal_from(hs, t, i) <= hs.len(),
    decreases hs.len() - i,
{
    if i < hs.len() && hs[i] != t {
        lemma_first_equal_bounds(hs, t, i + 1);
    }
}

proof fn lemma_count_equal_monotone(hs: Seq<Seq<char>>, t: Seq<char>, a: int, b: int)
    requires
        0 <= a <= b <= hs.len(),
    ensures
        count_equal(hs, t, a) <= count_equal(hs, t, b),
    decreases b - a,
{
    if a < b {
        lemma_count_equal_monotone(hs, t, a, b - 1);
    }
}

/// A navigation (table of contents) entry and its nested entries.
#[derive(Debug)]
pub struct NavPoint {
    pub label: String,
    pub href: String,
    pub children: Vec<NavPoint>,
}

/// Whether a navigation entry answers a TOC id: by its label, or by its
/// href's (non-empty) fragment.
pub open spec fn nav_point_matches(p: NavPoint, id: Seq<char>) -> bool {
    p.label@ == id || href_fragment(p.href@) == Some(id)
}

/// Href of the first entry, in document order (each entry before its
/// children, children before later siblings), among `points[i..]` and their
/// descendants, that answers `id`.
pub open spec fn nav_href_for(points: Seq<NavPoint>, id: Seq<char>, i: int) -> Option<Seq<char>>
    decreases points, points.len() - i,
{
    if i < 0 || i >= points.len() {
        None
    } else {
        let p = points[i];
        if nav_point_matches(p, id) {
            Some(p.href@)
        } else {
            match nav_href_for(p.children@, id, 0) {
                Some(h) => Some(h),
                None => nav_href_for(points, id, i + 1),
            }
        }
    }
}

fn nav_visit(points: &Vec<NavPoint>, id: &str, i: usize) -> (r: Option<String>)
    ensures
        match r {
            Some(h) => nav_href_for(points@, id@, i as int) == Some(h@),
            None => nav_href_for(points@, id@, i as int) is None,
        },
    decreases points@, points@.len() - i,
{
    if i >= points.len() {
        return None;
    }
    let p = &points[i];
    let (_, fragment) = split_href_fragment(p.href.as_str());
    let fragment_matches = match fragment {
        Some(f) => str_eq(f, id),
        None => false,
    };
    if str_eq(p.label.as_str(), id) || fragment_matches {
        return Some(p.href.clone());
    }
    match nav_visit(&p.children, id, 0) {
        Some(h) => Some(h),
        None => nav_visit(points, id, i + 1),
    }
}

/// Navigation data of a book: its table of contents.
#[derive(Debug)]
pub struct Navigation {
    pub toc: Vec<NavPoint>,
}

/// Href of the first navigation entry, in document order, whose label is
/// `id` or whose href fragment is `id`.
pub fn find_toc_href(navigation: &Navigation, id: &str) -> (r: Option<String>)
    ensures
        match r {
            Some(h) => nav_href_for(navigation.toc@, id@, 0) == Some(h@),
            None => nav_href_for(navigation.toc@, id@, 0) is None,
        },
{
    nav_visit(&navigation.toc, id, 0)
}

/// A saved reading position: chapter by spine index and, when known, by
/// href, with an optional anchor inside it.
#[derive(Clone, Debug, PartialEq, Eq)]
pub struct ReadingPosition {
    pub chapter_index: usize,
    pub chapter_href: Option<String>,
    pub anchor: Option<String>,
}

/// A place in a book that a reader can be sent to.
#[derive(Clone, Debug, PartialEq, Eq)]
pub enum Locator {
    /// Start of the chapter with this spine index.
    Chapter(usize),
    /// A chapter href, possibly with a fragment.
    Href(String),
    /// A bare fragment, with no chapter.
    Fragment(String),
    /// A table-of-contents entry, by label or fragment.
    TocId(String),
    /// A saved reading position.
    Position(ReadingPosition),
}

/// `href#anchor` as characters.
pub open spec fn with_fragment(href: Seq<char>, anchor: Seq<char>) -> Seq<char> {
    href + seq!['#'] + anchor
}

/// Resolution of a reading position: its href with its (non-empty) anchor,
/// else its href alone, else the start of its chapter by index carrying
/// the anchor.
pub open spec fn position_resolution(es: Seq<RenderBookPageMapEntry>, pos: ReadingPosition) -> Resolution {
    let anchor = opt_str(pos.anchor);
    let by_anchor = match pos.chapter_href {
        Some(h) => if anchor is Some && anchor->0.len() > 0 {
            href_resolution(es, with_fragment(h@, anchor->0))
        } else {
            None
        },
        None => None,
    };
    let by_href = match pos.chapter_href {
        Some(h) => href_resolution(es, h@),
        None => None,
    };
    if by_anchor is Some {
        by_anchor
    } else if by_href is Some {
        by_href
    } else {
        chapter_start_resolution(es, pos.chapter_index as int, anchor)
    }
}

/// Resolution of a locator; a TOC id needs the navigation data, and a bare
/// fragment never resolves.
pub open spec fn locator_resolution(
    es: Seq<RenderBookPageMapEntry>,
    locator: Locator,
    navigation: Option<&Navigation>,
) -> Resolution {
    match locator {
        Locator::Chapter(c) => chapter_start_resolution(es, c as int, None),
        Locator::Href(h) => href_resolution(es, h@),
        Locator::Fragment(_) => None,
        Locator::TocId(id) => match navigation {
            None => None,
            Some(n) => match nav_href_for(n.toc@, id@, 0) {
                None => None,
                Some(h) => href_resolution(es, h),
            },
        },
        Locator::Position(p) => position_resolution(es, p),
    }
}

fn join_fragment(href: &str, anchor: &str) -> (r: String)
    ensures
        r@ == with_fragment(href@, anchor@),
{
    let mut v = chars_of(href);
    v.push('#');
    let a = chars_of(anchor);
    let ghost start = v@;
    let mut i: usize = 0;
    while i < a.len()
        invariant
            i <= a.len(),
            v@ == start + a@.take(i as int),
        decreases a.len() - i,
    {
        v.push(a[i]);
        i += 1;
        assert(v@ =~= start + a@.take(i as int));
    }
    assert(a@.take(a.len() as int) =~= a@);
    string_from_chars(&v)
}

impl RenderBookPageMap {
    fn resolve_position_locator(&self, position: &ReadingPosition) -> (r: Option<
        RenderLocatorPageTarget,
    >)
        ensures
            target_matches(
                r,
                self.spec_entries(),
                position_resolution(self.spec_entries(), *position),
            ),
    {
        let ghost es = self.spec_entries();
        match &position.chapter_href {
            Some(href) => {
                match &position.anchor {
                    Some(anchor) => {
                        if !anchor.as_str().is_empty() {
                            let joined = join_fragment(href.as_str(), anchor.as_str());
                            let t = self.resolve_href(joined.as_str());
                            if t.is_some() {
                                return t;
                            }
                        }
                    },
                    None => {},
                }
                let t = self.resolve_href(href.as_str());
                if t.is_some() {
                    return t;
                }
            },
            None => {},
        }
        let anchor: Option<&str> = match &position.anchor {
            Some(a) => Some(a.as_str()),
            None => None,
        };
        self.resolve_chapter_start(position.chapter_index, anchor)
    }

    /// Resolve a locator into a rendered page target; pass `navigation` to
    /// resolve a TOC id.
    pub fn resolve_locator(&self, locator: &Locator, navigation: Option<&Navigation>) -> (r: Option<
        RenderLocatorPageTarget,
    >)
        ensures
            target_matches(
                r,
                self.spec_entries(),
                locator_resolution(self.spec_entries(), *locator, navigation),
            ),
    {
        match locator {
            Locator::Chapter(chapter_index) => self.resolve_chapter_start(*chapter_index, None),
            Locator::Href(href) => self.resolve_href(href.as_str()),
            Locator::Fragment(_) => None,
            Locator::TocId(id) => {
                let navigation = match navigation {
                    Some(n) => n,
                    None => return None,
                };
                match find_toc_href(navigation, id.as_str()) {
                    Some(href) => self.resolve_href(href.as_str()),
                    None => None,
                }
            },
            Locator::Position(pos) => self.resolve_position_locator(pos),
        }
    }
}

proof fn lemma_find_hash_after_base(base: Seq<char>, frag: Seq<char>, i: int)
    requires
        0 <= i <= base.len(),
        forall|j: int| 0 <= j < base.len() ==> base[j] != '#',
    ensures
        crate::paths::find_char_from(base + seq!['#'] + frag, '#', i) == base.len(),
        crate::paths::find_char_from(base, '#', i) == base.len(),
    decreases base.len() - i,
{
    let h = base + seq!['#'] + frag;
    if i < base.len() {
        assert(h[i] == base[i]);
        lemma_find_hash_after_base(base, frag, i + 1);
    } else {
        assert(h[i] == '#');
    }
}

/// A fragment href resolves to the same chapter-start page as its base href
/// (a fragment never moves the target), and the fragment, when non-empty,
/// is carried along.
pub proof fn law_fragment_falls_back_to_chapter_start(
    es: Seq<RenderBookPageMapEntry>,
    base: Seq<char>,
    frag: Seq<char>,
)
    requires
        forall|j: int| 0 <= j < base.len() ==> base[j] != '#',
    ensures
        href_target_entry(es, base + seq!['#'] + frag) == href_target_entry(es, base),
        href_fragment(base) is None,
        frag.len() > 0 ==> href_fragment(base + seq!['#'] + frag) == Some(frag),
        frag.len() == 0 ==> href_fragment(base + seq!['#'] + frag) is None,
{
    lemma_find_hash_after_base(base, frag, 0);
    let h = base + seq!['#'] + frag;
    assert(href_base(h) =~= base);
    assert(href_base(base) =~= base);
    if frag.len() > 0 {
        assert(h.skip(base.len() as int + 1) =~= frag);
    }
}

proof fn lemma_first_with_pages_at_most(es: Seq<RenderBookPageMapEntry>, c: int, i: int, j: int)
    requires
        0 <= i <= j < es.len(),
        es[j].chapter_index == c,
        es[j].page_count > 0,
    ensures
        i <= first_with_pages_from(es, c, i) <= j,
        es[first_with_pages_from(es, c, i)].chapter_index == c,
    decreases j - i,
{
    if i < j && !(es[i].chapter_index == c && es[i].page_count > 0) {
        lemma_first_with_pages_at_most(es, c, i + 1, j);
    }
}

/// Remapping a saved position keeps the chapter its href names: when the
/// href (without fragment) is some entry's chapter href and that entry has
/// pages, the position maps to that chapter whatever its chapter-index hint.
pub proof fn law_token_href_keeps_chapter(es: Seq<RenderBookPageMapEntry>, href: Seq<char>, hint: int)
    requires
        href.len() > 0,
        forall|j: int| 0 <= j < href.len() ==> href[j] != '#',
        first_equal_from(entry_hrefs(es), href, 0) < es.len(),
        es[first_equal_from(entry_hrefs(es), href, 0)].page_count > 0,
    ensures
        ({
            let j = first_equal_from(entry_hrefs(es), href, 0);
            let t = token_entry_index(es, Some(href), hint);
            0 <= t < es.len() && es[t].chapter_index == es[j].chapter_index
        }),
{
    lemma_find_hash_after_base(href, seq![], 0);
    assert(href_base(href) =~= href);
    let j = first_equal_from(entry_hrefs(es), href, 0);
    lemma_first_equal_bounds(entry_hrefs(es), href, 0);
    lemma_first_with_pages_at_most(es, es[j].chapter_index as int, 0, j);
}

/// A saved position whose href has no fragment and resolves, with a
/// non-empty anchor, lands on the same page as its href alone, carrying the
/// anchor as the fragment.
pub proof fn law_position_anchor_lands_on_href_page(
    es: Seq<RenderBookPageMapEntry>,
    pos: ReadingPosition,
)
    requires
        pos.chapter_href is Some,
        pos.anchor is Some,
        pos.anchor->0@.len() > 0,
        forall|j: int|
            0 <= j < pos.chapter_href->0@.len() ==> pos.chapter_href->0@[j] != '#',
        href_target_entry(es, pos.chapter_href->0@) is Some,
    ensures
        ({
            let h = pos.chapter_href->0@;
            let a = pos.anchor->0@;
            position_resolution(es, pos) == Some(
                (
                    href_target_entry(es, h)->0,
                    Some(a),
                    RenderLocatorTargetKind::FragmentFallbackChapterStart,
                ),
            )
        }),
{
    let h = pos.chapter_href->0@;
    let a = pos.anchor->0@;
    law_fragment_falls_back_to_chapter_start(es, h, a);
}

proof fn lemma_first_with_pages_has_pages(es: Seq<RenderBookPageMapEntry>, c: int, i: int)
    requires
        0 <= i <= es.len(),
    ensures
        i <= first_with_pages_from(es, c, i) <= es.len(),
        first_with_pages_from(es, c, i) < es.len() ==> es[first_with_pages_from(es, c, i)].page_count
            > 0,
    decreases es.len() - i,
{
    if i < es.len() && !(es[i].chapter_index == c && es[i].page_count > 0) {
        lemma_first_with_pages_has_pages(es, c, i + 1);
    }
}

proof fn lemma_span_end_within_total(m: RenderBookPageMap, k: int)
    requires
        m.wf(),
        0 <= k < m.spec_entries().len(),
    ensures
        sat_add(
            m.spec_entries()[k].first_page_index as int,
            m.spec_entries()[k].page_count as int,
        ) <= m.spec_total_pages(),
    decreases m.spec_entries().len() - k,
{
    let es = m.spec_entries();
    if k + 1 < es.len() {
        lemma_span_end_within_total(m, k + 1);
        assert(es[k + 1].first_page_index == sat_add(
            es[k].first_page_index as int,
            es[k].page_count as int,
        ));
    }
}

/// Remapping a saved position stays inside the book: the entry chosen for
/// it has pages, and its page span ends no later than the book's last page
/// (spans are summed saturating at `usize::MAX`).
pub proof fn law_token_entry_lies_in_book(m: RenderBookPageMap, href: Option<Seq<char>>, hint: int)
    requires
        m.wf(),
    ensures
        ({
            let es = m.spec_entries();
            let k = token_entry_index(es, href, hint);
            k < es.len() ==> 0 <= k && es[k].page_count > 0 && sat_add(
                es[k].first_page_index as int,
                es[k].page_count as int,
            ) <= m.spec_total_pages()
        }),
{
    let es = m.spec_entries();
    match href {
        Some(h) => match chapter_for_href(es, href_base(h)) {
            Some(ci) => lemma_first_with_pages_has_pages(es, ci as int, 0),
            None => {},
        },
        None => {},
    }
    lemma_first_with_pages_has_pages(es, hint, 0);
    let k = token_entry_index(es, href, hint);
    if 0 <= k < es.len() {
        lemma_span_end_within_total(m, k);
    }
}

} // verus!
