use vstd::prelude::*;

use crate::page_map::{count_equal, first_equal_from, opt_str, ChapterRef, NavPoint};
use crate::paths::{basename, basename_of, find_char_from, normalize_rel_path, normalized_path};
use crate::preview::{split_href_fragment, TocEntryPayload};
use crate::text::str_eq;

verus! {

/// Depth of the children of an entry at depth `d` (saturating).
pub open spec fn child_depth(d: int) -> int {
    if d < usize::MAX {
        d + 1
    } else {
        d
    }
}

/// Label, href and depth of the entries `points[i..]` and their descendants
/// in document order (each entry before its children, children before later
/// siblings), the entries of `points` at `depth`.
pub open spec fn flat_toc(points: Seq<NavPoint>, depth: int, i: int) -> Seq<(Seq<char>, Seq<char>, int)>
    decreases points, points.len() - i,
{
    if i < 0 || i >= points.len() {
        seq![]
    } else {
        let p = points[i];
        seq![(p.label@, p.href@, depth)] + flat_toc(p.children@, child_depth(depth), 0) + flat_toc(
            points,
            depth,
            i + 1,
        )
    }
}

/// Label, href and depth of TOC payload entries.
pub open spec fn flat_view(es: Seq<TocEntryPayload>) -> Seq<(Seq<char>, Seq<char>, int)> {
    es.map_values(|e: TocEntryPayload| (e.label@, e.href@, e.depth as int))
}

/// Part of an href before its first `#`.
pub open spec fn toc_base(href: Seq<char>) -> Seq<char> {
    href.take(find_char_from(href, '#', 0))
}

/// Fragment of an href: what follows its first `#`, possibly empty.
pub open spec fn toc_fragment(href: Seq<char>) -> Option<Seq<char>> {
    let k = find_char_from(href, '#', 0);
    if k < href.len() {
        Some(href.skip(k + 1))
    } else {
        None
    }
}

/// A flattened entry before chapter resolution: no targets, and the
/// fragment of its href.
pub open spec fn unresolved(e: TocEntryPayload) -> bool {
    &&& e.target_chapter is None
    &&& e.target_page_global is None
    &&& opt_str(e.fragment) == toc_fragment(e.href@)
}

/// Index of the last chapter in `chapters[..n]` whose href, or normalised
/// href, is `key` (-1 when none is).
pub open spec fn last_chapter_for_key(chapters: Seq<ChapterRef>, key: Seq<char>, n: int) -> int
    decreases n,
{
    if n <= 0 {
        -1
    } else if chapters[n - 1].href@ == key || normalized_path(chapters[n - 1].href@) == key {
        n - 1
    } else {
        last_chapter_for_key(chapters, key, n - 1)
    }
}

/// Base names of the chapters' normalised hrefs.
pub open spec fn chapter_basenames(chapters: Seq<ChapterRef>) -> Seq<Seq<char>> {
    chapters.map_values(|c: ChapterRef| basename(normalized_path(c.href@)))
}

/// Chapter a TOC href resolves to: the reading session's answer when it
/// had one; else the chapter whose href or normalised href is the
/// normalised base (the last such); else the chapter whose base name is
/// the base's, when exactly one chapter has it.
pub open spec fn toc_target_chapter(chapters: Seq<ChapterRef>, base: Seq<char>, session_hit: Option<
    usize,
>) -> Option<usize> {
    match session_hit {
        Some(c) => Some(c),
        None => {
            let norm = normalized_path(base);
            let k = last_chapter_for_key(chapters, norm, chapters.len() as int);
            let b = basename(norm);
            let bs = chapter_basenames(chapters);
            if k >= 0 {
                Some(chapters[k].index)
            } else if count_equal(bs, b, chapters.len() as int) == 1 {
                Some(chapters[first_equal_from(bs, b, 0)].index)
            } else {
                None
            }
        },
    }
}

/// Entry `i` of a list of optional values, `None` past its end.
pub open spec fn opt_at(s: Seq<Option<usize>>, i: int) -> Option<usize> {
    if 0 <= i < s.len() {
        s[i]
    } else {
        None
    }
}

/// First global page of a chapter, looked up in a table indexed by chapter.
pub open spec fn first_page_at(first_pages: Seq<Option<usize>>, chapter: Option<usize>) -> Option<
    usize,
> {
    match chapter {
        Some(c) => opt_at(first_pages, c as int),
        None => None,
    }
}

fn flatten_from(points: &Vec<NavPoint>, depth: usize, i: usize, out: &mut Vec<TocEntryPayload>)
    requires
        i <= points@.len(),
    ensures
        flat_view(final(out)@) == flat_view(old(out)@) + flat_toc(points@, depth as int, i as int),
        forall|k: int| 0 <= k < old(out)@.len() ==> #[trigger] final(out)@[k] == old(out)@[k],
        forall|k: int|
            old(out)@.len() <= k < final(out)@.len() ==> unresolved(#[trigger] final(out)@[k]),
    decreases points@, points@.len() - i,
{
    let ghost start = out@;
    if i >= points.len() {
        assert(flat_view(out@) =~= flat_view(start) + flat_toc(points@, depth as int, i as int));
        return;
    }
    let p = &points[i];
    let (_, fragment) = split_href_fragment(p.href.as_str());
    out.push(
        TocEntryPayload {
            label: p.label.clone(),
            href: p.href.clone(),
            depth,
            target_chapter: None,
            target_page_global: None,
            fragment,
        },
    );
    let ghost after_one = out@;
    assert(flat_view(after_one) =~= flat_view(start) + seq![(p.label@, p.href@, depth as int)]);
    flatten_from(&p.children, depth.saturating_add(1), 0, out);
    let ghost after_children = out@;
    flatten_from(points, depth, i + 1, out);
    assert(flat_view(out@) =~= flat_view(start) + flat_toc(points@, depth as int, i as int));
    assert forall|k: int| start.len() <= k < out@.len() implies unresolved(#[trigger] out@[k]) by {
        if k < after_one.len() {
            assert(out@[k] == after_children[k]);
            assert(after_children[k] == after_one[k]);
        } else if k < after_children.len() {
            assert(out@[k] == after_children[k]);
        }
    }
}

/// Table of contents in document order, each entry with its nesting depth
/// and href fragment and no chapter target yet.
pub fn flatten_toc(points: &Vec<NavPoint>) -> (r: Vec<TocEntryPayload>)
    ensures
        flat_view(r@) == flat_toc(points@, 0, 0),
        forall|k: int| 0 <= k < r@.len() ==> unresolved(#[trigger] r@[k]),
{
    let mut out: Vec<TocEntryPayload> = Vec::new();
    flatten_from(points, 0, 0, &mut out);
    assert(flat_view(Seq::<TocEntryPayload>::empty()) =~= Seq::empty());
    assert(flat_view(out@) =~= flat_toc(points@, 0, 0));
    out
}

/// Chapter a key names through the href lookup: the last chapter whose
/// href, or normalised href, is `key`.
fn chapter_for_key(chapters: &Vec<ChapterRef>, key: &str) -> (r: Option<usize>)
    ensures
        ({
            let k = last_chapter_for_key(chapters@, key@, chapters@.len() as int);
            if k >= 0 {
                r == Some(chapters@[k].index)
            } else {
                r is None
            }
        }),
{
    let mut found: Option<usize> = None;
    let ghost mut at: int = -1;
    let mut i: usize = 0;
    while i < chapters.len()
        invariant
            i <= chapters@.len(),
            at == last_chapter_for_key(chapters@, key@, i as int),
            -1 <= at < i,
            at >= 0 ==> found == Some(chapters@[at].index),
            at < 0 ==> found is None,
        decreases chapters@.len() - i,
    {
        let c = &chapters[i];
        let normalized = normalize_rel_path(c.href.as_str());
        if str_eq(c.href.as_str(), key) || str_eq(normalized.as_str(), key) {
            found = Some(c.index);
            proof {
                at = i as int;
            }
        }
        i += 1;
    }
    found
}

/// Chapter a base name names through the base-name lookup: the chapter
/// with that base name, when exactly one chapter has it.
fn chapter_for_basename(chapters: &Vec<ChapterRef>, name: &str) -> (r: Option<usize>)
    ensures
        ({
            let bs = chapter_basenames(chapters@);
            if count_equal(bs, name@, chapters@.len() as int) == 1 {
                r == Some(chapters@[first_equal_from(bs, name@, 0)].index)
            } else {
                r is None
            }
        }),
{
    let ghost bs = chapter_basenames(chapters@);
    let mut count: usize = 0;
    let mut first: usize = 0;
    let mut i: usize = 0;
    while i < chapters.len()
        invariant
            bs == chapter_basenames(chapters@),
            i <= chapters@.len(),
            count == count_equal(bs, name@, i as int),
            count <= i,
            count == 0 ==> first_equal_from(bs, name@, i as int) == first_equal_from(bs, name@, 0),
            count > 0 ==> first == first_equal_from(bs, name@, 0) && first < i,
        decreases chapters@.len() - i,
    {
        let normalized = normalize_rel_path(chapters[i].href.as_str());
        let b = basename_of(normalized.as_str());
        assert(bs[i as int] == basename(normalized_path(chapters@[i as int].href@)));
        if str_eq(b, name) {
            if count == 0 {
                first = i;
            }
            count += 1;
        }
        i += 1;
    }
    if count == 1 {
        Some(chapters[first].index)
    } else {
        None
    }
}

/// Chapter a TOC href resolves to (see [`toc_target_chapter`]);
/// `session_hit` is what the book's reading session answered for the full
/// href.
pub fn resolve_chapter_index(session_hit: Option<usize>, base_href: &str, chapters: &Vec<ChapterRef>) -> (r: Option<usize>)
    ensures
        r == toc_target_chapter(chapters@, base_href@, session_hit),
{
    if session_hit.is_some() {
        return session_hit;
    }
    let normalized = normalize_rel_path(base_href);
    match chapter_for_key(chapters, normalized.as_str()) {
        Some(c) => {
            return Some(c);
        },
        None => {},
    }
    let name = basename_of(normalized.as_str());
    chapter_for_basename(chapters, name)
}

/// Flattened TOC entries with their chapter and first-page targets filled
/// in. `session_hits[i]` is the reading session's answer for entry `i`'s
/// href; `chapter_first_global_page[c]` the first global page of chapter
/// `c`, when it was rendered.
pub fn resolve_toc_targets(
    entries: &Vec<TocEntryPayload>,
    session_hits: &Vec<Option<usize>>,
    chapters: &Vec<ChapterRef>,
    chapter_first_global_page: &Vec<Option<usize>>,
) -> (r: Vec<TocEntryPayload>)
    ensures
        r@.len() == entries@.len(),
        forall|i: int|
            0 <= i < r@.len() ==> {
                let e = entries@[i];
                let t = #[trigger] r@[i];
                &&& t.label@ == e.label@
                &&& t.href@ == e.href@
                &&& t.depth == e.depth
                &&& opt_str(t.fragment) == toc_fragment(e.href@)
                &&& t.target_chapter == toc_target_chapter(
                    chapters@,
                    toc_base(e.href@),
                    opt_at(session_hits@, i),
                )
                &&& t.target_page_global == first_page_at(
                    chapter_first_global_page@,
                    t.target_chapter,
                )
            },
{
    let mut out: Vec<TocEntryPayload> = Vec::new();
    let mut i: usize = 0;
    while i < entries.len()
        invariant
            i <= entries@.len(),
            out@.len() == i,
            forall|j: int|
                0 <= j < i ==> {
                    let e = entries@[j];
                    let t = #[trigger] out@[j];
                    &&& t.label@ == e.label@
                    &&& t.href@ == e.href@
                    &&& t.depth == e.depth
                    &&& opt_str(t.fragment) == toc_fragment(e.href@)
                    &&& t.target_chapter == toc_target_chapter(
                        chapters@,
                        toc_base(e.href@),
                        opt_at(session_hits@, j),
                    )
                    &&& t.target_page_global == first_page_at(
                        chapter_first_global_page@,
                        t.target_chapter,
                    )
                },
        decreases entries@.len() - i,
    {
        let e = &entries[i];
        let (base_href, fragment) = split_href_fragment(e.href.as_str());
        let hit = if i < session_hits.len() {
            session_hits[i]
        } else {
            None
        };
        let target_chapter = resolve_chapter_index(hit, base_href.as_str(), chapters);
        let target_page_global = match target_chapter {
            Some(c) => if c < chapter_first_global_page.len() {
                chapter_first_global_page[c]
            } else {
                None
            },
            None => None,
        };
        out.push(
            TocEntryPayload {
                label: e.label.clone(),
                href: e.href.clone(),
                depth: e.depth,
                target_chapter,
                target_page_global,
                fragment,
            },
        );
        i += 1;
    }
    out
}

} // verus!
