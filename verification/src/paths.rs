use vstd::prelude::*;

use crate::text::{chars_of, string_from_chars, lower_seq, char_to_lower};
use vstd::string::StrSliceExecFns;

verus! {

/// Index of the first `c` in `s` at or after `i`, or `s.len()` when there is none.
pub open spec fn find_char_from(s: Seq<char>, c: char, i: int) -> int
    decreases s.len() - i,
{
    if i >= s.len() {
        s.len() as int
    } else if s[i] == c {
        i
    } else {
        find_char_from(s, c, i + 1)
    }
}

/// Index of the last `c` in `s[..j]`, or `-1` when there is none.
pub open spec fn last_index_of(s: Seq<char>, c: char, j: int) -> int
    decreases j,
{
    if j <= 0 {
        -1
    } else if s[j - 1] == c {
        j - 1
    } else {
        last_index_of(s, c, j - 1)
    }
}

/// The part of a path before its first `?`.
pub open spec fn without_query(s: Seq<char>) -> Seq<char> {
    s.take(find_char_from(s, '?', 0))
}

/// A path with every `\` replaced by `/`.
pub open spec fn with_forward_slashes(s: Seq<char>) -> Seq<char> {
    s.map_values(|c: char| if c == '\\' { '/' } else { c })
}

/// `s` split at every `/` (always at least one, possibly empty, segment).
pub open spec fn segments(s: Seq<char>) -> Seq<Seq<char>>
    decreases s.len(),
{
    if s.len() == 0 {
        seq![Seq::<char>::empty()]
    } else {
        let prev = segments(s.drop_last());
        if s.last() == '/' {
            prev.push(Seq::<char>::empty())
        } else {
            prev.update(prev.len() - 1, prev.last().push(s.last()))
        }
    }
}

/// Effect of one path segment on the stack of kept segments:
/// empty and `.` segments are dropped, `..` removes the last kept segment.
pub open spec fn apply_segment(kept: Seq<Seq<char>>, seg: Seq<char>) -> Seq<Seq<char>> {
    if seg.len() == 0 || seg == seq!['.'] {
        kept
    } else if seg == seq!['.', '.'] {
        if kept.len() > 0 {
            kept.drop_last()
        } else {
            kept
        }
    } else {
        kept.push(seg)
    }
}

/// Segments joined with `/`.
pub open spec fn join_segments(segs: Seq<Seq<char>>) -> Seq<char>
    decreases segs.len(),
{
    if segs.len() == 0 {
        Seq::<char>::empty()
    } else if segs.len() == 1 {
        segs[0]
    } else {
        join_segments(segs.drop_last()) + seq!['/'] + segs.last()
    }
}

/// Kept segments of a relative path.
pub open spec fn kept_segments(path: Seq<char>) -> Seq<Seq<char>> {
    segments(with_forward_slashes(without_query(path))).fold_left(
        Seq::<Seq<char>>::empty(),
        |kept: Seq<Seq<char>>, seg: Seq<char>| apply_segment(kept, seg),
    )
}

/// Normal form of a relative path: query dropped, `\` read as `/`,
/// empty and `.` segments dropped, `..` segments resolved.
pub open spec fn normalized_path(path: Seq<char>) -> Seq<char> {
    join_segments(kept_segments(path))
}

/// Views of a vector of character vectors.
pub open spec fn views(v: Seq<Vec<char>>) -> Seq<Seq<char>> {
    v.map_values(|x: Vec<char>| x@)
}

proof fn lemma_segments_nonempty(s: Seq<char>)
    ensures
        segments(s).len() >= 1,
    decreases s.len(),
{
    if s.len() > 0 {
        lemma_segments_nonempty(s.drop_last());
    }
}

pub(crate) proof fn lemma_find_char_bounds(s: Seq<char>, c: char, i: int)
    requires
        0 <= i <= s.len(),
    ensures
        i <= find_char_from(s, c, i) <= s.len(),
    decreases s.len() - i,
{
    if i < s.len() && s[i] != c {
        lemma_find_char_bounds(s, c, i + 1);
    }
}

pub(crate) proof fn lemma_last_index_bounds(s: Seq<char>, c: char, j: int)
    requires
        0 <= j <= s.len(),
    ensures
        -1 <= last_index_of(s, c, j) < j,
        last_index_of(s, c, j) >= 0 ==> s[last_index_of(s, c, j)] == c,
    decreases j,
{
    if j > 0 && s[j - 1] != c {
        lemma_last_index_bounds(s, c, j - 1);
    }
}

/// Segment-stack update with the executable stack.
fn apply_segment_exec(kept: &mut Vec<Vec<char>>, seg: Vec<char>)
    ensures
        views(final(kept)@) == apply_segment(views(old(kept)@), seg@),
{
    proof {
        assert(seg@ == seq!['.'] ==> seg@.len() == 1 && seg@[0] == '.');
        assert(seg@ == seq!['.', '.'] ==> seg@.len() == 2 && seg@[0] == '.' && seg@[1] == '.');
    }
    let len = seg.len();
    if len == 0 {
        return ;
    }
    if len == 1 && seg[0] == '.' {
        assert(seg@ =~= seq!['.']);
        return ;
    }
    if len == 2 && seg[0] == '.' && seg[1] == '.' {
        assert(seg@ =~= seq!['.', '.']);
        if kept.len() > 0 {
            let _ = kept.pop();
            assert(views(kept@) =~= views(old(kept)@).drop_last());
        }
        return ;
    }
    kept.push(seg);
    assert(views(kept@) =~= views(old(kept)@).push(seg@));
}

/// Normalise a relative resource path (see [`normalized_path`]).
pub fn normalize_rel_path(path: &str) -> (r: String)
    ensures
        r@ == normalized_path(path@),
{
    let v = chars_of(path);
    let ghost f = |kept: Seq<Seq<char>>, seg: Seq<char>| apply_segment(kept, seg);
    let mut kept: Vec<Vec<char>> = Vec::new();
    let mut cur: Vec<char> = Vec::new();
    let ghost mut done: Seq<Seq<char>> = Seq::empty();
    let mut i: usize = 0;
    proof {
        assert(with_forward_slashes(v@.take(0)) =~= Seq::<char>::empty());
        assert(views(kept@) =~= Seq::<Seq<char>>::empty());
        assert(done.push(cur@) =~= seq![Seq::<char>::empty()]);
    }
    while i < v.len() && v[i] != '?'
        invariant
            i <= v.len(),
            v@ == path@,
            forall|j: int| 0 <= j < i ==> v@[j] != '?',
            segments(with_forward_slashes(v@.take(i as int))) == done.push(cur@),
            views(kept@) == done.fold_left(Seq::<Seq<char>>::empty(), f),
            f == (|kept: Seq<Seq<char>>, seg: Seq<char>| apply_segment(kept, seg)),
        decreases v.len() - i,
    {
        let c = v[i];
        let ghost prev = with_forward_slashes(v@.take(i as int));
        proof {
            assert(v@.take(i + 1) =~= v@.take(i as int).push(c));
            assert(with_forward_slashes(v@.take(i + 1)) =~= prev.push(
                if c == '\\' { '/' } else { c },
            ));
        }
        if c == '/' || c == '\\' {
            let seg = cur;
            cur = Vec::new();
            apply_segment_exec(&mut kept, seg);
            proof {
                let nd = done.push(seg@);
                assert(nd.drop_last() =~= done);
                done = nd;
                assert(segments(prev.push('/')) == segments(prev).push(Seq::<char>::empty())) by {
                    assert(prev.push('/').drop_last() =~= prev);
                }
                assert(done.push(cur@) =~= segments(prev).push(Seq::<char>::empty()));
            }
        } else {
            let ghost old_cur = cur@;
            cur.push(c);
            proof {
                assert(prev.push(c).drop_last() =~= prev);
                lemma_segments_nonempty(prev);
                assert(segments(prev.push(c)) == segments(prev).update(
                    segments(prev).len() - 1,
                    segments(prev).last().push(c),
                ));
                assert(done.push(cur@) =~= done.push(old_cur).update(
                    done.len() as int,
                    old_cur.push(c),
                ));
            }
        }
        i += 1;
    }
    proof {
        lemma_find_char_bounds(v@, '?', 0);
        assert(find_char_from(v@, '?', 0) == i as int) by {
            assert forall|k: int| 0 <= k <= i implies find_char_from(v@, '?', k) == i as int by {
                lemma_find_from_scan(v@, '?', k, i as int);
            }
        }
        assert(without_query(v@) == v@.take(i as int));
    }
    let seg = cur;
    apply_segment_exec(&mut kept, seg);
    proof {
        let nd = done.push(seg@);
        assert(nd.drop_last() =~= done);
        done = nd;
        assert(views(kept@) == done.fold_left(Seq::<Seq<char>>::empty(), f));
        assert(kept_segments(path@) == views(kept@));
    }
    let mut out: Vec<char> = Vec::new();
    let mut k: usize = 0;
    while k < kept.len()
        invariant
            k <= kept.len(),
            out@ == join_segments(views(kept@).take(k as int)),
        decreases kept.len() - k,
    {
        let ghost before = views(kept@).take(k as int);
        proof {
            assert(views(kept@).take(k + 1).drop_last() =~= before);
        }
        if k > 0 {
            out.push('/');
        }
        let mut j: usize = 0;
        let ghost base = out@;
        while j < kept[k].len()
            invariant
                k < kept.len(),
                j <= kept@[k as int]@.len(),
                out@ == base + kept@[k as int]@.take(j as int),
            decreases kept@[k as int]@.len() - j,
        {
            out.push(kept[k][j]);
            j += 1;
            assert(out@ =~= base + kept@[k as int]@.take(j as int));
        }
        proof {
            assert(kept@[k as int]@.take(j as int) =~= kept@[k as int]@);
            assert(views(kept@).take(k + 1).last() == kept@[k as int]@);
            if k == 0 {
                assert(out@ =~= join_segments(views(kept@).take(k + 1)));
            } else {
                assert(out@ =~= join_segments(views(kept@).take(k + 1)));
            }
        }
        k += 1;
    }
    assert(views(kept@).take(kept.len() as int) =~= views(kept@));
    string_from_chars(&out)
}

proof fn lemma_find_from_scan(s: Seq<char>, c: char, k: int, i: int)
    requires
        0 <= k <= i <= s.len(),
        forall|j: int| 0 <= j < i ==> s[j] != c,
        i == s.len() || s[i] == c,
    ensures
        find_char_from(s, c, k) == i,
    decreases i - k,
{
    if k < i {
        lemma_find_from_scan(s, c, k + 1, i);
    }
}

/// Scan for the first `c` in `v[i..]`.
pub(crate) fn find_char_exec(v: &Vec<char>, c: char, i: usize) -> (r: usize)
    requires
        i <= v.len(),
    ensures
        r as int == find_char_from(v@, c, i as int),
        i <= r <= v.len(),
{
    let mut k = i;
    while k < v.len() && v[k] != c
        invariant
            i <= k <= v.len(),
            find_char_from(v@, c, k as int) == find_char_from(v@, c, i as int),
        decreases v.len() - k,
    {
        k += 1;
    }
    k
}

/// Scan for the last `c` in `v[..j]`.
pub(crate) fn last_index_exec(v: &Vec<char>, c: char, j: usize) -> (r: Option<usize>)
    requires
        j <= v.len(),
    ensures
        match r {
            Some(k) => k as int == last_index_of(v@, c, j as int),
            None => last_index_of(v@, c, j as int) == -1,
        },
{
    let mut k = j;
    while k > 0 && v[k - 1] != c
        invariant
            k <= j <= v.len(),
            last_index_of(v@, c, k as int) == last_index_of(v@, c, j as int),
        decreases k,
    {
        k -= 1;
    }
    if k == 0 {
        None
    } else {
        Some(k - 1)
    }
}

/// The part of a path after its last `/` (the whole path when it has none).
pub open spec fn basename(s: Seq<char>) -> Seq<char> {
    s.skip(last_index_of(s, '/', s.len() as int) + 1)
}

/// Final path segment: everything after the last `/`.
pub fn basename_of(path: &str) -> (r: &str)
    ensures
        r@ == basename(path@),
{
    let v = chars_of(path);
    proof {
        lemma_last_index_bounds(v@, '/', v@.len() as int);
    }
    let start = match last_index_exec(&v, '/', v.len()) {
        Some(k) => k + 1,
        None => 0,
    };
    path.substring_char(start, v.len())
}

/// Base of an href (before the first `#`).
pub open spec fn href_base(s: Seq<char>) -> Seq<char> {
    s.take(find_char_from(s, '#', 0))
}

/// Fragment of an href (after the first `#`), absent when empty.
pub open spec fn href_fragment(s: Seq<char>) -> Option<Seq<char>> {
    let k = find_char_from(s, '#', 0);
    if k < s.len() && k + 1 < s.len() {
        Some(s.skip(k + 1))
    } else {
        None
    }
}

/// Split an href at its first `#`; an empty fragment is reported as absent.
pub fn split_href_fragment(href: &str) -> (r: (&str, Option<&str>))
    ensures
        r.0@ == href_base(href@),
        match r.1 {
            Some(f) => href_fragment(href@) == Some(f@),
            None => href_fragment(href@) is None,
        },
{
    let v = chars_of(href);
    let k = find_char_exec(&v, '#', 0);
    let base = href.substring_char(0, k);
    if k < v.len() && k + 1 < v.len() {
        let frag = href.substring_char(k + 1, v.len());
        (base, Some(frag))
    } else {
        (base, None)
    }
}

/// Lower-cased extension of a resource path, ignoring any fragment and query.
pub open spec fn path_extension(path: Seq<char>) -> Option<Seq<char>> {
    let a = path.take(find_char_from(path, '#', 0));
    let b = a.take(find_char_from(a, '?', 0));
    let d = last_index_of(b, '.', b.len() as int);
    if d < 0 {
        None
    } else {
        Some(lower_seq(b.skip(d + 1)))
    }
}

/// Extension of `path` (text after the last `.` before any `#` or `?`), lower-cased.
pub fn extension_of(path: &str) -> (r: Option<String>)
    ensures
        match r {
            Some(e) => path_extension(path@) == Some(e@),
            None => path_extension(path@) is None,
        },
{
    let v = chars_of(path);
    let k1 = find_char_exec(&v, '#', 0);
    let mut a: Vec<char> = Vec::new();
    let mut i: usize = 0;
    while i < k1
        invariant
            i <= k1 <= v.len(),
            a@ == v@.take(i as int),
        decreases k1 - i,
    {
        a.push(v[i]);
        i += 1;
        assert(a@ =~= v@.take(i as int));
    }
    proof {
        lemma_find_char_bounds(a@, '?', 0);
    }
    let k2 = find_char_exec(&a, '?', 0);
    proof {
        lemma_last_index_bounds(a@.take(k2 as int), '.', k2 as int);
    }
    let mut d_opt: Option<usize> = None;
    let mut j = k2;
    while j > 0 && a[j - 1] != '.'
        invariant
            j <= k2 <= a.len(),
            last_index_of(a@.take(k2 as int), '.', j as int) == last_index_of(
                a@.take(k2 as int),
                '.',
                k2 as int,
            ),
        decreases j,
    {
        j -= 1;
    }
    if j == 0 {
        return None;
    }
    let d = j - 1;
    let mut out: Vec<char> = Vec::new();
    let mut t = d + 1;
    while t < k2
        invariant
            d + 1 <= t <= k2 <= a.len(),
            out@ == lower_seq(a@.subrange(d + 1, t as int)),
        decreases k2 - t,
    {
        out.push(char_to_lower(a[t]));
        t += 1;
        assert(out@ =~= lower_seq(a@.subrange(d + 1, t as int)));
    }
    proof {
        assert(a@.take(k2 as int).skip(d + 1) =~= a@.subrange(d + 1, k2 as int));
    }
    Some(string_from_chars(&out))
}

/// Whether `needle` occurs in `hay` at offset `i`.
pub open spec fn occurs_at(hay: Seq<u8>, needle: Seq<u8>, i: int) -> bool {
    0 <= i && i + needle.len() <= hay.len() && hay.subrange(i, i + needle.len()) == needle
}

/// Compare `hay[i..i+needle.len()]` with `needle`.
fn occurs_at_exec(hay: &[u8], needle: &[u8], i: usize) -> (b: bool)
    requires
        i + needle.len() <= hay.len(),
    ensures
        b == occurs_at(hay@, needle@, i as int),
{
    let mut j: usize = 0;
    while j < needle.len()
        invariant
            j <= needle.len(),
            i + needle.len() <= hay.len(),
            forall|t: int| 0 <= t < j ==> hay@[i + t] == needle@[t],
        decreases needle.len() - j,
    {
        if hay[i + j] != needle[j] {
            assert(hay@.subrange(i as int, i + needle.len())[j as int] != needle@[j as int]);
            return false;
        }
        j += 1;
    }
    assert(hay@.subrange(i as int, i + needle.len()) =~= needle@);
    true
}

/// First offset of a non-empty `needle` in `haystack`.
pub fn find_bytes(haystack: &[u8], needle: &[u8]) -> (r: Option<usize>)
    ensures
        match r {
            Some(p) => needle@.len() > 0 && occurs_at(haystack@, needle@, p as int)
                && forall|q: int| 0 <= q < p ==> !occurs_at(haystack@, needle@, q),
            None => needle@.len() == 0 || forall|q: int| !occurs_at(haystack@, needle@, q),
        },
{
    if needle.len() == 0 || needle.len() > haystack.len() {
        return None;
    }
    let last = haystack.len() - needle.len();
    let mut i: usize = 0;
    while i <= last
        invariant
            last + needle.len() == haystack.len(),
            needle.len() > 0,
            forall|q: int| 0 <= q < i ==> !occurs_at(haystack@, needle@, q),
        decreases last + 1 - i,
    {
        if occurs_at_exec(haystack, needle, i) {
            return Some(i);
        }
        i += 1;
    }
    None
}

/// Offset of the first `\r\n\r\n` (end of an HTTP header) in `buf`.
pub open spec fn header_terminator() -> Seq<u8> {
    seq![13u8, 10u8, 13u8, 10u8]
}

/// Offset at which the blank line ending an HTTP header starts.
pub fn find_header_end(buf: &[u8]) -> (r: Option<usize>)
    ensures
        match r {
            Some(p) => occurs_at(buf@, header_terminator(), p as int) && forall|q: int|
                0 <= q < p ==> !occurs_at(buf@, header_terminator(), q),
            None => forall|q: int| !occurs_at(buf@, header_terminator(), q),
        },
{
    if buf.len() < 4 {
        return None;
    }
    let mut idx: usize = 0;
    while idx <= buf.len() - 4
        invariant
            buf.len() >= 4,
            forall|q: int| 0 <= q < idx ==> !occurs_at(buf@, header_terminator(), q),
        decreases buf.len() - idx,
    {
        if buf[idx] == 13u8 && buf[idx + 1] == 10u8 && buf[idx + 2] == 13u8 && buf[idx + 3] == 10u8 {
            assert(buf@.subrange(idx as int, idx + 4) =~= header_terminator());
            return Some(idx);
        }
        proof {
            if occurs_at(buf@, header_terminator(), idx as int) {
                assert(buf@.subrange(idx as int, idx + 4)[0] == buf@[idx as int]);
                assert(buf@.subrange(idx as int, idx + 4)[1] == buf@[idx + 1]);
                assert(buf@.subrange(idx as int, idx + 4)[2] == buf@[idx + 2]);
                assert(buf@.subrange(idx as int, idx + 4)[3] == buf@[idx + 3]);
            }
        }
        idx += 1;
    }
    None
}


/// A segment a normalised path keeps: non-empty, neither `.` nor `..`, and
/// free of `/`, `?` and `\`.
pub open spec fn kept_segment(seg: Seq<char>) -> bool {
    &&& seg.len() > 0
    &&& seg != seq!['.']
    &&& seg != seq!['.', '.']
    &&& forall|j: int| 0 <= j < seg.len() ==> seg[j] != '/' && seg[j] != '?' && seg[j] != '\\'
}

/// Whether no character of `s` is `c`.
pub open spec fn lacks(s: Seq<char>, c: char) -> bool {
    forall|j: int| 0 <= j < s.len() ==> s[j] != c
}

proof fn lemma_before_first(s: Seq<char>, c: char, i: int, j: int)
    requires
        0 <= i <= j < find_char_from(s, c, i),
        j < s.len(),
    ensures
        s[j] != c,
    decreases j - i,
{
    if i < j {
        lemma_before_first(s, c, i + 1, j);
    }
}

proof fn lemma_segments_lack(s: Seq<char>, c: char)
    requires
        c == '/' || lacks(s, c),
    ensures
        forall|i: int| 0 <= i < segments(s).len() ==> lacks(#[trigger] segments(s)[i], c),
    decreases s.len(),
{
    if s.len() > 0 {
        let prev = segments(s.drop_last());
        lemma_segments_lack(s.drop_last(), c);
        lemma_segments_nonempty(s.drop_last());
        if s.last() != '/' {
            assert forall|i: int| 0 <= i < segments(s).len() implies lacks(#[trigger] segments(s)[i], c) by {
                if i == prev.len() - 1 {
                    let seg = prev.last().push(s.last());
                    assert(segments(s)[i] == seg);
                    assert forall|j: int| 0 <= j < seg.len() implies seg[j] != c by {
                        if j < seg.len() - 1 {
                            assert(seg[j] == prev.last()[j]);
                        } else {
                            assert(s[s.len() - 1] == s.last());
                        }
                    }
                }
            }
        }
    }
}

proof fn lemma_segments_append(x: Seq<char>, b: Seq<char>)
    requires
        lacks(b, '/'),
    ensures
        segments(x + b) == segments(x).update(
            segments(x).len() - 1,
            segments(x).last() + b,
        ),
    decreases b.len(),
{
    lemma_segments_nonempty(x);
    if b.len() == 0 {
        assert(x + b =~= x);
        assert(segments(x).last() + b =~= segments(x).last());
        assert(segments(x).update(segments(x).len() - 1, segments(x).last()) =~= segments(x));
    } else {
        let b0 = b.drop_last();
        lemma_segments_append(x, b0);
        assert((x + b).drop_last() =~= x + b0);
        assert((x + b).last() == b.last());
        lemma_segments_nonempty(x + b0);
        let prev = segments(x + b0);
        assert(prev.last() == segments(x).last() + b0);
        assert(prev.last().push(b.last()) =~= segments(x).last() + b);
        assert(segments(x + b) =~= segments(x).update(segments(x).len() - 1, segments(x).last() + b));
    }
}

proof fn lemma_segments_of_join(ks: Seq<Seq<char>>)
    requires
        ks.len() >= 1,
        forall|i: int| 0 <= i < ks.len() ==> lacks(#[trigger] ks[i], '/'),
    ensures
        segments(join_segments(ks)) == ks,
    decreases ks.len(),
{
    if ks.len() == 1 {
        let e = Seq::<char>::empty();
        lemma_segments_append(e, ks[0]);
        assert(e + ks[0] =~= ks[0]);
        assert(segments(e).last() + ks[0] =~= ks[0]);
        assert(segments(ks[0]) =~= ks);
    } else {
        let a = join_segments(ks.drop_last());
        lemma_segments_of_join(ks.drop_last());
        assert(a.push('/').drop_last() =~= a);
        assert(segments(a.push('/')) == segments(a).push(Seq::<char>::empty()));
        assert(a + seq!['/'] =~= a.push('/'));
        lemma_segments_append(a + seq!['/'], ks.last());
        assert(Seq::<char>::empty() + ks.last() =~= ks.last());
        assert(segments(join_segments(ks)) =~= ks);
    }
}

proof fn lemma_join_lacks(ks: Seq<Seq<char>>, c: char)
    requires
        c != '/',
        forall|i: int| 0 <= i < ks.len() ==> lacks(#[trigger] ks[i], c),
    ensures
        lacks(join_segments(ks), c),
    decreases ks.len(),
{
    if ks.len() > 1 {
        lemma_join_lacks(ks.drop_last(), c);
        let a = join_segments(ks.drop_last());
        let r = join_segments(ks);
        assert forall|j: int| 0 <= j < r.len() implies r[j] != c by {
            if j < a.len() {
                assert(r[j] == a[j]);
            } else if j > a.len() {
                assert(r[j] == ks.last()[j - a.len() - 1]);
            }
        }
    } else if ks.len() == 1 {
        assert(ks[0] == ks[0]);
    }
}

proof fn lemma_fold_keeps_segments(segs: Seq<Seq<char>>)
    requires
        forall|i: int| 0 <= i < segs.len() ==> {
            let seg = #[trigger] segs[i];
            lacks(seg, '/') && lacks(seg, '?') && lacks(seg, '\\')
        },
    ensures
        ({
            let kept = segs.fold_left(
                Seq::<Seq<char>>::empty(),
                |kept: Seq<Seq<char>>, seg: Seq<char>| apply_segment(kept, seg),
            );
            forall|i: int| 0 <= i < kept.len() ==> kept_segment(#[trigger] kept[i])
        }),
    decreases segs.len(),
{
    if segs.len() > 0 {
        let f = |kept: Seq<Seq<char>>, seg: Seq<char>| apply_segment(kept, seg);
        lemma_fold_keeps_segments(segs.drop_last());
        let seg = segs.last();
        assert(segs[segs.len() - 1] == seg);
        let prev = segs.drop_last().fold_left(Seq::<Seq<char>>::empty(), f);
        let kept = segs.fold_left(Seq::<Seq<char>>::empty(), f);
        assert(kept == apply_segment(prev, seg));
        assert forall|i: int| 0 <= i < kept.len() implies kept_segment(#[trigger] kept[i]) by {
            if seg.len() == 0 || seg == seq!['.'] || seg == seq!['.', '.'] {
                assert(kept[i] == prev[i]);
            } else if i < prev.len() {
                assert(kept[i] == prev[i]);
            } else {
                assert(kept[i] == seg);
            }
        }
    }
}

proof fn lemma_fold_of_kept(ks: Seq<Seq<char>>)
    requires
        forall|i: int| 0 <= i < ks.len() ==> kept_segment(#[trigger] ks[i]),
    ensures
        ks.fold_left(
            Seq::<Seq<char>>::empty(),
            |kept: Seq<Seq<char>>, seg: Seq<char>| apply_segment(kept, seg),
        ) == ks,
    decreases ks.len(),
{
    if ks.len() > 0 {
        lemma_fold_of_kept(ks.drop_last());
        assert(kept_segment(ks[ks.len() - 1]));
        assert(ks.drop_last().push(ks.last()) =~= ks);
    }
}

/// A normalised path is in normal form: it holds no `?` and no `\`, each of
/// its `/`-separated segments is non-empty and neither `.` nor `..` (the empty
/// path has none), and normalising it again changes nothing.
pub proof fn law_normalized_path_is_normal_form(p: Seq<char>)
    ensures
        ({
            let r = normalized_path(p);
            &&& lacks(r, '?')
            &&& lacks(r, '\\')
            &&& r.len() > 0 ==> forall|i: int| 0 <= i < segments(r).len() ==> {
                let seg = #[trigger] segments(r)[i];
                seg.len() > 0 && seg != seq!['.'] && seg != seq!['.', '.']
            }
            &&& normalized_path(r) == r
        }),
{
    let q = without_query(p);
    let w = with_forward_slashes(q);
    lemma_find_char_bounds(p, '?', 0);
    assert(lacks(q, '?')) by {
        assert forall|j: int| 0 <= j < q.len() implies q[j] != '?' by {
            lemma_before_first(p, '?', 0, j);
        }
    }
    assert(lacks(w, '?'));
    assert(lacks(w, '\\'));
    lemma_segments_lack(w, '/');
    lemma_segments_lack(w, '?');
    lemma_segments_lack(w, '\\');
    let segs = segments(w);
    assert forall|i: int| 0 <= i < segs.len() implies {
        let seg = #[trigger] segs[i];
        lacks(seg, '/') && lacks(seg, '?') && lacks(seg, '\\')
    } by {}
    lemma_fold_keeps_segments(segs);
    let ks = kept_segments(p);
    let r = normalized_path(p);
    assert forall|i: int| 0 <= i < ks.len() implies lacks(#[trigger] ks[i], '?') && lacks(ks[i], '\\')
        && lacks(ks[i], '/') by {
        assert(kept_segment(ks[i]));
    }
    lemma_join_lacks(ks, '?');
    lemma_join_lacks(ks, '\\');
    // Normalising `r` again: no query, no backslash, and its segments are `ks`.
    lemma_find_char_bounds(r, '?', 0);
    assert(find_char_from(r, '?', 0) == r.len()) by {
        assert forall|k: int| 0 <= k <= r.len() implies find_char_from(r, '?', k) == r.len() by {
            lemma_find_from_scan(r, '?', k, r.len() as int);
        }
    }
    assert(without_query(r) =~= r);
    assert(with_forward_slashes(r) =~= r);
    if ks.len() > 0 {
        lemma_segments_of_join(ks);
        lemma_fold_of_kept(ks);
        assert forall|i: int| 0 <= i < segments(r).len() implies {
            let seg = #[trigger] segments(r)[i];
            seg.len() > 0 && seg != seq!['.'] && seg != seq!['.', '.']
        } by {
            assert(kept_segment(ks[i]));
        }
        assert(kept_segments(r) == ks);
    } else {
        let f = |kept: Seq<Seq<char>>, seg: Seq<char>| apply_segment(kept, seg);
        assert(r =~= Seq::<char>::empty());
        let e = Seq::<Seq<char>>::empty();
        let one = seq![Seq::<char>::empty()];
        assert(segments(r) == one);
        assert(one.drop_last() =~= e);
        assert(one.fold_left(e, f) == apply_segment(one.drop_last().fold_left(e, f), one.last()));
        assert(one.fold_left(e, f) == e);
        assert(kept_segments(r) == one.fold_left(e, f));
    }
}
/// An href `b#f`, with `b` free of `#`, splits into base `b` and fragment
/// `f` (absent when `f` is empty); an href without `#` is all base.
pub proof fn law_href_split(b: Seq<char>, f: Seq<char>)
    requires
        lacks(b, '#'),
    ensures
        href_base(b + seq!['#'] + f) == b,
        href_fragment(b + seq!['#'] + f) == (if f.len() > 0 { Some(f) } else { None::<Seq<char>> }),
        href_base(b) == b,
        href_fragment(b) is None,
{
    let s = b + seq!['#'] + f;
    lemma_first_at(s, '#', 0, b.len() as int);
    assert(s.take(b.len() as int) =~= b);
    assert(s.skip(b.len() as int + 1) =~= f);
    lemma_none_from(b, '#', 0);
    assert(b.take(b.len() as int) =~= b);
}

proof fn lemma_first_at(s: Seq<char>, c: char, i: int, m: int)
    requires
        0 <= i <= m < s.len(),
        s[m] == c,
        forall|k: int| i <= k < m ==> s[k] != c,
    ensures
        find_char_from(s, c, i) == m,
    decreases m - i,
{
    if i < m {
        lemma_first_at(s, c, i + 1, m);
    }
}

proof fn lemma_none_from(s: Seq<char>, c: char, i: int)
    requires
        0 <= i <= s.len(),
        lacks(s, c),
    ensures
        find_char_from(s, c, i) == s.len(),
    decreases s.len() - i,
{
    if i < s.len() {
        lemma_none_from(s, c, i + 1);
    }
}

/// The base name of a path is what follows its last `/`: it holds no `/`,
/// the path ends with it, and a path without `/` is its own base name.
pub proof fn law_basename(p: Seq<char>, name: Seq<char>)
    requires
        lacks(name, '/'),
    ensures
        basename(p + seq!['/'] + name) == name,
        basename(name) == name,
        lacks(basename(p), '/'),
        p.skip(p.len() - basename(p).len()) == basename(p),
{
    let s = p + seq!['/'] + name;
    assert forall|k: int| p.len() < k < s.len() implies s[k] != '/' by {
        assert(s[k] == name[k - p.len() - 1]);
    }
    lemma_last_at(s, '/', p.len() as int, s.len() as int);
    assert(s.skip(p.len() as int + 1) =~= name);
    lemma_last_none(name, '/', name.len() as int);
    assert(name.skip(0) =~= name);
    lemma_last_index_bounds(p, '/', p.len() as int);
    lemma_after_last(p, '/', p.len() as int);
    assert(p.skip(p.len() - basename(p).len()) =~= basename(p));
}

proof fn lemma_last_at(s: Seq<char>, c: char, m: int, j: int)
    requires
        0 <= m < j <= s.len(),
        s[m] == c,
        forall|k: int| m < k < j ==> s[k] != c,
    ensures
        last_index_of(s, c, j) == m,
    decreases j,
{
    if j - 1 > m {
        lemma_last_at(s, c, m, j - 1);
    }
}

proof fn lemma_last_none(s: Seq<char>, c: char, j: int)
    requires
        0 <= j <= s.len(),
        lacks(s, c),
    ensures
        last_index_of(s, c, j) == -1,
    decreases j,
{
    if j > 0 {
        lemma_last_none(s, c, j - 1);
    }
}

proof fn lemma_after_last(s: Seq<char>, c: char, j: int)
    requires
        0 <= j <= s.len(),
    ensures
        forall|k: int| last_index_of(s, c, j) < k < j ==> s[k] != c,
    decreases j,
{
    if j > 0 && s[j - 1] != c {
        lemma_after_last(s, c, j - 1);
    }
}

} // verus!
