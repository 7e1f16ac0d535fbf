use vstd::prelude::*;

use crate::text::{char_is_ws, char_to_lower, chars_of, is_ws, lower_char, lower_seq, string_from_chars, trimmed_end_from};
use vstd::string::StrSliceExecFns;

verus! {

/// Language of the hyphenation rules to apply.
#[derive(Clone, Copy, Debug, PartialEq, Eq)]
pub enum HyphenationLang {
    Unknown,
    English,
}

impl HyphenationLang {
    /// English for a language tag starting with `en` (any case), else unknown.
    pub fn from_tag(tag: &str) -> (r: Self)
        ensures
            r == (if tag@.len() >= 2 && lower_char(tag@[0]) == 'e' && lower_char(tag@[1]) == 'n' {
                HyphenationLang::English
            } else {
                HyphenationLang::Unknown
            }),
    {
        let v = chars_of(tag);
        if v.len() >= 2 && char_to_lower(v[0]) == 'e' && char_to_lower(v[1]) == 'n' {
            HyphenationLang::English
        } else {
            HyphenationLang::Unknown
        }
    }
}

/// The soft hyphen, U+00AD.
pub const SOFT_HYPHEN: char = '\u{ad}';

/// Closing punctuation after which a line reads as finished.
pub open spec fn is_terminal_punctuation(c: char) -> bool {
    c == '.' || c == ';' || c == ':' || c == '!' || c == '?' || c == '"' || c == '\'' || c == ')'
        || c == ']' || c == '}'
}

/// Whether the last non-whitespace character of `line` is closing punctuation.
pub open spec fn ends_terminal(line: Seq<char>) -> bool {
    let e = trimmed_end_from(line, 0, line.len() as int);
    e > 0 && is_terminal_punctuation(line[e - 1])
}

/// Whether the line, once trailing whitespace is dropped, ends with closing
/// punctuation.
pub fn ends_with_terminal_punctuation(line: &str) -> (r: bool)
    ensures
        r == ends_terminal(line@),
{
    let v = chars_of(line);
    let mut e: usize = v.len();
    while e > 0 && char_is_ws(v[e - 1])
        invariant
            e <= v.len(),
            v@ == line@,
            trimmed_end_from(v@, 0, e as int) == trimmed_end_from(v@, 0, v@.len() as int),
        decreases e,
    {
        e -= 1;
    }
    if e == 0 {
        return false;
    }
    let c = v[e - 1];
    c == '.' || c == ';' || c == ':' || c == '!' || c == '?' || c == '"' || c == '\'' || c == ')'
        || c == ']' || c == '}'
}

/// Splits a word before its character at index `split_chars`; `None` for
/// index 0 or an index past the last character.
pub fn split_word_at_char_boundary(word: &str, split_chars: usize) -> (r: Option<(&str, &str)>)
    ensures
        split_chars == 0 || split_chars >= word@.len() ==> r is None,
        0 < split_chars < word@.len() ==> (r matches Some((a, b)) && a@ == word@.take(
            split_chars as int,
        ) && b@ == word@.skip(split_chars as int)),
{
    if split_chars == 0 {
        return None;
    }
    let n = word.unicode_len();
    if split_chars >= n {
        return None;
    }
    let a = word.substring_char(0, split_chars);
    let b = word.substring_char(split_chars, n);
    assert(b@ =~= word@.skip(split_chars as int));
    Some((a, b))
}

/// `text` without soft hyphens.
pub open spec fn without_soft_hyphens(s: Seq<char>) -> Seq<char> {
    s.filter(|c: char| c != SOFT_HYPHEN)
}

/// Removes every soft hyphen from `text`.
pub fn strip_soft_hyphens(text: &str) -> (r: String)
    ensures
        r@ == without_soft_hyphens(text@),
{
    let v = chars_of(text);
    let mut out: Vec<char> = Vec::new();
    let mut i: usize = 0;
    while i < v.len()
        invariant
            i <= v.len(),
            v@ == text@,
            out@ == without_soft_hyphens(v@.take(i as int)),
        decreases v.len() - i,
    {
        proof {
            assert(v@.take(i + 1).drop_last() =~= v@.take(i as int));
            reveal(Seq::filter);
        }
        if v[i] != SOFT_HYPHEN {
            out.push(v[i]);
        }
        i += 1;
    }
    assert(v@.take(v.len() as int) =~= v@);
    string_from_chars(&out)
}

/// Hand-checked break positions (character indices) for English words the
/// heuristics split badly, keyed by the lower-cased word.
pub open spec fn exception_table(lower: Seq<char>) -> Option<Seq<usize>> {
    if lower == "characteristically"@ {
        Some(seq![4usize, 6, 9, 12])
    } else if lower == "accessibility"@ {
        Some(seq![3usize, 6, 9])
    } else if lower == "fundamental"@ {
        Some(seq![3usize, 6])
    } else if lower == "functionality"@ {
        Some(seq![4usize, 7, 10])
    } else if lower == "publication"@ {
        Some(seq![3usize, 6])
    } else if lower == "consortium"@ {
        Some(seq![3usize, 6])
    } else if lower == "adventure"@ {
        Some(seq![2usize, 5])
    } else if lower == "marvellous"@ {
        Some(seq![3usize, 6])
    } else if lower == "extraordinary"@ {
        Some(seq![5usize, 8])
    } else if lower == "responsibility"@ {
        Some(seq![3usize, 6, 9])
    } else if lower == "determined"@ {
        Some(seq![3usize, 6])
    } else if lower == "encounter"@ {
        Some(seq![2usize, 5])
    } else if lower == "obedient"@ {
        Some(seq![2usize, 5])
    } else if lower == "endeavour"@ {
        Some(seq![2usize, 5])
    } else if lower == "providence"@ {
        Some(seq![3usize, 6])
    } else if lower == "language"@ {
        Some(seq![3usize])
    } else if lower == "fortune"@ {
        Some(seq![3usize])
    } else if lower == "navigator"@ {
        Some(seq![3usize, 6])
    } else if lower == "navigators"@ {
        Some(seq![3usize, 6])
    } else if lower == "apparently"@ {
        Some(seq![3usize, 6])
    } else if lower == "hitherto"@ {
        Some(seq![3usize])
    } else if lower == "merchantman"@ {
        Some(seq![4usize, 7])
    } else {
        None
    }
}

fn lower_chars(s: &str) -> (v: Vec<char>)
    ensures
        v@ == lower_seq(s@),
{
    let all = chars_of(s);
    let mut out: Vec<char> = Vec::new();
    let mut i: usize = 0;
    while i < all.len()
        invariant
            i <= all.len(),
            all@ == s@,
            out@ == lower_seq(all@.take(i as int)),
        decreases all.len() - i,
    {
        out.push(char_to_lower(all[i]));
        i += 1;
        assert(out@ =~= lower_seq(all@.take(i as int)));
    }
    assert(all@.take(all.len() as int) =~= all@);
    out
}

/// Hand-checked break positions for an English word the heuristics split
/// badly (case-insensitive), if it is one.
pub fn english_hyphenation_exception(word: &str) -> (r: Option<&'static [usize]>)
    ensures
        match r {
            Some(ps) => exception_table(lower_seq(word@)) == Some(ps@),
            None => exception_table(lower_seq(word@)) is None,
        },
{
    let lower = lower_chars(word);
    if crate::text::chars_eq_str(&lower, "characteristically") {
        Some(&[4usize, 6, 9, 12])
    } else if crate::text::chars_eq_str(&lower, "accessibility") {
        Some(&[3usize, 6, 9])
    } else if crate::text::chars_eq_str(&lower, "fundamental") {
        Some(&[3usize, 6])
    } else if crate::text::chars_eq_str(&lower, "functionality") {
        Some(&[4usize, 7, 10])
    } else if crate::text::chars_eq_str(&lower, "publication") {
        Some(&[3usize, 6])
    } else if crate::text::chars_eq_str(&lower, "consortium") {
        Some(&[3usize, 6])
    } else if crate::text::chars_eq_str(&lower, "adventure") {
        Some(&[2usize, 5])
    } else if crate::text::chars_eq_str(&lower, "marvellous") {
        Some(&[3usize, 6])
    } else if crate::text::chars_eq_str(&lower, "extraordinary") {
        Some(&[5usize, 8])
    } else if crate::text::chars_eq_str(&lower, "responsibility") {
        Some(&[3usize, 6, 9])
    } else if crate::text::chars_eq_str(&lower, "determined") {
        Some(&[3usize, 6])
    } else if crate::text::chars_eq_str(&lower, "encounter") {
        Some(&[2usize, 5])
    } else if crate::text::chars_eq_str(&lower, "obedient") {
        Some(&[2usize, 5])
    } else if crate::text::chars_eq_str(&lower, "endeavour") {
        Some(&[2usize, 5])
    } else if crate::text::chars_eq_str(&lower, "providence") {
        Some(&[3usize, 6])
    } else if crate::text::chars_eq_str(&lower, "language") {
        Some(&[3usize])
    } else if crate::text::chars_eq_str(&lower, "fortune") {
        Some(&[3usize])
    } else if crate::text::chars_eq_str(&lower, "navigator") {
        Some(&[3usize, 6])
    } else if crate::text::chars_eq_str(&lower, "navigators") {
        Some(&[3usize, 6])
    } else if crate::text::chars_eq_str(&lower, "apparently") {
        Some(&[3usize, 6])
    } else if crate::text::chars_eq_str(&lower, "hitherto") {
        Some(&[3usize])
    } else if crate::text::chars_eq_str(&lower, "merchantman") {
        Some(&[4usize, 7])
    } else {
        None
    }
}

/// Exception break positions lie inside the word.
proof fn lemma_exception_positions_inside(lw: Seq<char>, ps: Seq<usize>)
    requires
        exception_table(lw) == Some(ps),
    ensures
        forall|i: int| 0 <= i < ps.len() ==> 0 < #[trigger] ps[i] < lw.len(),
{
    reveal_strlit("characteristically");
    reveal_strlit("accessibility");
    reveal_strlit("fundamental");
    reveal_strlit("functionality");
    reveal_strlit("publication");
    reveal_strlit("consortium");
    reveal_strlit("adventure");
    reveal_strlit("marvellous");
    reveal_strlit("extraordinary");
    reveal_strlit("responsibility");
    reveal_strlit("determined");
    reveal_strlit("encounter");
    reveal_strlit("obedient");
    reveal_strlit("endeavour");
    reveal_strlit("providence");
    reveal_strlit("language");
    reveal_strlit("fortune");
    reveal_strlit("navigator");
    reveal_strlit("navigators");
    reveal_strlit("apparently");
    reveal_strlit("hitherto");
    reveal_strlit("merchantman");
}

/// A letter `a`-`z` or `A`-`Z`.
pub open spec fn is_ascii_alpha(c: char) -> bool {
    ('a' <= c && c <= 'z') || ('A' <= c && c <= 'Z')
}

/// A vowel (with `y`), either case.
pub open spec fn is_vowel(c: char) -> bool {
    let l = lower_char(c);
    l == 'a' || l == 'e' || l == 'i' || l == 'o' || l == 'u' || l == 'y'
}

/// A break between two letters where vowel meets consonant, at least three
/// characters from either end.
pub open spec fn boundary_break(w: Seq<char>, i: int) -> bool {
    &&& 3 <= i < w.len() - 3
    &&& is_ascii_alpha(w[i - 1])
    &&& is_ascii_alpha(w[i])
    &&& is_vowel(w[i - 1]) != is_vowel(w[i])
}

/// A break before suffix `suf` of the lower-cased word, at least three
/// characters from either end.
pub open spec fn suffix_split_at(lw: Seq<char>, suf: Seq<char>, p: int) -> bool {
    &&& suf.len() <= lw.len()
    &&& lw.skip(lw.len() - suf.len()) == suf
    &&& p == lw.len() - suf.len()
    &&& p >= 3
    &&& p + 3 <= lw.len()
}

/// A break before one of the common English suffixes.
pub open spec fn suffix_break(lw: Seq<char>, p: int) -> bool {
    ||| suffix_split_at(lw, "tion"@, p)
    ||| suffix_split_at(lw, "sion"@, p)
    ||| suffix_split_at(lw, "ment"@, p)
    ||| suffix_split_at(lw, "ness"@, p)
    ||| suffix_split_at(lw, "less"@, p)
    ||| suffix_split_at(lw, "able"@, p)
    ||| suffix_split_at(lw, "ible"@, p)
    ||| suffix_split_at(lw, "ally"@, p)
    ||| suffix_split_at(lw, "ingly"@, p)
    ||| suffix_split_at(lw, "edly"@, p)
    ||| suffix_split_at(lw, "ing"@, p)
    ||| suffix_split_at(lw, "ed"@, p)
    ||| suffix_split_at(lw, "ly"@, p)
}

/// A hand-checked exception break.
pub open spec fn exception_break(lw: Seq<char>, p: int) -> bool {
    exception_table(lw) matches Some(ps) && ps.contains(p as usize) && 0 <= p <= usize::MAX
}

/// Whether an English word of at least seven characters may break before
/// character `p`: an exception position, a vowel/consonant boundary, or a
/// suffix boundary.
pub open spec fn hyphenation_break(w: Seq<char>, p: int) -> bool {
    &&& w.len() >= 7
    &&& exception_break(lower_seq(w), p) || boundary_break(w, p) || suffix_break(lower_seq(w), p)
}

fn mark_suffix(marks: &mut Vec<bool>, lw: &Vec<char>, suf: &str)
    requires
        old(marks).len() == lw.len() + 1,
    ensures
        final(marks).len() == old(marks).len(),
        forall|p: int| 0 <= p < final(marks).len() ==> #[trigger] final(marks)@[p] == (old(marks)@[p]
            || suffix_split_at(lw@, suf@, p)),
{
    let sv = chars_of(suf);
    if sv.len() > lw.len() {
        return;
    }
    let start = lw.len() - sv.len();
    let mut k: usize = 0;
    while k < sv.len()
        invariant
            k <= sv.len(),
            sv@ == suf@,
            *marks == *old(marks),
            start + sv.len() == lw.len(),
            forall|j: int| 0 <= j < k ==> lw@[start + j] == sv@[j],
        decreases sv.len() - k,
    {
        if lw[start + k] != sv[k] {
            assert(lw@.skip(start as int)[k as int] != sv@[k as int]);
            return;
        }
        k += 1;
    }
    assert(lw@.skip(start as int) =~= sv@);
    if start >= 3 && lw.len() >= 3 && start <= lw.len() - 3 {
        marks.set(start, true);
    }
}

/// Break positions (character indices, ascending, without repeats) for an
/// English word of at least seven characters; none for shorter words.
pub fn english_hyphenation_candidates(word: &str) -> (r: Vec<usize>)
    ensures
        forall|i: int, j: int| 0 <= i < j < r@.len() ==> r@[i] < r@[j],
        forall|p: int| 0 <= p <= word@.len() ==> (r@.contains(p as usize) <==> hyphenation_break(word@, p)),
        forall|i: int| 0 <= i < r@.len() ==> r@[i] <= word@.len(),
{
    let chars = chars_of(word);
    let n = chars.len();
    if n < 7 {
        let empty: Vec<usize> = Vec::new();
        assert forall|p: int| 0 <= p <= word@.len() implies (empty@.contains(p as usize) <==> hyphenation_break(word@, p)) by {}
        return empty;
    }
    let lower = lower_chars(word);
    let mut marks: Vec<bool> = Vec::new();
    let mut z: usize = 0;
    while z < n
        invariant
            z <= n,
            n == chars.len(),
            marks.len() == z,
            forall|p: int| 0 <= p < z ==> !(#[trigger] marks@[p]),
        decreases n - z,
    {
        marks.push(false);
        z += 1;
    }
    marks.push(false);
    proof {
        assert(lower@.len() == n);
    }
    if let Some(exception) = english_hyphenation_exception(word) {
        proof {
            assert(exception_table(lower@) == Some(exception@));
            lemma_exception_positions_inside(lower@, exception@);
        }
        let mut e: usize = 0;
        while e < exception.len()
            invariant
                e <= exception.len(),
                marks.len() == n + 1,
                lower@.len() == n,
                exception_table(lower@) == Some(exception@),
                forall|i: int| 0 <= i < exception@.len() ==> 0 < #[trigger] exception@[i] < n,
                forall|p: int| 0 <= p <= n ==> (#[trigger] marks@[p] <==> exists|k: int| 0 <= k < e && #[trigger] exception@[k] == p),
            decreases exception.len() - e,
        {
            marks.set(exception[e], true);
            e += 1;
            proof {
                assert forall|p: int| 0 <= p <= n implies (#[trigger] marks@[p] <==> exists|k: int| 0 <= k < e && #[trigger] exception@[k] == p) by {
                    if p == exception@[e - 1] {
                        assert(exists|k: int| 0 <= k < e && #[trigger] exception@[k] == p);
                    }
                }
            }
        }
        proof {
            assert forall|p: int| 0 <= p <= n implies (#[trigger] marks@[p] <==> exception@.contains(p as usize)) by {
                if exception@.contains(p as usize) {
                    let k = choose|k: int| 0 <= k < exception@.len() && exception@[k] == p as usize;
                    assert(exception@[k] == p);
                }
            }
        }
    }
    proof {
        assert forall|p: int| 0 <= p <= n implies (#[trigger] marks@[p] <==> exception_break(lower@, p)) by {}
    }
    let mut i: usize = 3;
    while i < n - 3
        invariant
            3 <= i,
            n >= 7,
            n == chars.len(),
            chars@ == word@,
            lower@ == lower_seq(word@),
            marks.len() == n + 1,
            forall|p: int| 0 <= p <= n ==> (#[trigger] marks@[p] <==> (exception_break(lower@, p) || (p < i && boundary_break(word@, p)))),
        decreases n - i,
    {
        let prev = chars[i - 1];
        let next = chars[i];
        let prev_alpha = ('a' <= prev && prev <= 'z') || ('A' <= prev && prev <= 'Z');
        let next_alpha = ('a' <= next && next <= 'z') || ('A' <= next && next <= 'Z');
        if prev_alpha && next_alpha {
            let pl = char_to_lower(prev);
            let nl = char_to_lower(next);
            let prev_vowel = pl == 'a' || pl == 'e' || pl == 'i' || pl == 'o' || pl == 'u' || pl == 'y';
            let next_vowel = nl == 'a' || nl == 'e' || nl == 'i' || nl == 'o' || nl == 'u' || nl == 'y';
            if prev_vowel != next_vowel {
                marks.set(i, true);
            }
        }
        i += 1;
    }
    mark_suffix(&mut marks, &lower, "tion");
    mark_suffix(&mut marks, &lower, "sion");
    mark_suffix(&mut marks, &lower, "ment");
    mark_suffix(&mut marks, &lower, "ness");
    mark_suffix(&mut marks, &lower, "less");
    mark_suffix(&mut marks, &lower, "able");
    mark_suffix(&mut marks, &lower, "ible");
    mark_suffix(&mut marks, &lower, "ally");
    mark_suffix(&mut marks, &lower, "ingly");
    mark_suffix(&mut marks, &lower, "edly");
    mark_suffix(&mut marks, &lower, "ing");
    mark_suffix(&mut marks, &lower, "ed");
    mark_suffix(&mut marks, &lower, "ly");
    let mut out: Vec<usize> = Vec::new();
    let mut p: usize = 0;
    while p < n + 1
        invariant
            p <= n + 1,
            n >= 7,
            n == word@.len(),
            marks.len() == n + 1,
            forall|q: int| 0 <= q <= n ==> (#[trigger] marks@[q] <==> hyphenation_break(word@, q)),
            forall|a: int, b: int| 0 <= a < b < out@.len() ==> out@[a] < out@[b],
            forall|a: int| 0 <= a < out@.len() ==> out@[a] < p,
            forall|q: int| 0 <= q < p ==> (out@.contains(q as usize) <==> #[trigger] marks@[q]),
        decreases n + 1 - p,
    {
        let ghost before = out@;
        if marks[p] {
            out.push(p);
        }
        proof {
            assert forall|q: int| 0 <= q < p + 1 implies (out@.contains(q as usize) <==> #[trigger] marks@[q]) by {
                if q < p {
                    if out@.contains(q as usize) {
                        let k = choose|k: int| 0 <= k < out@.len() && out@[k] == q as usize;
                        if marks@[p as int] {
                            assert(out@[out@.len() - 1] == p);
                            assert(k < before.len());
                            assert(before[k] == q as usize);
                        } else {
                            assert(before[k] == q as usize);
                        }
                        assert(before.contains(q as usize));
                    }
                    if before.contains(q as usize) {
                        let k = choose|k: int| 0 <= k < before.len() && before[k] == q as usize;
                        assert(out@[k] == q as usize);
                    }
                } else {
                    if marks@[p as int] {
                        assert(out@[out@.len() - 1] == p);
                    } else {
                        if out@.contains(q as usize) {
                            let k = choose|k: int| 0 <= k < out@.len() && out@[k] == q as usize;
                            assert(before[k] < p);
                        }
                    }
                }
            }
        }
        p += 1;
    }
    proof {
        assert forall|q: int| 0 <= q <= word@.len() implies (out@.contains(q as usize) <==> hyphenation_break(word@, q)) by {
            assert(marks@[q] <==> hyphenation_break(word@, q));
        }
        assert forall|i: int| 0 <= i < out@.len() implies out@[i] <= word@.len() by {}
    }
    out
}

proof fn lemma_trimmed_end_prefix(s: Seq<char>, t: Seq<char>, j: int)
    requires
        0 <= j <= s.len(),
        j <= t.len(),
        forall|k: int| 0 <= k < j ==> s[k] == t[k],
    ensures
        trimmed_end_from(s, 0, j) == trimmed_end_from(t, 0, j),
    decreases j,
{
    if j > 0 {
        lemma_trimmed_end_prefix(s, t, j - 1);
    }
}

/// A line whose last character is one of `.` `;` `:` `!` `?` `"` `'` `)`
/// `]` `}` ends in terminal punctuation; one whose last character is any
/// other non-whitespace character does not; trailing whitespace changes
/// nothing.
pub proof fn law_terminal_punctuation(s: Seq<char>, c: char)
    ensures
        !is_ws(c) ==> (ends_terminal(s.push(c)) <==> (c == '.' || c == ';' || c == ':' || c == '!'
            || c == '?' || c == '"' || c == '\'' || c == ')' || c == ']' || c == '}')),
        is_ws(c) ==> ends_terminal(s.push(c)) == ends_terminal(s),
{
    let t = s.push(c);
    assert(t[t.len() - 1] == c);
    if is_ws(c) {
        lemma_trimmed_end_prefix(s, t, s.len() as int);
        lemma_trimmed_end_bound(s, s.len() as int);
        let e = trimmed_end_from(s, 0, s.len() as int);
        if e > 0 {
            assert(t[e - 1] == s[e - 1]);
        }
    }
}

proof fn lemma_trimmed_end_bound(s: Seq<char>, j: int)
    requires
        0 <= j <= s.len(),
    ensures
        0 <= trimmed_end_from(s, 0, j) <= j,
    decreases j,
{
    if j > 0 {
        lemma_trimmed_end_bound(s, j - 1);
    }
}

/// A word of at least seven characters whose lower-cased form ends in one
/// of the suffixes `tion` `sion` `ment` `ness` `less` `able` `ible` `ally`
/// `ingly` `edly` `ing` `ed` `ly`, with the split at least three characters
/// from either end, may break right before that suffix.
pub proof fn law_suffix_breaks(w: Seq<char>, suf: Seq<char>)
    requires
        w.len() >= 7,
        suf == "tion"@ || suf == "sion"@ || suf == "ment"@ || suf == "ness"@ || suf == "less"@
            || suf == "able"@ || suf == "ible"@ || suf == "ally"@ || suf == "ingly"@ || suf
            == "edly"@ || suf == "ing"@ || suf == "ed"@ || suf == "ly"@,
        suf.len() <= w.len(),
        w.len() - suf.len() >= 3,
        w.len() - suf.len() + 3 <= w.len(),
        lower_seq(w).skip(w.len() - suf.len()) == suf,
    ensures
        hyphenation_break(w, w.len() - suf.len()),
{
    let p = w.len() - suf.len();
    assert(lower_seq(w).len() == w.len());
    if suf == "tion"@ {
        assert(suffix_split_at(lower_seq(w), "tion"@, p));
    }
    if suf == "sion"@ {
        assert(suffix_split_at(lower_seq(w), "sion"@, p));
    }
    if suf == "ment"@ {
        assert(suffix_split_at(lower_seq(w), "ment"@, p));
    }
    if suf == "ness"@ {
        assert(suffix_split_at(lower_seq(w), "ness"@, p));
    }
    if suf == "less"@ {
        assert(suffix_split_at(lower_seq(w), "less"@, p));
    }
    if suf == "able"@ {
        assert(suffix_split_at(lower_seq(w), "able"@, p));
    }
    if suf == "ible"@ {
        assert(suffix_split_at(lower_seq(w), "ible"@, p));
    }
    if suf == "ally"@ {
        assert(suffix_split_at(lower_seq(w), "ally"@, p));
    }
    if suf == "ingly"@ {
        assert(suffix_split_at(lower_seq(w), "ingly"@, p));
    }
    if suf == "edly"@ {
        assert(suffix_split_at(lower_seq(w), "edly"@, p));
    }
    if suf == "ing"@ {
        assert(suffix_split_at(lower_seq(w), "ing"@, p));
    }
    if suf == "ed"@ {
        assert(suffix_split_at(lower_seq(w), "ed"@, p));
    }
    if suf == "ly"@ {
        assert(suffix_split_at(lower_seq(w), "ly"@, p));
    }
}

/// An English vowel (`a` `e` `i` `o` `u` `y`) in either case.
pub open spec fn english_vowel(c: char) -> bool {
    c == 'a' || c == 'e' || c == 'i' || c == 'o' || c == 'u' || c == 'y' || c == 'A' || c == 'E'
        || c == 'I' || c == 'O' || c == 'U' || c == 'Y'
}

/// A word of at least seven characters may break between two ASCII letters
/// where a vowel meets a consonant, at least three characters from its start
/// and more than three from its end.
pub proof fn law_vowel_consonant_breaks(w: Seq<char>, i: int)
    requires
        w.len() >= 7,
        3 <= i,
        i + 3 < w.len(),
        ('a' <= w[i - 1] <= 'z') || ('A' <= w[i - 1] <= 'Z'),
        ('a' <= w[i] <= 'z') || ('A' <= w[i] <= 'Z'),
        english_vowel(w[i - 1]) != english_vowel(w[i]),
    ensures
        hyphenation_break(w, i),
{
}

/// Words shorter than seven characters never break, and every break lies
/// strictly inside the word.
pub proof fn law_breaks_inside_long_words(w: Seq<char>, p: int)
    ensures
        hyphenation_break(w, p) ==> w.len() >= 7 && 0 < p < w.len(),
{
    if hyphenation_break(w, p) {
        let lw = lower_seq(w);
        if exception_break(lw, p) {
            let ps = exception_table(lw)->0;
            lemma_exception_positions_inside(lw, ps);
            let k = choose|k: int| 0 <= k < ps.len() && ps[k] == p as usize;
            assert(ps[k] == p);
        }
    }
}

/// The hand-checked exception words and their break positions; no other
/// word has exception positions.
pub proof fn law_hyphenation_exceptions(key: Seq<char>)
    ensures
        key == "characteristically"@ ==> exception_table(key) == Some(seq![4usize, 6, 9, 12]),
        key == "accessibility"@ ==> exception_table(key) == Some(seq![3usize, 6, 9]),
        key == "fundamental"@ ==> exception_table(key) == Some(seq![3usize, 6]),
        key == "functionality"@ ==> exception_table(key) == Some(seq![4usize, 7, 10]),
        key == "publication"@ ==> exception_table(key) == Some(seq![3usize, 6]),
        key == "consortium"@ ==> exception_table(key) == Some(seq![3usize, 6]),
        key == "adventure"@ ==> exception_table(key) == Some(seq![2usize, 5]),
        key == "marvellous"@ ==> exception_table(key) == Some(seq![3usize, 6]),
        key == "extraordinary"@ ==> exception_table(key) == Some(seq![5usize, 8]),
        key == "responsibility"@ ==> exception_table(key) == Some(seq![3usize, 6, 9]),
        key == "determined"@ ==> exception_table(key) == Some(seq![3usize, 6]),
        key == "encounter"@ ==> exception_table(key) == Some(seq![2usize, 5]),
        key == "obedient"@ ==> exception_table(key) == Some(seq![2usize, 5]),
        key == "endeavour"@ ==> exception_table(key) == Some(seq![2usize, 5]),
        key == "providence"@ ==> exception_table(key) == Some(seq![3usize, 6]),
        key == "language"@ ==> exception_table(key) == Some(seq![3usize]),
        key == "fortune"@ ==> exception_table(key) == Some(seq![3usize]),
        key == "navigator"@ ==> exception_table(key) == Some(seq![3usize, 6]),
        key == "navigators"@ ==> exception_table(key) == Some(seq![3usize, 6]),
        key == "apparently"@ ==> exception_table(key) == Some(seq![3usize, 6]),
        key == "hitherto"@ ==> exception_table(key) == Some(seq![3usize]),
        key == "merchantman"@ ==> exception_table(key) == Some(seq![4usize, 7]),
        key != "characteristically"@ && key != "accessibility"@ && key != "fundamental"@ && key != "functionality"@ && key != "publication"@ && key != "consortium"@ && key != "adventure"@ && key != "marvellous"@ && key != "extraordinary"@ && key != "responsibility"@ && key != "determined"@ && key != "encounter"@ && key != "obedient"@ && key != "endeavour"@ && key != "providence"@ && key != "language"@ && key != "fortune"@ && key != "navigator"@ && key != "navigators"@ && key != "apparently"@ && key != "hitherto"@ && key != "merchantman"@ ==> exception_table(key) == None::<Seq<usize>>,
{
    reveal_strlit("characteristically");
    reveal_strlit("accessibility");
    reveal_strlit("fundamental");
    reveal_strlit("functionality");
    reveal_strlit("publication");
    reveal_strlit("consortium");
    reveal_strlit("adventure");
    reveal_strlit("marvellous");
    reveal_strlit("extraordinary");
    reveal_strlit("responsibility");
    reveal_strlit("determined");
    reveal_strlit("encounter");
    reveal_strlit("obedient");
    reveal_strlit("endeavour");
    reveal_strlit("providence");
    reveal_strlit("language");
    reveal_strlit("fortune");
    reveal_strlit("navigator");
    reveal_strlit("navigators");
    reveal_strlit("apparently");
    reveal_strlit("hitherto");
    reveal_strlit("merchantman");
    assert("characteristically"@ != "accessibility"@) by { assert("characteristically"@.len() != "accessibility"@.len()); }
    assert("characteristically"@ != "fundamental"@) by { assert("characteristically"@.len() != "fundamental"@.len()); }
    assert("characteristically"@ != "functionality"@) by { assert("characteristically"@.len() != "functionality"@.len()); }
    assert("characteristically"@ != "publication"@) by { assert("characteristically"@.len() != "publication"@.len()); }
    assert("characteristically"@ != "consortium"@) by { assert("characteristically"@.len() != "consortium"@.len()); }
    assert("characteristically"@ != "adventure"@) by { assert("characteristically"@.len() != "adventure"@.len()); }
    assert("characteristically"@ != "marvellous"@) by { assert("characteristically"@.len() != "marvellous"@.len()); }
    assert("characteristically"@ != "extraordinary"@) by { assert("characteristically"@.len() != "extraordinary"@.len()); }
    assert("characteristically"@ != "responsibility"@) by { assert("characteristically"@.len() != "responsibility"@.len()); }
    assert("characteristically"@ != "determined"@) by { assert("characteristically"@.len() != "determined"@.len()); }
    assert("characteristically"@ != "encounter"@) by { assert("characteristically"@.len() != "encounter"@.len()); }
    assert("characteristically"@ != "obedient"@) by { assert("characteristically"@.len() != "obedient"@.len()); }
    assert("characteristically"@ != "endeavour"@) by { assert("characteristically"@.len() != "endeavour"@.len()); }
    assert("characteristically"@ != "providence"@) by { assert("characteristically"@.len() != "providence"@.len()); }
    assert("characteristically"@ != "language"@) by { assert("characteristically"@.len() != "language"@.len()); }
    assert("characteristically"@ != "fortune"@) by { assert("characteristically"@.len() != "fortune"@.len()); }
    assert("characteristically"@ != "navigator"@) by { assert("characteristically"@.len() != "navigator"@.len()); }
    assert("characteristically"@ != "navigators"@) by { assert("characteristically"@.len() != "navigators"@.len()); }
    assert("characteristically"@ != "apparently"@) by { assert("characteristically"@.len() != "apparently"@.len()); }
    assert("characteristically"@ != "hitherto"@) by { assert("characteristically"@.len() != "hitherto"@.len()); }
    assert("characteristically"@ != "merchantman"@) by { assert("characteristically"@.len() != "merchantman"@.len()); }
    assert("accessibility"@ != "fundamental"@) by { assert("accessibility"@.len() != "fundamental"@.len()); }
    assert("accessibility"@ != "functionality"@) by { assert("accessibility"@[0] != "functionality"@[0]); }
    assert("accessibility"@ != "publication"@) by { assert("accessibility"@.len() != "publication"@.len()); }
    assert("accessibility"@ != "consortium"@) by { assert("accessibility"@.len() != "consortium"@.len()); }
    assert("accessibility"@ != "adventure"@) by { assert("accessibility"@.len() != "adventure"@.len()); }
    assert("accessibility"@ != "marvellous"@) by { assert("accessibility"@.len() != "marvellous"@.len()); }
    assert("accessibility"@ != "extraordinary"@) by { assert("accessibility"@[0] != "extraordinary"@[0]); }
    assert("accessibility"@ != "responsibility"@) by { assert("accessibility"@.len() != "responsibility"@.len()); }
    assert("accessibility"@ != "determined"@) by { assert("accessibility"@.len() != "determined"@.len()); }
    assert("accessibility"@ != "encounter"@) by { assert("accessibility"@.len() != "encounter"@.len()); }
    assert("accessibility"@ != "obedient"@) by { assert("accessibility"@.len() != "obedient"@.len()); }
    assert("accessibility"@ != "endeavour"@) by { assert("accessibility"@.len() != "endeavour"@.len()); }
    assert("accessibility"@ != "providence"@) by { assert("accessibility"@.len() != "providence"@.len()); }
    assert("accessibility"@ != "language"@) by { assert("accessibility"@.len() != "language"@.len()); }
    assert("accessibility"@ != "fortune"@) by { assert("accessibility"@.len() != "fortune"@.len()); }
    assert("accessibility"@ != "navigator"@) by { assert("accessibility"@.len() != "navigator"@.len()); }
    assert("accessibility"@ != "navigators"@) by { assert("accessibility"@.len() != "navigators"@.len()); }
    assert("accessibility"@ != "apparently"@) by { assert("accessibility"@.len() != "apparently"@.len()); }
    assert("accessibility"@ != "hitherto"@) by { assert("accessibility"@.len() != "hitherto"@.len()); }
    assert("accessibility"@ != "merchantman"@) by { assert("accessibility"@.len() != "merchantman"@.len()); }
    assert("fundamental"@ != "functionality"@) by { assert("fundamental"@.len() != "functionality"@.len()); }
    assert("fundamental"@ != "publication"@) by { assert("fundamental"@[0] != "publication"@[0]); }
    assert("fundamental"@ != "consortium"@) by { assert("fundamental"@.len() != "consortium"@.len()); }
    assert("fundamental"@ != "adventure"@) by { assert("fundamental"@.len() != "adventure"@.len()); }
    assert("fundamental"@ != "marvellous"@) by { assert("fundamental"@.len() != "marvellous"@.len()); }
    assert("fundamental"@ != "extraordinary"@) by { assert("fundamental"@.len() != "extraordinary"@.len()); }
    assert("fundamental"@ != "responsibility"@) by { assert("fundamental"@.len() != "responsibility"@.len()); }
    assert("fundamental"@ != "determined"@) by { assert("fundamental"@.len() != "determined"@.len()); }
    assert("fundamental"@ != "encounter"@) by { assert("fundamental"@.len() != "encounter"@.len()); }
    assert("fundamental"@ != "obedient"@) by { assert("fundamental"@.len() != "obedient"@.len()); }
    assert("fundamental"@ != "endeavour"@) by { assert("fundamental"@.len() != "endeavour"@.len()); }
    assert("fundamental"@ != "providence"@) by { assert("fundamental"@.len() != "providence"@.len()); }
    assert("fundamental"@ != "language"@) by { assert("fundamental"@.len() != "language"@.len()); }
    assert("fundamental"@ != "fortune"@) by { assert("fundamental"@.len() != "fortune"@.len()); }
    assert("fundamental"@ != "navigator"@) by { assert("fundamental"@.len() != "navigator"@.len()); }
    assert("fundamental"@ != "navigators"@) by { assert("fundamental"@.len() != "navigators"@.len()); }
    assert("fundamental"@ != "apparently"@) by { assert("fundamental"@.len() != "apparently"@.len()); }
    assert("fundamental"@ != "hitherto"@) by { assert("fundamental"@.len() != "hitherto"@.len()); }
    assert("fundamental"@ != "merchantman"@) by { assert("fundamental"@[0] != "merchantman"@[0]); }
    assert("functionality"@ != "publication"@) by { assert("functionality"@.len() != "publication"@.len()); }
    assert("functionality"@ != "consortium"@) by { assert("functionality"@.len() != "consortium"@.len()); }
    assert("functionality"@ != "adventure"@) by { assert("functionality"@.len() != "adventure"@.len()); }
    assert("functionality"@ != "marvellous"@) by { assert("functionality"@.len() != "marvellous"@.len()); }
    assert("functionality"@ != "extraordinary"@) by { assert("functionality"@[0] != "extraordinary"@[0]); }
    assert("functionality"@ != "responsibility"@) by { assert("functionality"@.len() != "responsibility"@.len()); }
    assert("functionality"@ != "determined"@) by { assert("functionality"@.len() != "determined"@.len()); }
    assert("functionality"@ != "encounter"@) by { assert("functionality"@.len() != "encounter"@.len()); }
    assert("functionality"@ != "obedient"@) by { assert("functionality"@.len() != "obedient"@.len()); }
    assert("functionality"@ != "endeavour"@) by { assert("functionality"@.len() != "endeavour"@.len()); }
    assert("functionality"@ != "providence"@) by { assert("functionality"@.len() != "providence"@.len()); }
    assert("functionality"@ != "language"@) by { assert("functionality"@.len() != "language"@.len()); }
    assert("functionality"@ != "fortune"@) by { assert("functionality"@.len() != "fortune"@.len()); }
    assert("functionality"@ != "navigator"@) by { assert("functionality"@.len() != "navigator"@.len()); }
    assert("functionality"@ != "navigators"@) by { assert("functionality"@.len() != "navigators"@.len()); }
    assert("functionality"@ != "apparently"@) by { assert("functionality"@.len() != "apparently"@.len()); }
    assert("functionality"@ != "hitherto"@) by { assert("functionality"@.len() != "hitherto"@.len()); }
    assert("functionality"@ != "merchantman"@) by { assert("functionality"@.len() != "merchantman"@.len()); }
    assert("publication"@ != "consortium"@) by { assert("publication"@.len() != "consortium"@.len()); }
    assert("publication"@ != "adventure"@) by { assert("publication"@.len() != "adventure"@.len()); }
    assert("publication"@ != "marvellous"@) by { assert("publication"@.len() != "marvellous"@.len()); }
    assert("publication"@ != "extraordinary"@) by { assert("publication"@.len() != "extraordinary"@.len()); }
    assert("publication"@ != "responsibility"@) by { assert("publication"@.len() != "responsibility"@.len()); }
    assert("publication"@ != "determined"@) by { assert("publication"@.len() != "determined"@.len()); }
    assert("publication"@ != "encounter"@) by { assert("publication"@.len() != "encounter"@.len()); }
    assert("publication"@ != "obedient"@) by { assert("publication"@.len() != "obedient"@.len()); }
    assert("publication"@ != "endeavour"@) by { assert("publication"@.len() != "endeavour"@.len()); }
    assert("publication"@ != "providence"@) by { assert("publication"@.len() != "providence"@.len()); }
    assert("publication"@ != "language"@) by { assert("publication"@.len() != "language"@.len()); }
    assert("publication"@ != "fortune"@) by { assert("publication"@.len() != "fortune"@.len()); }
    assert("publication"@ != "navigator"@) by { assert("publication"@.len() != "navigator"@.len()); }
    assert("publication"@ != "navigators"@) by { assert("publication"@.len() != "navigators"@.len()); }
    assert("publication"@ != "apparently"@) by { assert("publication"@.len() != "apparently"@.len()); }
    assert("publication"@ != "hitherto"@) by { assert("publication"@.len() != "hitherto"@.len()); }
    assert("publication"@ != "merchantman"@) by { assert("publication"@[0] != "merchantman"@[0]); }
    assert("consortium"@ != "adventure"@) by { assert("consortium"@.len() != "adventure"@.len()); }
    assert("consortium"@ != "marvellous"@) by { assert("consortium"@[0] != "marvellous"@[0]); }
    assert("consortium"@ != "extraordinary"@) by { assert("consortium"@.len() != "extraordinary"@.len()); }
    assert("consortium"@ != "responsibility"@) by { assert("consortium"@.len() != "responsibility"@.len()); }
    assert("consortium"@ != "determined"@) by { assert("consortium"@[0] != "determined"@[0]); }
    assert("consortium"@ != "encounter"@) by { assert("consortium"@.len() != "encounter"@.len()); }
    assert("consortium"@ != "obedient"@) by { assert("consortium"@.len() != "obedient"@.len()); }
    assert("consortium"@ != "endeavour"@) by { assert("consortium"@.len() != "endeavour"@.len()); }
    assert("consortium"@ != "providence"@) by { assert("consortium"@[0] != "providence"@[0]); }
    assert("consortium"@ != "language"@) by { assert("consortium"@.len() != "language"@.len()); }
    assert("consortium"@ != "fortune"@) by { assert("consortium"@.len() != "fortune"@.len()); }
    assert("consortium"@ != "navigator"@) by { assert("consortium"@.len() != "navigator"@.len()); }
    assert("consortium"@ != "navigators"@) by { assert("consortium"@[0] != "navigators"@[0]); }
    assert("consortium"@ != "apparently"@) by { assert("consortium"@[0] != "apparently"@[0]); }
    assert("consortium"@ != "hitherto"@) by { assert("consortium"@.len() != "hitherto"@.len()); }
    assert("consortium"@ != "merchantman"@) by { assert("consortium"@.len() != "merchantman"@.len()); }
    assert("adventure"@ != "marvellous"@) by { assert("adventure"@.len() != "marvellous"@.len()); }
    assert("adventure"@ != "extraordinary"@) by { assert("adventure"@.len() != "extraordinary"@.len()); }
    assert("adventure"@ != "responsibility"@) by { assert("adventure"@.len() != "responsibility"@.len()); }
    assert("adventure"@ != "determined"@) by { assert("adventure"@.len() != "determined"@.len()); }
    assert("adventure"@ != "encounter"@) by { assert("adventure"@[0] != "encounter"@[0]); }
    assert("adventure"@ != "obedient"@) by { assert("adventure"@.len() != "obedient"@.len()); }
    assert("adventure"@ != "endeavour"@) by { assert("adventure"@[0] != "endeavour"@[0]); }
    assert("adventure"@ != "providence"@) by { assert("adventure"@.len() != "providence"@.len()); }
    assert("adventure"@ != "language"@) by { assert("adventure"@.len() != "language"@.len()); }
    assert("adventure"@ != "fortune"@) by { assert("adventure"@.len() != "fortune"@.len()); }
    assert("adventure"@ != "navigator"@) by { assert("adventure"@[0] != "navigator"@[0]); }
    assert("adventure"@ != "navigators"@) by { assert("adventure"@.len() != "navigators"@.len()); }
    assert("adventure"@ != "apparently"@) by { assert("adventure"@.len() != "apparently"@.len()); }
    assert("adventure"@ != "hitherto"@) by { assert("adventure"@.len() != "hitherto"@.len()); }
    assert("adventure"@ != "merchantman"@) by { assert("adventure"@.len() != "merchantman"@.len()); }
    assert("marvellous"@ != "extraordinary"@) by { assert("marvellous"@.len() != "extraordinary"@.len()); }
    assert("marvellous"@ != "responsibility"@) by { assert("marvellous"@.len() != "responsibility"@.len()); }
    assert("marvellous"@ != "determined"@) by { assert("marvellous"@[0] != "determined"@[0]); }
    assert("marvellous"@ != "encounter"@) by { assert("marvellous"@.len() != "encounter"@.len()); }
    assert("marvellous"@ != "obedient"@) by { assert("marvellous"@.len() != "obedient"@.len()); }
    assert("marvellous"@ != "endeavour"@) by { assert("marvellous"@.len() != "endeavour"@.len()); }
    assert("marvellous"@ != "providence"@) by { assert("marvellous"@[0] != "providence"@[0]); }
    assert("marvellous"@ != "language"@) by { assert("marvellous"@.len() != "language"@.len()); }
    assert("marvellous"@ != "fortune"@) by { assert("marvellous"@.len() != "fortune"@.len()); }
    assert("marvellous"@ != "navigator"@) by { assert("marvellous"@.len() != "navigator"@.len()); }
    assert("marvellous"@ != "navigators"@) by { assert("marvellous"@[0] != "navigators"@[0]); }
    assert("marvellous"@ != "apparently"@) by { assert("marvellous"@[0] != "apparently"@[0]); }
    assert("marvellous"@ != "hitherto"@) by { assert("marvellous"@.len() != "hitherto"@.len()); }
    assert("marvellous"@ != "merchantman"@) by { assert("marvellous"@.len() != "merchantman"@.len()); }
    assert("extraordinary"@ != "responsibility"@) by { assert("extraordinary"@.len() != "responsibility"@.len()); }
    assert("extraordinary"@ != "determined"@) by { assert("extraordinary"@.len() != "determined"@.len()); }
    assert("extraordinary"@ != "encounter"@) by { assert("extraordinary"@.len() != "encounter"@.len()); }
    assert("extraordinary"@ != "obedient"@) by { assert("extraordinary"@.len() != "obedient"@.len()); }
    assert("extraordinary"@ != "endeavour"@) by { assert("extraordinary"@.len() != "endeavour"@.len()); }
    assert("extraordinary"@ != "providence"@) by { assert("extraordinary"@.len() != "providence"@.len()); }
    assert("extraordinary"@ != "language"@) by { assert("extraordinary"@.len() != "language"@.len()); }
    assert("extraordinary"@ != "fortune"@) by { assert("extraordinary"@.len() != "fortune"@.len()); }
    assert("extraordinary"@ != "navigator"@) by { assert("extraordinary"@.len() != "navigator"@.len()); }
    assert("extraordinary"@ != "navigators"@) by { assert("extraordinary"@.len() != "navigators"@.len()); }
    assert("extraordinary"@ != "apparently"@) by { assert("extraordinary"@.len() != "apparently"@.len()); }
    assert("extraordinary"@ != "hitherto"@) by { assert("extraordinary"@.len() != "hitherto"@.len()); }
    assert("extraordinary"@ != "merchantman"@) by { assert("extraordinary"@.len() != "merchantman"@.len()); }
    assert("responsibility"@ != "determined"@) by { assert("responsibility"@.len() != "determined"@.len()); }
    assert("responsibility"@ != "encounter"@) by { assert("responsibility"@.len() != "encounter"@.len()); }
    assert("responsibility"@ != "obedient"@) by { assert("responsibility"@.len() != "obedient"@.len()); }
    assert("responsibility"@ != "endeavour"@) by { assert("responsibility"@.len() != "endeavour"@.len()); }
    assert("responsibility"@ != "providence"@) by { assert("responsibility"@.len() != "providence"@.len()); }
    assert("responsibility"@ != "language"@) by { assert("responsibility"@.len() != "language"@.len()); }
    assert("responsibility"@ != "fortune"@) by { assert("responsibility"@.len() != "fortune"@.len()); }
    assert("responsibility"@ != "navigator"@) by { assert("responsibility"@.len() != "navigator"@.len()); }
    assert("responsibility"@ != "navigators"@) by { assert("responsibility"@.len() != "navigators"@.len()); }
    assert("responsibility"@ != "apparently"@) by { assert("responsibility"@.len() != "apparently"@.len()); }
    assert("responsibility"@ != "hitherto"@) by { assert("responsibility"@.len() != "hitherto"@.len()); }
    assert("responsibility"@ != "merchantman"@) by { assert("responsibility"@.len() != "merchantman"@.len()); }
    assert("determined"@ != "encounter"@) by { assert("determined"@.len() != "encounter"@.len()); }
    assert("determined"@ != "obedient"@) by { assert("determined"@.len() != "obedient"@.len()); }
    assert("determined"@ != "endeavour"@) by { assert("determined"@.len() != "endeavour"@.len()); }
    assert("determined"@ != "providence"@) by { assert("determined"@[0] != "providence"@[0]); }
    assert("determined"@ != "language"@) by { assert("determined"@.len() != "language"@.len()); }
    assert("determined"@ != "fortune"@) by { assert("determined"@.len() != "fortune"@.len()); }
    assert("determined"@ != "navigator"@) by { assert("determined"@.len() != "navigator"@.len()); }
    assert("determined"@ != "navigators"@) by { assert("determined"@[0] != "navigators"@[0]); }
    assert("determined"@ != "apparently"@) by { assert("determined"@[0] != "apparently"@[0]); }
    assert("determined"@ != "hitherto"@) by { assert("determined"@.len() != "hitherto"@.len()); }
    assert("determined"@ != "merchantman"@) by { assert("determined"@.len() != "merchantman"@.len()); }
    assert("encounter"@ != "obedient"@) by { assert("encounter"@.len() != "obedient"@.len()); }
    assert("encounter"@ != "endeavour"@) by { assert("encounter"@[2] != "endeavour"@[2]); }
    assert("encounter"@ != "providence"@) by { assert("encounter"@.len() != "providence"@.len()); }
    assert("encounter"@ != "language"@) by { assert("encounter"@.len() != "language"@.len()); }
    assert("encounter"@ != "fortune"@) by { assert("encounter"@.len() != "fortune"@.len()); }
    assert("encounter"@ != "navigator"@) by { assert("encounter"@[0] != "navigator"@[0]); }
    assert("encounter"@ != "navigators"@) by { assert("encounter"@.len() != "navigators"@.len()); }
    assert("encounter"@ != "apparently"@) by { assert("encounter"@.len() != "apparently"@.len()); }
    assert("encounter"@ != "hitherto"@) by { assert("encounter"@.len() != "hitherto"@.len()); }
    assert("encounter"@ != "merchantman"@) by { assert("encounter"@.len() != "merchantman"@.len()); }
    assert("obedient"@ != "endeavour"@) by { assert("obedient"@.len() != "endeavour"@.len()); }
    assert("obedient"@ != "providence"@) by { assert("obedient"@.len() != "providence"@.len()); }
    assert("obedient"@ != "language"@) by { assert("obedient"@[0] != "language"@[0]); }
    assert("obedient"@ != "fortune"@) by { assert("obedient"@.len() != "fortune"@.len()); }
    assert("obedient"@ != "navigator"@) by { assert("obedient"@.len() != "navigator"@.len()); }
    assert("obedient"@ != "navigators"@) by { assert("obedient"@.len() != "navigators"@.len()); }
    assert("obedient"@ != "apparently"@) by { assert("obedient"@.len() != "apparently"@.len()); }
    assert("obedient"@ != "hitherto"@) by { assert("obedient"@[0] != "hitherto"@[0]); }
    assert("obedient"@ != "merchantman"@) by { assert("obedient"@.len() != "merchantman"@.len()); }
    assert("endeavour"@ != "providence"@) by { assert("endeavour"@.len() != "providence"@.len()); }
    assert("endeavour"@ != "language"@) by { assert("endeavour"@.len() != "language"@.len()); }
    assert("endeavour"@ != "fortune"@) by { assert("endeavour"@.len() != "fortune"@.len()); }
    assert("endeavour"@ != "navigator"@) by { assert("endeavour"@[0] != "navigator"@[0]); }
    assert("endeavour"@ != "navigators"@) by { assert("endeavour"@.len() != "navigators"@.len()); }
    assert("endeavour"@ != "apparently"@) by { assert("endeavour"@.len() != "apparently"@.len()); }
    assert("endeavour"@ != "hitherto"@) by { assert("endeavour"@.len() != "hitherto"@.len()); }
    assert("endeavour"@ != "merchantman"@) by { assert("endeavour"@.len() != "merchantman"@.len()); }
    assert("providence"@ != "language"@) by { assert("providence"@.len() != "language"@.len()); }
    assert("providence"@ != "fortune"@) by { assert("providence"@.len() != "fortune"@.len()); }
    assert("providence"@ != "navigator"@) by { assert("providence"@.len() != "navigator"@.len()); }
    assert("providence"@ != "navigators"@) by { assert("providence"@[0] != "navigators"@[0]); }
    assert("providence"@ != "apparently"@) by { assert("providence"@[0] != "apparently"@[0]); }
    assert("providence"@ != "hitherto"@) by { assert("providence"@.len() != "hitherto"@.len()); }
    assert("providence"@ != "merchantman"@) by { assert("providence"@.len() != "merchantman"@.len()); }
    assert("language"@ != "fortune"@) by { assert("language"@.len() != "fortune"@.len()); }
    assert("language"@ != "navigator"@) by { assert("language"@.len() != "navigator"@.len()); }
    assert("language"@ != "navigators"@) by { assert("language"@.len() != "navigators"@.len()); }
    assert("language"@ != "apparently"@) by { assert("language"@.len() != "apparently"@.len()); }
    assert("language"@ != "hitherto"@) by { assert("language"@[0] != "hitherto"@[0]); }
    assert("language"@ != "merchantman"@) by { assert("language"@.len() != "merchantman"@.len()); }
    assert("fortune"@ != "navigator"@) by { assert("fortune"@.len() != "navigator"@.len()); }
    assert("fortune"@ != "navigators"@) by { assert("fortune"@.len() != "navigators"@.len()); }
    assert("fortune"@ != "apparently"@) by { assert("fortune"@.len() != "apparently"@.len()); }
    assert("fortune"@ != "hitherto"@) by { assert("fortune"@.len() != "hitherto"@.len()); }
    assert("fortune"@ != "merchantman"@) by { assert("fortune"@.len() != "merchantman"@.len()); }
    assert("navigator"@ != "navigators"@) by { assert("navigator"@.len() != "navigators"@.len()); }
    assert("navigator"@ != "apparently"@) by { assert("navigator"@.len() != "apparently"@.len()); }
    assert("navigator"@ != "hitherto"@) by { assert("navigator"@.len() != "hitherto"@.len()); }
    assert("navigator"@ != "merchantman"@) by { assert("navigator"@.len() != "merchantman"@.len()); }
    assert("navigators"@ != "apparently"@) by { assert("navigators"@[0] != "apparently"@[0]); }
    assert("navigators"@ != "hitherto"@) by { assert("navigators"@.len() != "hitherto"@.len()); }
    assert("navigators"@ != "merchantman"@) by { assert("navigators"@.len() != "merchantman"@.len()); }
    assert("apparently"@ != "hitherto"@) by { assert("apparently"@.len() != "hitherto"@.len()); }
    assert("apparently"@ != "merchantman"@) by { assert("apparently"@.len() != "merchantman"@.len()); }
    assert("hitherto"@ != "merchantman"@) by { assert("hitherto"@.len() != "merchantman"@.len()); }
}

} // verus!
