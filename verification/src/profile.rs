use vstd::prelude::*;

use crate::paths::last_index_of;
use crate::text::{chars_of, str_eq, string_from_chars};

verus! {

/// Pipeline phase measured by the heap profiler.
#[derive(Clone, Copy, Debug, PartialEq, Eq)]
pub enum Phase {
    Open,
    Cover,
    Tokenize,
    Render,
    Full,
    SessionOnce,
    Session,
}

/// Phase named on the command line.
pub open spec fn phase_for(s: Seq<char>) -> Option<Phase> {
    if s == "open"@ {
        Some(Phase::Open)
    } else if s == "cover"@ {
        Some(Phase::Cover)
    } else if s == "tokenize"@ {
        Some(Phase::Tokenize)
    } else if s == "render"@ {
        Some(Phase::Render)
    } else if s == "full"@ {
        Some(Phase::Full)
    } else if s == "session-once"@ || s == "session_once"@ {
        Some(Phase::SessionOnce)
    } else if s == "session"@ {
        Some(Phase::Session)
    } else {
        None
    }
}

/// Name of a phase in output file names.
pub open spec fn phase_name(p: Phase) -> Seq<char> {
    match p {
        Phase::Open => "open"@,
        Phase::Cover => "cover"@,
        Phase::Tokenize => "tokenize"@,
        Phase::Render => "render"@,
        Phase::Full => "full"@,
        Phase::SessionOnce => "session_once"@,
        Phase::Session => "session"@,
    }
}

impl Phase {
    /// Phase named on the command line (exact, case-sensitive names;
    /// `session-once` is accepted for `session_once`).
    pub fn from_str(s: &str) -> (r: Option<Phase>)
        ensures
            r == phase_for(s@),
    {
        if str_eq(s, "open") {
            Some(Phase::Open)
        } else if str_eq(s, "cover") {
            Some(Phase::Cover)
        } else if str_eq(s, "tokenize") {
            Some(Phase::Tokenize)
        } else if str_eq(s, "render") {
            Some(Phase::Render)
        } else if str_eq(s, "full") {
            Some(Phase::Full)
        } else if str_eq(s, "session-once") || str_eq(s, "session_once") {
            Some(Phase::SessionOnce)
        } else if str_eq(s, "session") {
            Some(Phase::Session)
        } else {
            None
        }
    }

    /// Name of the phase in output file names.
    pub fn name(self) -> (r: &'static str)
        ensures
            r@ == phase_name(self),
    {
        match self {
            Phase::Open => "open",
            Phase::Cover => "cover",
            Phase::Tokenize => "tokenize",
            Phase::Render => "render",
            Phase::Full => "full",
            Phase::SessionOnce => "session_once",
            Phase::Session => "session",
        }
    }
}

/// Every phase's name parses back to that phase.
pub proof fn law_phase_name_roundtrip(p: Phase)
    ensures
        phase_for(phase_name(p)) == Some(p),
{
    reveal_strlit("open");
    reveal_strlit("cover");
    reveal_strlit("tokenize");
    reveal_strlit("render");
    reveal_strlit("full");
    reveal_strlit("session-once");
    reveal_strlit("session_once");
    reveal_strlit("session");
    assert("open"@.len() == 4 && "open"@[0] == 'o');
    assert("cover"@.len() == 5);
    assert("tokenize"@.len() == 8);
    assert("render"@.len() == 6);
    assert("full"@.len() == 4 && "full"@[0] == 'f');
    assert("session-once"@.len() == 12 && "session-once"@[7] == '-');
    assert("session_once"@.len() == 12 && "session_once"@[7] == '_');
    assert("session"@.len() == 7);
    if p == Phase::Open {
        lemma_open_name_roundtrip();
    }
}

proof fn lemma_open_name_roundtrip()
    ensures
        phase_for(phase_name(Phase::Open)) == Some(Phase::Open),
{
}

/// End of `s[..j]` once trailing `/` are skipped.
pub open spec fn skip_slashes(s: Seq<char>, j: int) -> int
    decreases j,
{
    if j <= 0 {
        0
    } else if s[j - 1] != '/' {
        j
    } else {
        skip_slashes(s, j - 1)
    }
}

/// Start of the component that ends at `j` (just after the previous `/`).
pub open spec fn component_start(s: Seq<char>, j: int) -> int {
    last_index_of(s, '/', j) + 1
}

/// Last component of `s[..j]` that is neither empty nor `.`, walking back
/// over separators and `.` components.
pub open spec fn last_component(s: Seq<char>, j: int) -> Option<Seq<char>>
    decreases j,
{
    let e = skip_slashes(s, j);
    if e <= 0 || e > j {
        None
    } else {
        let b = component_start(s, e);
        if b < 0 || b >= e {
            None
        } else if s.subrange(b, e) == seq!['.'] {
            last_component(s, b)
        } else {
            Some(s.subrange(b, e))
        }
    }
}

/// File name of a path (`Path::file_name`): its last component, unless that
/// is `..` or there is none.
pub open spec fn file_name(path: Seq<char>) -> Option<Seq<char>> {
    match last_component(path, path.len() as int) {
        Some(c) => if c == seq!['.', '.'] {
            None
        } else {
            Some(c)
        },
        None => None,
    }
}

/// Stem of a file name (`Path::file_stem`): the part before its last `.`,
/// unless that `.` is the first character or there is none.
pub open spec fn file_stem_of(name: Seq<char>) -> Seq<char> {
    let d = last_index_of(name, '.', name.len() as int);
    if d <= 0 {
        name
    } else {
        name.take(d)
    }
}

/// Name used for a profiled file in output names: the stem of its path, or
/// `unknown`.
pub open spec fn short_name_of(path: Seq<char>) -> Seq<char> {
    match file_name(path) {
        Some(n) => file_stem_of(n),
        None => "unknown"@,
    }
}

proof fn lemma_skip_slashes_bounds(s: Seq<char>, j: int)
    requires
        0 <= j <= s.len(),
    ensures
        0 <= skip_slashes(s, j) <= j,
        skip_slashes(s, j) > 0 ==> s[skip_slashes(s, j) - 1] != '/',
    decreases j,
{
    if j > 0 && s[j - 1] == '/' {
        lemma_skip_slashes_bounds(s, j - 1);
    }
}

proof fn lemma_last_index_of_bounds(s: Seq<char>, c: char, j: int)
    requires
        0 <= j <= s.len(),
    ensures
        -1 <= last_index_of(s, c, j) < j,
        last_index_of(s, c, j) >= 0 ==> s[last_index_of(s, c, j)] == c,
    decreases j,
{
    if j > 0 && s[j - 1] != c {
        lemma_last_index_of_bounds(s, c, j - 1);
    }
}

/// Name used for a profiled file in output names: the file stem of its path,
/// or `unknown` when the path has no file name.
pub fn short_name(path: &str) -> (r: String)
    ensures
        r@ == short_name_of(path@),
{
    let v = chars_of(path);
    let mut j: usize = v.len();
    let mut found: Option<(usize, usize)> = None;
    let mut exhausted = false;
    loop
        invariant
            j <= v.len(),
            v@ == path@,
            exhausted ==> last_component(v@, v@.len() as int) is None,
            exhausted ==> found is None,
            found is None ==> last_component(v@, j as int) == last_component(v@, v@.len() as int),
            found matches Some((b, e)) ==> b < e <= v.len() && last_component(v@, v@.len() as int)
                == Some(v@.subrange(b as int, e as int)),
        ensures
            v@ == path@,
            found is None ==> last_component(v@, v@.len() as int) is None,
            found matches Some((b, e)) ==> b < e <= v.len() && last_component(v@, v@.len() as int)
                == Some(v@.subrange(b as int, e as int)),
        decreases j, if found is None && !exhausted { 1int } else { 0int },
    {
        if found.is_some() || exhausted {
            break;
        }
        proof {
            lemma_skip_slashes_bounds(v@, j as int);
        }
        let mut e = j;
        while e > 0 && v[e - 1] == '/'
            invariant
                e <= j <= v.len(),
                skip_slashes(v@, e as int) == skip_slashes(v@, j as int),
            decreases e,
        {
            e -= 1;
        }
        if e == 0 {
            exhausted = true;
            continue;
        }
        assert(e == skip_slashes(v@, j as int));
        assert(v@[e - 1] != '/');
        proof {
            lemma_last_index_of_bounds(v@, '/', e as int);
        }
        let mut b = e;
        while b > 0 && v[b - 1] != '/'
            invariant
                b <= e <= v.len(),
                last_index_of(v@, '/', b as int) == last_index_of(v@, '/', e as int),
            decreases b,
        {
            b -= 1;
        }
        assert(b < e);
        assert(b == component_start(v@, e as int));
        if e - b == 1 && v[b] == '.' {
            assert(v@.subrange(b as int, e as int) =~= seq!['.']);
            j = b;
        } else {
            assert(v@.subrange(b as int, e as int).len() == e - b);
            assert(v@.subrange(b as int, e as int) != seq!['.']) by {
                if v@.subrange(b as int, e as int) == seq!['.'] {
                    assert(v@.subrange(b as int, e as int)[0] == v@[b as int]);
                    assert(seq!['.'][0] == '.');
                }
            }
            found = Some((b, e));
        }
    }
    let (b, e) = match found {
        Some(p) => p,
        None => {
            proof {
                reveal_strlit("unknown");
            }
            return "unknown".to_owned();
        },
    };
    if e - b == 2 && v[b] == '.' && v[b + 1] == '.' {
        assert(v@.subrange(b as int, e as int) =~= seq!['.', '.']);
        return "unknown".to_owned();
    }
    let mut name: Vec<char> = Vec::new();
    let mut k = b;
    while k < e
        invariant
            b <= k <= e <= v.len(),
            name@ == v@.subrange(b as int, k as int),
        decreases e - k,
    {
        name.push(v[k]);
        k += 1;
        assert(name@ =~= v@.subrange(b as int, k as int));
    }
    assert(name@ != seq!['.', '.']) by {
        if name@ == seq!['.', '.'] {
            assert(name@[0] == v@[b as int] && name@[1] == v@[b + 1]);
        }
    }
    proof {
        lemma_last_index_of_bounds(name@, '.', name@.len() as int);
    }
    let mut d = name.len();
    while d > 0 && name[d - 1] != '.'
        invariant
            d <= name.len(),
            last_index_of(name@, '.', d as int) == last_index_of(name@, '.', name@.len() as int),
        decreases d,
    {
        d -= 1;
    }
    if d <= 1 {
        return string_from_chars(&name);
    }
    let mut stem: Vec<char> = Vec::new();
    let mut t: usize = 0;
    while t < d - 1
        invariant
            t <= d - 1,
            d <= name.len(),
            stem@ == name@.take(t as int),
        decreases d - 1 - t,
    {
        stem.push(name[t]);
        t += 1;
        assert(stem@ =~= name@.take(t as int));
    }
    string_from_chars(&stem)
}

/// `open`, `cover`, `tokenize`, `render`, `full`, `session-once` (or
/// `session_once`) and `session` name the profiling phases; any other word
/// names none.
pub proof fn law_phase_keywords(key: Seq<char>)
    ensures
        key == "open"@ ==> phase_for(key) == Some(Phase::Open),
        key == "cover"@ ==> phase_for(key) == Some(Phase::Cover),
        key == "tokenize"@ ==> phase_for(key) == Some(Phase::Tokenize),
        key == "render"@ ==> phase_for(key) == Some(Phase::Render),
        key == "full"@ ==> phase_for(key) == Some(Phase::Full),
        key == "session-once"@ || key == "session_once"@ ==> phase_for(key) == Some(Phase::SessionOnce),
        key == "session"@ ==> phase_for(key) == Some(Phase::Session),
        key != "open"@ && key != "cover"@ && key != "tokenize"@ && key != "render"@ && key != "full"@ && key != "session-once"@ && key != "session_once"@ && key != "session"@ ==> phase_for(key) == None::<Phase>,
{
    reveal_strlit("open");
    reveal_strlit("cover");
    reveal_strlit("tokenize");
    reveal_strlit("render");
    reveal_strlit("full");
    reveal_strlit("session-once");
    reveal_strlit("session_once");
    reveal_strlit("session");
    assert("open"@ != "cover"@) by { assert("open"@.len() != "cover"@.len()); }
    assert("open"@ != "tokenize"@) by { assert("open"@.len() != "tokenize"@.len()); }
    assert("open"@ != "render"@) by { assert("open"@.len() != "render"@.len()); }
    assert("open"@ != "full"@) by { assert("open"@[0] != "full"@[0]); }
    assert("open"@ != "session-once"@) by { assert("open"@.len() != "session-once"@.len()); }
    assert("open"@ != "session_once"@) by { assert("open"@.len() != "session_once"@.len()); }
    assert("open"@ != "session"@) by { assert("open"@.len() != "session"@.len()); }
    assert("cover"@ != "tokenize"@) by { assert("cover"@.len() != "tokenize"@.len()); }
    assert("cover"@ != "render"@) by { assert("cover"@.len() != "render"@.len()); }
    assert("cover"@ != "full"@) by { assert("cover"@.len() != "full"@.len()); }
    assert("cover"@ != "session-once"@) by { assert("cover"@.len() != "session-once"@.len()); }
    assert("cover"@ != "session_once"@) by { assert("cover"@.len() != "session_once"@.len()); }
    assert("cover"@ != "session"@) by { assert("cover"@.len() != "session"@.len()); }
    assert("tokenize"@ != "render"@) by { assert("tokenize"@.len() != "render"@.len()); }
    assert("tokenize"@ != "full"@) by { assert("tokenize"@.len() != "full"@.len()); }
    assert("tokenize"@ != "session-once"@) by { assert("tokenize"@.len() != "session-once"@.len()); }
    assert("tokenize"@ != "session_once"@) by { assert("tokenize"@.len() != "session_once"@.len()); }
    assert("tokenize"@ != "session"@) by { assert("tokenize"@.len() != "session"@.len()); }
    assert("render"@ != "full"@) by { assert("render"@.len() != "full"@.len()); }
    assert("render"@ != "session-once"@) by { assert("render"@.len() != "session-once"@.len()); }
    assert("render"@ != "session_once"@) by { assert("render"@.len() != "session_once"@.len()); }
    assert("render"@ != "session"@) by { assert("render"@.len() != "session"@.len()); }
    assert("full"@ != "session-once"@) by { assert("full"@.len() != "session-once"@.len()); }
    assert("full"@ != "session_once"@) by { assert("full"@.len() != "session_once"@.len()); }
    assert("full"@ != "session"@) by { assert("full"@.len() != "session"@.len()); }
    assert("session-once"@ != "session_once"@) by { assert("session-once"@[7] != "session_once"@[7]); }
    assert("session-once"@ != "session"@) by { assert("session-once"@.len() != "session"@.len()); }
    assert("session_once"@ != "session"@) by { assert("session_once"@.len() != "session"@.len()); }
}

/// The name of each profiling phase.
pub proof fn law_phase_names()
    ensures
        phase_name(Phase::Open) == "open"@,
        phase_name(Phase::Cover) == "cover"@,
        phase_name(Phase::Tokenize) == "tokenize"@,
        phase_name(Phase::Render) == "render"@,
        phase_name(Phase::Full) == "full"@,
        phase_name(Phase::SessionOnce) == "session_once"@,
        phase_name(Phase::Session) == "session"@,
{
}

} // verus!
