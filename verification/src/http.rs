use vstd::prelude::*;

use crate::engine::{decimal, push_decimal};
use crate::preview_args::{parse_unsigned, parse_unsigned_exec};
use crate::text::{char_is_ws, chars_of, is_ws, lower_seq, string_from_chars, trim_seq, trim_lower, trim_lower_chars, chars_eq_str};

verus! {

/// Index of the first `\r\n` in `s` at or after `i` (or `s.len()`).
pub open spec fn crlf_from(s: Seq<char>, i: int) -> int
    decreases s.len() - i,
{
    if i < 0 || i + 1 >= s.len() {
        s.len() as int
    } else if s[i] == '\r' && s[i + 1] == '\n' {
        i
    } else {
        crlf_from(s, i + 1)
    }
}

/// First index at or after `i` whose character is not whitespace (or `s.len()`).
pub open spec fn skip_ws(s: Seq<char>, i: int) -> int
    decreases s.len() - i,
{
    if i < 0 || i >= s.len() {
        s.len() as int
    } else if !is_ws(s[i]) {
        i
    } else {
        skip_ws(s, i + 1)
    }
}

/// First index at or after `i` whose character is whitespace (or `s.len()`).
pub open spec fn token_end(s: Seq<char>, i: int) -> int
    decreases s.len() - i,
{
    if i < 0 || i >= s.len() {
        s.len() as int
    } else if is_ws(s[i]) {
        i
    } else {
        token_end(s, i + 1)
    }
}

/// Index of the first `:` in `s` (or `s.len()`).
pub open spec fn colon_index(s: Seq<char>) -> int {
    crate::paths::find_char_from(s, ':', 0)
}

/// Content length a header line sets, if it is a `Content-Length` line
/// (name compared case-insensitively, unparsable values read as zero).
pub open spec fn content_length_of_line(line: Seq<char>) -> Option<int> {
    let k = colon_index(line);
    if line.len() == 0 || k >= line.len() {
        None
    } else if trim_lower(line.take(k)) == "content-length"@ {
        Some(
            match parse_unsigned(trim_seq(line.skip(k + 1)), usize::MAX as int) {
                Some(n) => n,
                None => 0,
            },
        )
    } else {
        None
    }
}

/// Content length after the header lines starting at `i`: the last
/// `Content-Length` line wins, `acc` when there is none.
pub open spec fn content_length_from(s: Seq<char>, i: int, acc: int) -> int
    decreases s.len() - i,
{
    if i < 0 || i > s.len() {
        acc
    } else {
        proof {
            lemma_crlf_bounds(s, i);
        }
        let e = crlf_from(s, i);
        let acc2 = match content_length_of_line(s.subrange(i, e)) {
            Some(n) => n,
            None => acc,
        };
        if e >= s.len() {
            acc2
        } else {
            content_length_from(s, e + 2, acc2)
        }
    }
}

/// Method, path and body length read from an HTTP request head.
#[derive(Clone, Debug, PartialEq, Eq)]
pub struct HttpHead {
    pub method: String,
    pub path: String,
    pub content_length: usize,
}

/// Why an HTTP request head was refused.
#[derive(Clone, Copy, Debug, PartialEq, Eq)]
pub enum HttpHeadError {
    /// The request line has no method.
    MissingMethod,
    /// The request line has no path.
    MissingPath,
}

pub proof fn lemma_crlf_bounds(s: Seq<char>, i: int)
    requires
        0 <= i <= s.len(),
    ensures
        i <= crlf_from(s, i) <= s.len(),
        crlf_from(s, i) < s.len() ==> crlf_from(s, i) + 1 < s.len(),
    decreases s.len() - i,
{
    if i + 1 < s.len() && !(s[i] == '\r' && s[i + 1] == '\n') {
        lemma_crlf_bounds(s, i + 1);
    }
}

proof fn lemma_skip_bounds(s: Seq<char>, i: int)
    requires
        0 <= i <= s.len(),
    ensures
        i <= skip_ws(s, i) <= s.len(),
        i <= token_end(s, i) <= s.len(),
    decreases s.len() - i,
{
    if i < s.len() {
        lemma_skip_bounds(s, i + 1);
    }
}

fn crlf_exec(v: &Vec<char>, i: usize) -> (r: usize)
    requires
        i <= v.len(),
    ensures
        r == crlf_from(v@, i as int),
{
    proof {
        lemma_crlf_bounds(v@, i as int);
    }
    let mut k = i;
    while k < v.len() && k + 1 < v.len() && !(v[k] == '\r' && v[k + 1] == '\n')
        invariant
            i <= k <= v.len(),
            crlf_from(v@, k as int) == crlf_from(v@, i as int),
        decreases v.len() - k,
    {
        k += 1;
    }
    if k < v.len() && k + 1 < v.len() {
        k
    } else {
        v.len()
    }
}

fn skip_ws_exec(v: &Vec<char>, i: usize) -> (r: usize)
    requires
        i <= v.len(),
    ensures
        r == skip_ws(v@, i as int),
{
    proof {
        lemma_skip_bounds(v@, i as int);
    }
    let mut k = i;
    while k < v.len() && char_is_ws(v[k])
        invariant
            i <= k <= v.len(),
            skip_ws(v@, k as int) == skip_ws(v@, i as int),
        decreases v.len() - k,
    {
        k += 1;
    }
    k
}

fn token_end_exec(v: &Vec<char>, i: usize) -> (r: usize)
    requires
        i <= v.len(),
    ensures
        r == token_end(v@, i as int),
{
    proof {
        lemma_skip_bounds(v@, i as int);
    }
    let mut k = i;
    while k < v.len() && !char_is_ws(v[k])
        invariant
            i <= k <= v.len(),
            token_end(v@, k as int) == token_end(v@, i as int),
        decreases v.len() - k,
    {
        k += 1;
    }
    k
}

fn slice_chars(v: &Vec<char>, a: usize, b: usize) -> (r: Vec<char>)
    requires
        a <= b <= v.len(),
    ensures
        r@ == v@.subrange(a as int, b as int),
{
    let mut out: Vec<char> = Vec::new();
    let mut k = a;
    while k < b
        invariant
            a <= k <= b <= v.len(),
            out@ == v@.subrange(a as int, k as int),
        decreases b - k,
    {
        out.push(v[k]);
        k += 1;
        assert(out@ =~= v@.subrange(a as int, k as int));
    }
    out
}

fn line_content_length(line: &Vec<char>) -> (r: Option<usize>)
    ensures
        match content_length_of_line(line@) {
            Some(n) => r matches Some(m) && m == n,
            None => r is None,
        },
{
    if line.len() == 0 {
        return None;
    }
    proof {
        crate::paths::lemma_find_char_bounds(line@, ':', 0);
    }
    let k = crate::paths::find_char_exec(line, ':', 0);
    if k >= line.len() {
        return None;
    }
    let key = string_from_chars(&slice_chars(line, 0, k));
    let key_norm = trim_lower_chars(key.as_str());
    assert(line@.take(k as int) =~= line@.subrange(0, k as int));
    if !chars_eq_str(&key_norm, "content-length") {
        return None;
    }
    let value_chars = slice_chars(line, k + 1, line.len());
    assert(line@.skip(k + 1) =~= line@.subrange(k + 1, line@.len() as int));
    let (lo, hi) = crate::text::trim_bounds(&value_chars);
    let trimmed = string_from_chars(&slice_chars(&value_chars, lo, hi));
    match parse_unsigned_exec(trimmed.as_str(), usize::MAX as u64) {
        Some(n) => Some(n as usize),
        None => Some(0),
    }
}

/// Parses the head of an HTTP request (the text before the blank line): the
/// method and path are the first two whitespace-separated words of the
/// first line; the body length is that of the last `Content-Length` line
/// (zero when absent or unparsable).
pub fn parse_http_head(header: &str) -> (r: Result<HttpHead, HttpHeadError>)
    ensures
        ({
            let s = header@;
            let line = s.take(crlf_from(s, 0));
            let a = skip_ws(line, 0);
            let b = token_end(line, a);
            let c = skip_ws(line, b);
            let d = token_end(line, c);
            if a >= line.len() {
                r == Err::<HttpHead, HttpHeadError>(HttpHeadError::MissingMethod)
            } else if c >= line.len() {
                r == Err::<HttpHead, HttpHeadError>(HttpHeadError::MissingPath)
            } else {
                &&& r matches Ok(h)
                &&& h.method@ == line.subrange(a, b)
                &&& h.path@ == line.subrange(c, d)
                &&& h.content_length == (if crlf_from(s, 0) >= s.len() {
                    0
                } else {
                    content_length_from(s, crlf_from(s, 0) + 2, 0)
                })
            }
        }),
{
    let v = chars_of(header);
    let first_end = crlf_exec(&v, 0);
    proof {
        lemma_crlf_bounds(v@, 0);
    }
    let line = slice_chars(&v, 0, first_end);
    assert(line@ =~= v@.take(first_end as int));
    let a = skip_ws_exec(&line, 0);
    if a >= line.len() {
        return Err(HttpHeadError::MissingMethod);
    }
    let b = token_end_exec(&line, a);
    proof {
        lemma_skip_bounds(line@, a as int);
    }
    let c = skip_ws_exec(&line, b);
    if c >= line.len() {
        return Err(HttpHeadError::MissingPath);
    }
    proof {
        lemma_skip_bounds(line@, b as int);
        lemma_skip_bounds(line@, c as int);
    }
    let d = token_end_exec(&line, c);
    let method = string_from_chars(&slice_chars(&line, a, b));
    let path = string_from_chars(&slice_chars(&line, c, d));
    let mut content_length: usize = 0;
    if first_end < v.len() {
        let mut i: usize = first_end + 2;
        let ghost goal = content_length_from(v@, (first_end + 2) as int, 0);
        loop
            invariant_except_break
                i <= v.len(),
                goal == content_length_from(v@, i as int, content_length as int),
            ensures
                goal == content_length,
            decreases v.len() - i,
        {
            proof {
                lemma_crlf_bounds(v@, i as int);
            }
            let e = crlf_exec(&v, i);
            let line_i = slice_chars(&v, i, e);
            match line_content_length(&line_i) {
                Some(n) => {
                    content_length = n;
                },
                None => {},
            }
            if e >= v.len() {
                break;
            }
            i = e + 2;
        }
        assert(goal == content_length);
    }
    Ok(HttpHead { method, path, content_length })
}

/// Responses the preview server can give.
#[derive(Clone, Copy, Debug, PartialEq, Eq)]
pub enum Route {
    /// `GET /`: the preview page.
    Index,
    /// `GET /api/default-config`: the initial settings.
    DefaultConfig,
    /// `POST /api/render`: a render with posted settings.
    Render,
    /// `GET /favicon.ico`: no content.
    Favicon,
    /// Anything else.
    NotFound,
}

/// Route of a request: the path is read up to its first `?`.
pub open spec fn route_for(method: Seq<char>, path: Seq<char>) -> Route {
    let p = path.take(crate::paths::find_char_from(path, '?', 0));
    if method == "GET"@ && p == "/"@ {
        Route::Index
    } else if method == "GET"@ && p == "/api/default-config"@ {
        Route::DefaultConfig
    } else if method == "POST"@ && p == "/api/render"@ {
        Route::Render
    } else if method == "GET"@ && p == "/favicon.ico"@ {
        Route::Favicon
    } else {
        Route::NotFound
    }
}

/// Route of a request by method and path (query ignored).
pub fn route_request(method: &str, path: &str) -> (r: Route)
    ensures
        r == route_for(method@, path@),
{
    let pv = chars_of(path);
    proof {
        crate::paths::lemma_find_char_bounds(pv@, '?', 0);
    }
    let q = crate::paths::find_char_exec(&pv, '?', 0);
    let p = slice_chars(&pv, 0, q);
    assert(p@ =~= path@.take(q as int));
    let get = crate::text::str_eq(method, "GET");
    let post = crate::text::str_eq(method, "POST");
    if get && chars_eq_str(&p, "/") {
        Route::Index
    } else if get && chars_eq_str(&p, "/api/default-config") {
        Route::DefaultConfig
    } else if post && chars_eq_str(&p, "/api/render") {
        Route::Render
    } else if get && chars_eq_str(&p, "/favicon.ico") {
        Route::Favicon
    } else {
        Route::NotFound
    }
}

/// Head of an HTTP response with the given status, media type and body length.
pub open spec fn response_head(status: Seq<char>, content_type: Seq<char>, body_len: nat) -> Seq<char> {
    "HTTP/1.1 "@ + status + "\r\nContent-Type: "@ + content_type + "\r\nContent-Length: "@
        + decimal(body_len) + "\r\nCache-Control: no-store\r\nConnection: close\r\n\r\n"@
}

fn append_str(out: &mut Vec<char>, s: &str)
    ensures
        final(out)@ == old(out)@ + s@,
{
    let v = chars_of(s);
    let ghost start = out@;
    let mut i: usize = 0;
    while i < v.len()
        invariant
            i <= v.len(),
            out@ == start + v@.take(i as int),
        decreases v.len() - i,
    {
        out.push(v[i]);
        i += 1;
        assert(out@ =~= start + v@.take(i as int));
    }
    assert(v@.take(v.len() as int) =~= v@);
}

/// Head of the server's HTTP responses: status line, media type, body
/// length, no caching, connection closed.
pub fn http_response_head(status: &str, content_type: &str, body_len: usize) -> (r: String)
    ensures
        r@ == response_head(status@, content_type@, body_len as nat),
{
    let mut out: Vec<char> = Vec::new();
    append_str(&mut out, "HTTP/1.1 ");
    append_str(&mut out, status);
    append_str(&mut out, "\r\nContent-Type: ");
    append_str(&mut out, content_type);
    append_str(&mut out, "\r\nContent-Length: ");
    push_decimal(&mut out, body_len);
    append_str(&mut out, "\r\nCache-Control: no-store\r\nConnection: close\r\n\r\n");
    assert(out@ =~= response_head(status@, content_type@, body_len as nat));
    string_from_chars(&out)
}

/// A request is routed by its method and its path up to the first `?`:
/// `GET /` is the page, `GET /api/default-config` the settings, `POST
/// /api/render` a render, `GET /favicon.ico` the icon; anything else is not
/// found.
pub proof fn law_routes(method: Seq<char>, path: Seq<char>, query: Seq<char>)
    requires
        forall|k: int| 0 <= k < path.len() ==> path[k] != '?',
    ensures
        ({
            let full = path + seq!['?'] + query;
            &&& route_for(method, path) == route_for(method, full)
            &&& method == "GET"@ && path == "/"@ ==> route_for(method, path) == Route::Index
            &&& method == "GET"@ && path == "/api/default-config"@ ==> route_for(method, path) == Route::DefaultConfig
            &&& method == "POST"@ && path == "/api/render"@ ==> route_for(method, path) == Route::Render
            &&& method == "GET"@ && path == "/favicon.ico"@ ==> route_for(method, path) == Route::Favicon
            &&& !(method == "GET"@ && path == "/"@) && !(method == "GET"@ && path == "/api/default-config"@)
                && !(method == "POST"@ && path == "/api/render"@) && !(method == "GET"@ && path == "/favicon.ico"@)
                ==> route_for(method, path) == Route::NotFound
        }),
{
    reveal_strlit("GET");
    reveal_strlit("POST");
    reveal_strlit("/");
    reveal_strlit("/api/default-config");
    reveal_strlit("/api/render");
    reveal_strlit("/favicon.ico");
    let full = path + seq!['?'] + query;
    crate::paths::lemma_find_char_bounds(path, '?', 0);
    lemma_find_first(path, '?', 0);
    lemma_find_first_at(full, '?', 0, path.len() as int);
    assert(full.take(path.len() as int) =~= path);
    assert(path.take(path.len() as int) =~= path);
    assert("GET"@ != "POST"@) by { assert("GET"@.len() != "POST"@.len()); }
    assert("/"@ != "/api/default-config"@) by { assert("/"@.len() != "/api/default-config"@.len()); }
    assert("/"@ != "/api/render"@) by { assert("/"@.len() != "/api/render"@.len()); }
    assert("/"@ != "/favicon.ico"@) by { assert("/"@.len() != "/favicon.ico"@.len()); }
    assert("/api/default-config"@ != "/favicon.ico"@) by { assert("/api/default-config"@.len() != "/favicon.ico"@.len()); }
}

proof fn lemma_find_first(s: Seq<char>, c: char, i: int)
    requires
        0 <= i <= s.len(),
        forall|k: int| i <= k < s.len() ==> s[k] != c,
    ensures
        crate::paths::find_char_from(s, c, i) == s.len(),
    decreases s.len() - i,
{
    if i < s.len() {
        lemma_find_first(s, c, i + 1);
    }
}

proof fn lemma_find_first_at(s: Seq<char>, c: char, i: int, m: int)
    requires
        0 <= i <= m < s.len(),
        s[m] == c,
        forall|k: int| i <= k < m ==> s[k] != c,
    ensures
        crate::paths::find_char_from(s, c, i) == m,
    decreases m - i,
{
    if i < m {
        lemma_find_first_at(s, c, i + 1, m);
    }
}

/// A header line `name: value` sets the content length exactly when its
/// name, trimmed and in any ASCII case, is `content-length`; the length is
/// the trimmed value read as a decimal number, or zero when it is not one.
pub proof fn law_content_length_header(name: Seq<char>, value: Seq<char>)
    requires
        forall|k: int| 0 <= k < name.len() ==> name[k] != ':',
    ensures
        trim_lower(name) == "content-length"@ ==> content_length_of_line(name + seq![':'] + value)
            == Some(match parse_unsigned(trim_seq(value), usize::MAX as int) {
                Some(n) => n,
                None => 0,
            }),
        trim_lower(name) != "content-length"@ ==> content_length_of_line(name + seq![':'] + value)
            is None,
{
    let line = name + seq![':'] + value;
    lemma_colon_first(line, 0, name.len() as int);
    assert(line.take(name.len() as int) =~= name);
    assert(line.skip(name.len() as int + 1) =~= value);
}

proof fn lemma_colon_first(s: Seq<char>, i: int, m: int)
    requires
        0 <= i <= m < s.len(),
        s[m] == ':',
        forall|k: int| i <= k < m ==> s[k] != ':',
    ensures
        crate::paths::find_char_from(s, ':', i) == m,
    decreases m - i,
{
    if i < m {
        lemma_colon_first(s, i + 1, m);
    }
}

/// The head of every response: status line `HTTP/1.1 <status>`, then
/// `Content-Type`, `Content-Length` (the body length in decimal),
/// `Cache-Control: no-store` and `Connection: close`, each ended by CRLF,
/// then an empty line.
pub proof fn law_response_head_layout(status: Seq<char>, content_type: Seq<char>, body_len: nat)
    ensures
        response_head(status, content_type, body_len) == "HTTP/1.1 "@ + status + "\r\nContent-Type: "@
            + content_type + "\r\nContent-Length: "@ + decimal(body_len)
            + "\r\nCache-Control: no-store\r\nConnection: close\r\n\r\n"@,
{
}

} // verus!
