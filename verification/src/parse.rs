//! Parsing of an HTTP request line into method, target file name and
//! protocol version.
//!
//! The grammar is the server's own: a method word, one whitespace character,
//! a path (`/` followed by characters other than whitespace and `?`), one
//! whitespace character, then `HTTP/` and a version (`1.1`, `2` or `3`).
//! The first position where the grammar matches wins. A line that matches
//! nowhere parses to `GET`, the not-found page and version `1.1`.

use vstd::prelude::*;
use vstd::string::StrSliceExecFns;
use vstd::string::StringExecFns;

verus! {

/// The whitespace characters the grammar accepts between its parts: the
/// Unicode `White_Space` class.
pub open spec fn is_ws(c: char) -> bool {
    ||| c == ' '
    ||| c == '\t'
    ||| c == '\n'
    ||| c == '\r'
    ||| c == '\u{000b}'
    ||| c == '\u{000c}'
    ||| c == '\u{0085}'
    ||| c == '\u{00a0}'
    ||| c == '\u{1680}'
    ||| ('\u{2000}' <= c && c <= '\u{200a}')
    ||| c == '\u{2028}'
    ||| c == '\u{2029}'
    ||| c == '\u{202f}'
    ||| c == '\u{205f}'
    ||| c == '\u{3000}'
}

/// `pat` occurs in `s` starting at position `i`.
pub open spec fn seq_at(s: Seq<char>, i: int, pat: Seq<char>) -> bool {
    &&& 0 <= i
    &&& i + pat.len() <= s.len()
    &&& forall|k: int| 0 <= k < pat.len() ==> s[i + k] == pat[k]
}

/// Where the method word ends, if one of the nine method words starts at
/// `i`. At most one can, since no two share a prefix that the rest of the
/// line could complete.
pub open spec fn method_end_at(s: Seq<char>, i: int) -> Option<int> {
    if seq_at(s, i, "GET"@) { Some(i + "GET"@.len()) }
    else if seq_at(s, i, "POST"@) { Some(i + "POST"@.len()) }
    else if seq_at(s, i, "PUT"@) { Some(i + "PUT"@.len()) }
    else if seq_at(s, i, "DELETE"@) { Some(i + "DELETE"@.len()) }
    else if seq_at(s, i, "HEAD"@) { Some(i + "HEAD"@.len()) }
    else if seq_at(s, i, "CONNECT"@) { Some(i + "CONNECT"@.len()) }
    else if seq_at(s, i, "OPTIONS"@) { Some(i + "OPTIONS"@.len()) }
    else if seq_at(s, i, "TRACE"@) { Some(i + "TRACE"@.len()) }
    else if seq_at(s, i, "PATCH"@) { Some(i + "PATCH"@.len()) }
    else { None }
}

/// The end of the maximal run of path characters (no whitespace, no `?`)
/// that starts at `k`.
pub open spec fn run_end(s: Seq<char>, k: int) -> int
    decreases s.len() - k,
{
    if k < 0 || k >= s.len() {
        k
    } else if is_ws(s[k]) || s[k] == '?' {
        k
    } else {
        run_end(s, k + 1)
    }
}

/// Where the version ends if one starts at `v`: the three characters
/// `1.1`, or a single `2` or `3`.
pub open spec fn version_end_at(s: Seq<char>, v: int) -> Option<int> {
    if 0 <= v && v + 3 <= s.len() && s[v] == '1' && s[v + 1] == '.' && s[v + 2] == '1' {
        Some(v + 3)
    } else if 0 <= v && v < s.len() && s[v] == '2' {
        Some(v + 1)
    } else if 0 <= v && v < s.len() && s[v] == '3' {
        Some(v + 1)
    } else {
        None
    }
}

/// The grammar, anchored at position `i`: on a match, the method's end, the
/// path's end and the version's end. The path runs from one past the
/// method's end to its own end; the version starts six characters after the
/// path's end (one whitespace character, then `HTTP/`).
pub open spec fn spans_at(s: Seq<char>, i: int) -> Option<(int, int, int)> {
    match method_end_at(s, i) {
        None => None,
        Some(m_end) => {
            let p = m_end + 1;
            if m_end < s.len() && is_ws(s[m_end]) && p < s.len() && s[p] == '/' {
                let e = run_end(s, p + 1);
                if e < s.len() && is_ws(s[e]) && seq_at(s, e + 1, "HTTP/"@) {
                    match version_end_at(s, e + 6) {
                        None => None,
                        Some(v_end) => Some((m_end, e, v_end)),
                    }
                } else {
                    None
                }
            } else {
                None
            }
        },
    }
}

/// The leftmost match of the grammar at or after position `i`: its start
/// and the three ends.
pub open spec fn find_spans(s: Seq<char>, i: int) -> Option<(int, int, int, int)>
    decreases s.len() - i,
{
    if i < 0 || i >= s.len() {
        None
    } else {
        match spans_at(s, i) {
            Some(sp) => Some((i, sp.0, sp.1, sp.2)),
            None => find_spans(s, i + 1),
        }
    }
}

/// The first position in `[p, e)` that does not hold a `/`.
pub open spec fn slash_end(s: Seq<char>, p: int, e: int) -> int
    decreases e - p,
{
    if p < 0 || p >= e || s[p] != '/' {
        p
    } else {
        slash_end(s, p + 1, e)
    }
}

/// The start of the last `/`-separated component of `s[ts..k]`: one past
/// the last `/`, or `ts` if there is none.
pub open spec fn comp_start(s: Seq<char>, ts: int, k: int) -> int
    decreases k - ts,
{
    if k <= ts {
        ts
    } else if s[k - 1] == '/' {
        k
    } else {
        comp_start(s, ts, k - 1)
    }
}

/// Some position in `[lo, hi)` holds a `.`.
pub open spec fn has_dot(s: Seq<char>, lo: int, hi: int) -> bool {
    exists|d: int| lo <= d < hi && #[trigger] s[d] == '.'
}

/// The file name a matched path `s[p..e)` resolves to: the path `/` alone
/// means the default file; otherwise the leading slashes go, and a last
/// component with no `.` past its first character gets `.html` appended.
/// A path of slashes only resolves to the empty name.
pub open spec fn spec_filename(s: Seq<char>, p: int, e: int, default: Seq<char>) -> Seq<char> {
    if e - p == 1 {
        default
    } else {
        let ts = slash_end(s, p, e);
        if ts == e {
            Seq::empty()
        } else {
            let t = s.subrange(ts, e);
            let cs = comp_start(s, ts, e);
            if has_dot(s, cs + 1, e) {
                t
            } else {
                t + ".html"@
            }
        }
    }
}

/// What a request line parses to: method, file name and version, with the
/// defaults for a line the grammar matches nowhere.
pub open spec fn spec_parse(s: Seq<char>, default: Seq<char>) -> (Seq<char>, Seq<char>, Seq<char>) {
    match find_spans(s, 0) {
        None => ("GET"@, "404.html"@, "1.1"@),
        Some(sp) => (
            s.subrange(sp.0, sp.1),
            spec_filename(s, sp.1 + 1, sp.2, default),
            s.subrange(sp.2 + 6, sp.3),
        ),
    }
}

fn is_ws_char(c: char) -> (r: bool)
    ensures
        r == is_ws(c),
{
    c == ' ' || c == '\t' || c == '\n' || c == '\r' || c == '\u{000b}' || c == '\u{000c}'
        || c == '\u{0085}' || c == '\u{00a0}' || c == '\u{1680}'
        || ('\u{2000}' <= c && c <= '\u{200a}')
        || c == '\u{2028}' || c == '\u{2029}' || c == '\u{202f}' || c == '\u{205f}'
        || c == '\u{3000}'
}

/// Whether `pat` occurs in `s` at position `i`.
fn starts_with_at(s: &str, n: usize, i: usize, pat: &str) -> (r: bool)
    requires
        n == s@.len(),
    ensures
        r == seq_at(s@, i as int, pat@),
{
    let pn = pat.unicode_len();
    if i > n || pn > n - i {
        return false;
    }
    let mut k: usize = 0;
    while k < pn
        invariant
            n == s@.len(),
            pn == pat@.len(),
            i + pn <= n,
            k <= pn,
            forall|kk: int| 0 <= kk < k ==> s@[i + kk] == pat@[kk],
        decreases pn - k,
    {
        if s.get_char(i + k) != pat.get_char(k) {
            return false;
        }
        k = k + 1;
    }
    true
}

/// Where the method word ends, if one starts at `i`.
fn method_end_exec(s: &str, n: usize, i: usize) -> (r: Option<usize>)
    requires
        n == s@.len(),
    ensures
        match r {
            Some(m) => method_end_at(s@, i as int) == Some(m as int),
            None => method_end_at(s@, i as int) is None,
        },
{
    if starts_with_at(s, n, i, "GET") { Some(i + "GET".unicode_len()) }
    else if starts_with_at(s, n, i, "POST") { Some(i + "POST".unicode_len()) }
    else if starts_with_at(s, n, i, "PUT") { Some(i + "PUT".unicode_len()) }
    else if starts_with_at(s, n, i, "DELETE") { Some(i + "DELETE".unicode_len()) }
    else if starts_with_at(s, n, i, "HEAD") { Some(i + "HEAD".unicode_len()) }
    else if starts_with_at(s, n, i, "CONNECT") { Some(i + "CONNECT".unicode_len()) }
    else if starts_with_at(s, n, i, "OPTIONS") { Some(i + "OPTIONS".unicode_len()) }
    else if starts_with_at(s, n, i, "TRACE") { Some(i + "TRACE".unicode_len()) }
    else if starts_with_at(s, n, i, "PATCH") { Some(i + "PATCH".unicode_len()) }
    else { None }
}

/// The end of the maximal run of path characters starting at `k`.
fn run_end_exec(s: &str, n: usize, k: usize) -> (r: usize)
    requires
        n == s@.len(),
        k <= n,
    ensures
        r == run_end(s@, k as int),
        k <= r <= n,
{
    let mut cur: usize = k;
    while cur < n
        invariant
            n == s@.len(),
            k <= cur <= n,
            run_end(s@, k as int) == run_end(s@, cur as int),
        decreases n - cur,
    {
        let c = s.get_char(cur);
        if is_ws_char(c) || c == '?' {
            return cur;
        }
        cur = cur + 1;
    }
    cur
}

/// The grammar, anchored at `i`.
fn spans_at_exec(s: &str, n: usize, i: usize) -> (r: Option<(usize, usize, usize)>)
    requires
        n == s@.len(),
        i < n,
    ensures
        match r {
            Some(t) => {
                &&& spans_at(s@, i as int) == Some((t.0 as int, t.1 as int, t.2 as int))
                &&& i < t.0
                &&& t.0 + 2 <= t.1
                &&& t.1 + 6 < t.2
                &&& t.2 <= n
            },
            None => spans_at(s@, i as int) is None,
        },
{
    let m_end = match method_end_exec(s, n, i) {
        None => {
            return None;
        },
        Some(m) => m,
    };
    proof {
        reveal_strlit("GET");
        reveal_strlit("POST");
        reveal_strlit("PUT");
        reveal_strlit("DELETE");
        reveal_strlit("HEAD");
        reveal_strlit("CONNECT");
        reveal_strlit("OPTIONS");
        reveal_strlit("TRACE");
        reveal_strlit("PATCH");
        assert(i < m_end <= n);
    }
    if !(m_end < n && is_ws_char(s.get_char(m_end))) {
        return None;
    }
    let p = m_end + 1;
    if !(p < n && s.get_char(p) == '/') {
        return None;
    }
    let e = run_end_exec(s, n, p + 1);
    if !(e < n && is_ws_char(s.get_char(e))) {
        return None;
    }
    if !starts_with_at(s, n, e + 1, "HTTP/") {
        return None;
    }
    proof {
        reveal_strlit("HTTP/");
        assert(e + 6 <= n);
    }
    let v = e + 6;
    if n - v >= 3 && s.get_char(v) == '1' && s.get_char(v + 1) == '.' && s.get_char(v + 2) == '1' {
        Some((m_end, e, v + 3))
    } else if v < n && s.get_char(v) == '2' {
        Some((m_end, e, v + 1))
    } else if v < n && s.get_char(v) == '3' {
        Some((m_end, e, v + 1))
    } else {
        None
    }
}

/// Parse a request line into method, file name and protocol version.
///
/// The method and version are the matched words; the file name is the
/// matched path with leading slashes removed and `.html` appended when its
/// last component has no extension, or `default_filename` for the bare
/// path `/`. A line the grammar matches nowhere parses to `GET`, the
/// not-found page and version `1.1`.
pub fn parse_request_line(request_line: &str, default_filename: &str) -> (r: (
    String,
    String,
    String,
))
    ensures
        r.0@ == spec_parse(request_line@, default_filename@).0,
        r.1@ == spec_parse(request_line@, default_filename@).1,
        r.2@ == spec_parse(request_line@, default_filename@).2,
{
    let s = request_line;
    let n = s.unicode_len();
    let mut i: usize = 0;
    let mut found: Option<(usize, usize, usize, usize)> = None;
    while i < n && found.is_none()
        invariant
            n == s@.len(),
            i <= n,
            match found {
                None => find_spans(s@, 0) == find_spans(s@, i as int),
                Some(q) => {
                    &&& find_spans(s@, 0) == Some((q.0 as int, q.1 as int, q.2 as int, q.3 as int))
                    &&& q.0 < q.1
                    &&& q.1 + 2 <= q.2
                    &&& q.2 + 6 < q.3
                    &&& q.3 <= n
                },
            },
        ensures
            match found {
                None => find_spans(s@, 0) is None,
                Some(q) => {
                    &&& find_spans(s@, 0) == Some((q.0 as int, q.1 as int, q.2 as int, q.3 as int))
                    &&& q.0 < q.1
                    &&& q.1 + 2 <= q.2
                    &&& q.2 + 6 < q.3
                    &&& q.3 <= n
                },
            },
        decreases n - i,
    {
        match spans_at_exec(s, n, i) {
            Some(t) => {
                found = Some((i, t.0, t.1, t.2));
                break ;
            },
            None => {
                i = i + 1;
            },
        }
    }
    match found {
        None => ("GET".to_owned(), "404.html".to_owned(), "1.1".to_owned()),
        Some(q) => {
            let (start, m_end, path_end, v_end) = q;
            let method = s.substring_char(start, m_end).to_owned();
            let version = s.substring_char(path_end + 6, v_end).to_owned();
            let p = m_end + 1;
            let filename = filename_from_path(s, n, p, path_end, default_filename);
            (method, filename, version)
        },
    }
}

/// Resolve the matched path `s[p..e)` to a file name, as `spec_filename`
/// states it.
fn filename_from_path(s: &str, n: usize, p: usize, e: usize, default_filename: &str) -> (r: String)
    requires
        n == s@.len(),
        p < e <= n,
    ensures
        r@ == spec_filename(s@, p as int, e as int, default_filename@),
{
    if e - p == 1 {
        return default_filename.to_owned();
    }
    // Skip the leading slashes.
    let mut ts: usize = p;
    while ts < e && s.get_char(ts) == '/'
        invariant
            n == s@.len(),
            p <= ts <= e <= n,
            slash_end(s@, p as int, e as int) == slash_end(s@, ts as int, e as int),
        decreases e - ts,
    {
        ts = ts + 1;
    }
    proof {
        assert(slash_end(s@, ts as int, e as int) == ts as int);
    }
    if ts == e {
        return String::new();
    }
    // Find where the last path component starts.
    let mut cs: usize = ts;
    let mut k: usize = ts;
    while k < e
        invariant
            n == s@.len(),
            ts <= k <= e <= n,
            ts <= cs <= k,
            cs as int == comp_start(s@, ts as int, k as int),
        decreases e - k,
    {
        if s.get_char(k) == '/' {
            cs = k + 1;
        }
        k = k + 1;
    }
    // Look for a dot past the component's first character.
    let mut dotted = false;
    if cs < e {
        let mut d: usize = cs + 1;
        while d < e
            invariant
                n == s@.len(),
                cs + 1 <= d <= e <= n,
                !dotted ==> forall|dd: int| cs + 1 <= dd < d ==> s@[dd] != '.',
                dotted ==> has_dot(s@, cs as int + 1, e as int),
            ensures
                dotted == has_dot(s@, cs as int + 1, e as int),
            decreases e - d,
        {
            if s.get_char(d) == '.' {
                dotted = true;
                break ;
            }
            d = d + 1;
        }
    }
    proof {
        if cs >= e {
            assert(!has_dot(s@, cs as int + 1, e as int));
        }
    }
    let t = s.substring_char(ts, e).to_owned();
    if dotted {
        t
    } else {
        t.concat(".html")
    }
}

} // verus!
