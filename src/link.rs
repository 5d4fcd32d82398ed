use vstd::prelude::*;
use crate::error::{ErrorInfo, CODE_INVALID_LINK};

verus! {

/// Whitespace allowed around the parts of a Link header (ASCII).
pub open spec fn is_space(c: char) -> bool {
    c == ' ' || c == '\t' || c == '\n' || c == '\r' || c == '\x0B' || c == '\x0C'
}

/// A character of a relation name: an ASCII letter, digit or `_`.
pub open spec fn is_word(c: char) -> bool {
    ('a' <= c && c <= 'z') || ('A' <= c && c <= 'Z') || ('0' <= c && c <= '9') || c == '_'
}

/// The first index at or after `i` that is not whitespace.
pub open spec fn skip_space(s: Seq<char>, i: int) -> int
    decreases s.len() - i,
{
    if 0 <= i < s.len() && is_space(s[i]) {
        skip_space(s, i + 1)
    } else {
        i
    }
}

/// The first index at or after `i` that holds `?`, or the length.
pub open spec fn find_query(s: Seq<char>, i: int) -> int
    decreases s.len() - i,
{
    if 0 <= i < s.len() && s[i] != '?' {
        find_query(s, i + 1)
    } else {
        i
    }
}

/// The start of the run of word characters that ends just before `j`.
pub open spec fn word_start(s: Seq<char>, j: int) -> int
    decreases j,
{
    if 0 < j <= s.len() && is_word(s[j - 1]) {
        word_start(s, j - 1)
    } else {
        j
    }
}

/// The start of the run of whitespace that ends just before `j`.
pub open spec fn space_start(s: Seq<char>, j: int) -> int
    decreases j,
{
    if 0 < j <= s.len() && is_space(s[j - 1]) {
        space_start(s, j - 1)
    } else {
        j
    }
}

/// The `rel="` that precedes a relation name.
pub open spec fn rel_prefix() -> Seq<char> {
    seq!['r', 'e', 'l', '=', '"']
}

/// `(rel, params)` of a Link header `<path?params>; rel="rel"`: optional
/// leading whitespace, `<`, a non-empty path up to the first `?`, the
/// non-empty parameters (no newline) up to the `>;` that ends them,
/// optional whitespace, and `rel="` with a non-empty word closing the
/// text. `None` where the text has another shape.
pub open spec fn link_parts(s: Seq<char>) -> Option<(Seq<char>, Seq<char>)> {
    let n = s.len() as int;
    let a = skip_space(s, 0);
    let q = find_query(s, a + 1);
    let w = word_start(s, n - 1);
    let t = space_start(s, w - 5);
    if a < n && s[a] == '<' && q < n && q > a + 1 && n >= 1 && s[n - 1] == '"' && w < n - 1
        && w >= 5 && s.subrange(w - 5, w) == rel_prefix() && t >= 2 && s[t - 2] == '>' && s[t
        - 1] == ';' && q + 1 < t - 2 && (forall|k: int| q + 1 <= k < t - 2 ==> s[k] != '\n') {
        Some((s.subrange(w, n - 1), s.subrange(q + 1, t - 2)))
    } else {
        None
    }
}

/// A Link header: a relation and the query parameters of its target.
#[derive(Clone, Debug)]
pub struct Link {
    pub rel: String,
    pub params: String,
}

fn skip_space_exec(s: &str, n: usize, i: usize) -> (r: usize)
    requires
        n == s@.len(),
        i <= n,
    ensures
        r == skip_space(s@, i as int),
        r <= n,
{
    let mut k = i;
    while k < n
        invariant
            n == s@.len(),
            i <= k <= n,
            skip_space(s@, k as int) == skip_space(s@, i as int),
        decreases n - k,
    {
        let c = s.get_char(k);
        if !(c == ' ' || c == '\t' || c == '\n' || c == '\r' || c == '\x0B' || c == '\x0C') {
            return k;
        }
        k = k + 1;
    }
    k
}

fn find_query_exec(s: &str, n: usize, i: usize) -> (r: usize)
    requires
        n == s@.len(),
        i <= n,
    ensures
        r == find_query(s@, i as int),
        r <= n,
{
    let mut k = i;
    while k < n
        invariant
            n == s@.len(),
            i <= k <= n,
            find_query(s@, k as int) == find_query(s@, i as int),
        decreases n - k,
    {
        if s.get_char(k) == '?' {
            return k;
        }
        k = k + 1;
    }
    k
}

fn word_start_exec(s: &str, n: usize, j: usize) -> (r: usize)
    requires
        n == s@.len(),
        j <= n,
    ensures
        r == word_start(s@, j as int),
        r <= j,
{
    let mut k = j;
    while k > 0
        invariant
            n == s@.len(),
            k <= j <= n,
            word_start(s@, k as int) == word_start(s@, j as int),
        decreases k,
    {
        let c = s.get_char(k - 1);
        if !(('a' <= c && c <= 'z') || ('A' <= c && c <= 'Z') || ('0' <= c && c <= '9') || c == '_') {
            return k;
        }
        k = k - 1;
    }
    k
}

fn space_start_exec(s: &str, n: usize, j: usize) -> (r: usize)
    requires
        n == s@.len(),
        j <= n,
    ensures
        r == space_start(s@, j as int),
        r <= j,
{
    let mut k = j;
    while k > 0
        invariant
            n == s@.len(),
            k <= j <= n,
            space_start(s@, k as int) == space_start(s@, j as int),
        decreases k,
    {
        let c = s.get_char(k - 1);
        if !(c == ' ' || c == '\t' || c == '\n' || c == '\r' || c == '\x0B' || c == '\x0C') {
            return k;
        }
        k = k - 1;
    }
    k
}

impl Link {
    /// Parse a Link header of the form `<path?params>; rel="rel"`.
    #[verifier::loop_isolation(false)]
    pub fn try_from(v: &str) -> (r: Result<Link, ErrorInfo>)
        ensures
            match link_parts(v@) {
                Some((rel, params)) => r matches Ok(l) && l.rel@ == rel && l.params@ == params,
                None => r matches Err(e) && e.code == CODE_INVALID_LINK,
            },
    {
        let n = v.unicode_len();
        let a = skip_space_exec(v, n, 0);
        if a >= n || v.get_char(a) != '<' {
            return Err(ErrorInfo::new(CODE_INVALID_LINK, "Invalid Link header"));
        }
        let q = find_query_exec(v, n, a + 1);
        if q >= n || q <= a + 1 || v.get_char(n - 1) != '"' {
            return Err(ErrorInfo::new(CODE_INVALID_LINK, "Invalid Link header"));
        }
        let w = word_start_exec(v, n, n - 1);
        if w >= n - 1 || w < 5 {
            return Err(ErrorInfo::new(CODE_INVALID_LINK, "Invalid Link header"));
        }
        if !(v.get_char(w - 5) == 'r' && v.get_char(w - 4) == 'e' && v.get_char(w - 3) == 'l'
            && v.get_char(w - 2) == '=' && v.get_char(w - 1) == '"') {
            proof {
                assert(v@.subrange(w - 5, w as int)[0] == v@[w - 5]);
                assert(v@.subrange(w - 5, w as int)[1] == v@[w - 4]);
                assert(v@.subrange(w - 5, w as int)[2] == v@[w - 3]);
                assert(v@.subrange(w - 5, w as int)[3] == v@[w - 2]);
                assert(v@.subrange(w - 5, w as int)[4] == v@[w - 1]);
            }
            return Err(ErrorInfo::new(CODE_INVALID_LINK, "Invalid Link header; missing rel"));
        }
        proof {
            assert(v@.subrange(w - 5, w as int) =~= rel_prefix());
        }
        let t = space_start_exec(v, n, w - 5);
        if t < 2 || v.get_char(t - 2) != '>' || v.get_char(t - 1) != ';' || q + 1 >= t - 2 {
            return Err(ErrorInfo::new(CODE_INVALID_LINK, "Invalid Link header; missing params"));
        }
        let mut k = q + 1;
        while k < t - 2
            invariant
                n == v@.len(),
                q + 1 <= k <= t - 2,
                t <= n,
                forall|m: int| q + 1 <= m < k ==> v@[m] != '\n',
            decreases t - 2 - k,
        {
            if v.get_char(k) == '\n' {
                proof {
                    assert(v@[k as int] == '\n');
                    assert(!(forall|m: int| q + 1 <= m < t - 2 ==> v@[m] != '\n'));
                }
                return Err(ErrorInfo::new(CODE_INVALID_LINK, "Invalid Link header; missing params"));
            }
            k = k + 1;
        }
        let rel = String::from_str(v.substring_char(w, n - 1));
        let params = String::from_str(v.substring_char(q + 1, t - 2));
        Ok(Link { rel, params })
    }
}

} // verus!
