//! Pulling a session token out of request headers.

use vstd::prelude::*;

verus! {

/// Code point of a character with ASCII upper-case letters mapped to lower case.
pub open spec fn ascii_lower_code(c: char) -> u32 {
    if 65 <= c as u32 && c as u32 <= 90 {
        (c as u32 + 32) as u32
    } else {
        c as u32
    }
}

/// Two strings are equal up to ASCII case.
pub open spec fn eq_ignore_ascii_case(a: Seq<char>, b: Seq<char>) -> bool {
    &&& a.len() == b.len()
    &&& forall|i: int| 0 <= i < a.len() ==> ascii_lower_code(a[i]) == ascii_lower_code(b[i])
}

/// The Unicode `White_Space` property, as used by `char::is_whitespace`.
pub open spec fn is_white_space(c: char) -> bool {
    let n = c as u32;
    (9 <= n && n <= 13) || n == 32 || n == 0x85 || n == 0xA0 || n == 0x1680 || (0x2000 <= n
        && n <= 0x200A) || n == 0x2028 || n == 0x2029 || n == 0x202F || n == 0x205F || n
        == 0x3000
}

/// `s` without its leading and trailing white space.
pub open spec fn trim(s: Seq<char>) -> Seq<char>
    decreases s.len(),
{
    if s.len() > 0 && is_white_space(s[0]) {
        trim(s.drop_first())
    } else if s.len() > 0 && is_white_space(s.last()) {
        trim(s.drop_last())
    } else {
        s
    }
}

pub open spec fn starts_with(s: Seq<char>, p: Seq<char>) -> bool {
    p.len() <= s.len() && s.take(p.len() as int) == p
}

/// Number of characters before the first `;` of `v` (all of them if there is none).
pub open spec fn segment_len(v: Seq<char>) -> nat
    decreases v.len(),
{
    if v.len() == 0 || v[0] == ';' {
        0
    } else {
        1 + segment_len(v.drop_first())
    }
}

/// The name and `=` that open the session cookie.
pub open spec fn cookie_prefix() -> Seq<char> {
    "better-auth.session_token="@
}

pub open spec fn bearer_prefix() -> Seq<char> {
    "Bearer "@
}

/// The session cookie's value in a `Cookie` header value: the segments
/// between `;` are trimmed, and the first one that opens with the cookie's
/// name gives what follows that name.
pub open spec fn cookie_token(v: Seq<char>) -> Option<Seq<char>>
    decreases v.len(),
{
    let e = segment_len(v);
    let seg = trim(v.take(e as int));
    if starts_with(seg, cookie_prefix()) {
        Some(seg.skip(cookie_prefix().len() as int))
    } else if e >= v.len() {
        None
    } else {
        cookie_token(v.skip(e as int + 1))
    }
}

/// The headers as (name, value) pairs of character sequences.
pub open spec fn headers_view(h: Seq<(String, String)>) -> Seq<(Seq<char>, Seq<char>)> {
    h.map_values(|p: (String, String)| (p.0@, p.1@))
}

/// The token of the first `Cookie` header (any case) that carries the session cookie.
pub open spec fn token_from_cookies(hs: Seq<(Seq<char>, Seq<char>)>) -> Option<Seq<char>>
    decreases hs.len(),
{
    if hs.len() == 0 {
        None
    } else if eq_ignore_ascii_case(hs[0].0, "cookie"@) && cookie_token(hs[0].1) is Some {
        cookie_token(hs[0].1)
    } else {
        token_from_cookies(hs.drop_first())
    }
}

/// The token of the first `Authorization` header (any case) whose value opens with `Bearer `.
pub open spec fn token_from_bearer(hs: Seq<(Seq<char>, Seq<char>)>) -> Option<Seq<char>>
    decreases hs.len(),
{
    if hs.len() == 0 {
        None
    } else if eq_ignore_ascii_case(hs[0].0, "authorization"@) && starts_with(
        hs[0].1,
        bearer_prefix(),
    ) {
        Some(hs[0].1.skip(bearer_prefix().len() as int))
    } else {
        token_from_bearer(hs.drop_first())
    }
}

/// The session token of a header list: a cookie wins over a bearer token,
/// whatever the order of the headers.
pub open spec fn header_token(hs: Seq<(Seq<char>, Seq<char>)>) -> Option<Seq<char>> {
    match token_from_cookies(hs) {
        Some(t) => Some(t),
        None => token_from_bearer(hs),
    }
}

/// A session cookie anywhere among the headers wins over every bearer token;
/// where neither source holds a match there is no token.
pub proof fn lemma_cookie_first(hs: Seq<(Seq<char>, Seq<char>)>)
    ensures
        token_from_cookies(hs) is Some ==> header_token(hs) == token_from_cookies(hs),
        token_from_cookies(hs) is None ==> header_token(hs) == token_from_bearer(hs),
        token_from_cookies(hs) is None && token_from_bearer(hs) is None ==> header_token(hs) is None,
{
}

fn lower_code(c: char) -> (r: u32)
    ensures
        r == ascii_lower_code(c),
{
    let n = c as u32;
    if 65 <= n && n <= 90 {
        n + 32
    } else {
        n
    }
}

/// Whether `a` equals `b` up to ASCII case.
fn equals_ignore_ascii_case(a: &str, b: &str) -> (r: bool)
    ensures
        r == eq_ignore_ascii_case(a@, b@),
{
    let n = a.unicode_len();
    if n != b.unicode_len() {
        return false;
    }
    let mut i: usize = 0;
    while i < n
        invariant
            n == a@.len(),
            n == b@.len(),
            i <= n,
            forall|j: int| 0 <= j < i ==> ascii_lower_code(a@[j]) == ascii_lower_code(b@[j]),
        decreases n - i,
    {
        if lower_code(a.get_char(i)) != lower_code(b.get_char(i)) {
            return false;
        }
        i += 1;
    }
    true
}

/// Whether the characters of `s` from `lo` on open with `p`.
fn has_prefix_at(s: &str, lo: usize, hi: usize, p: &str) -> (r: bool)
    requires
        lo <= hi <= s@.len(),
    ensures
        r == starts_with(s@.subrange(lo as int, hi as int), p@),
{
    let n = p.unicode_len();
    if n > hi - lo {
        return false;
    }
    let ghost sub = s@.subrange(lo as int, hi as int);
    let mut k: usize = 0;
    while k < n
        invariant
            n == p@.len(),
            lo + n <= hi <= s@.len(),
            sub == s@.subrange(lo as int, hi as int),
            k <= n,
            forall|t: int| 0 <= t < k ==> sub[t] == p@[t],
        decreases n - k,
    {
        if s.get_char(lo + k) != p.get_char(k) {
            assert(sub.take(n as int)[k as int] != p@[k as int]);
            return false;
        }
        k += 1;
    }
    assert(sub.take(n as int) =~= p@);
    true
}

fn is_ws(c: char) -> (r: bool)
    ensures
        r == is_white_space(c),
{
    let n = c as u32;
    (9 <= n && n <= 13) || n == 32 || n == 0x85 || n == 0xA0 || n == 0x1680 || (0x2000 <= n
        && n <= 0x200A) || n == 0x2028 || n == 0x2029 || n == 0x202F || n == 0x205F || n
        == 0x3000
}

/// Bounds of `s[lo..hi]` once white space is trimmed from both ends.
fn trim_bounds(s: &str, lo: usize, hi: usize) -> (r: (usize, usize))
    requires
        lo <= hi <= s@.len(),
    ensures
        lo <= r.0 <= r.1 <= hi,
        s@.subrange(r.0 as int, r.1 as int) == trim(s@.subrange(lo as int, hi as int)),
{
    let ghost whole = trim(s@.subrange(lo as int, hi as int));
    let mut a = lo;
    while a < hi && is_ws(s.get_char(a))
        invariant
            lo <= a <= hi <= s@.len(),
            whole == trim(s@.subrange(lo as int, hi as int)),
            whole == trim(s@.subrange(a as int, hi as int)),
        decreases hi - a,
    {
        assert(s@.subrange(a as int, hi as int).drop_first() =~= s@.subrange(a + 1, hi as int));
        a += 1;
    }
    let mut b = hi;
    while b > a && is_ws(s.get_char(b - 1))
        invariant
            lo <= a <= b <= hi <= s@.len(),
            whole == trim(s@.subrange(lo as int, hi as int)),
            whole == trim(s@.subrange(a as int, b as int)),
            a < b ==> !is_white_space(s@[a as int]),
        decreases b - a,
    {
        let ghost sub = s@.subrange(a as int, b as int);
        assert(sub[0] == s@[a as int]);
        assert(sub.drop_last() =~= s@.subrange(a as int, b - 1));
        b -= 1;
    }
    let ghost sub = s@.subrange(a as int, b as int);
    if a < b {
        assert(sub[0] == s@[a as int]);
        assert(sub.last() == s@[b - 1]);
    }
    assert(trim(sub) == sub);
    (a, b)
}

proof fn lemma_segment_len(s: Seq<char>, n: int)
    requires
        0 <= n <= s.len(),
        forall|k: int| 0 <= k < n ==> s[k] != ';',
        n == s.len() || s[n] == ';',
    ensures
        segment_len(s) == n,
    decreases n,
{
    if n > 0 {
        assert(s[0] != ';');
        lemma_segment_len(s.drop_first(), n - 1);
    }
}

/// The character sequence of an optional string.
pub open spec fn opt_view(r: Option<String>) -> Option<Seq<char>> {
    match r {
        Some(t) => Some(t@),
        None => None,
    }
}

/// The session cookie's value in the value of a `Cookie` header, if it has one.
pub fn cookie_value(v: &str) -> (r: Option<String>)
    ensures
        opt_view(r) == cookie_token(v@),
{
    let n = v.unicode_len();
    let p = "better-auth.session_token=";
    let plen = p.unicode_len();
    let mut i: usize = 0;
    assert(v@.skip(0) =~= v@);
    loop
        invariant
            i <= n,
            n == v@.len(),
            plen == cookie_prefix().len(),
            p@ == cookie_prefix(),
            cookie_token(v@) == cookie_token(v@.skip(i as int)),
        decreases n - i,
    {
        let mut j = i;
        while j < n && v.get_char(j) != ';'
            invariant
                i <= j <= n,
                n == v@.len(),
                forall|k: int| i <= k < j ==> v@[k] != ';',
            decreases n - j,
        {
            j += 1;
        }
        let ghost rest = v@.skip(i as int);
        proof {
            lemma_segment_len(rest, j - i);
            assert(rest.take(j - i) =~= v@.subrange(i as int, j as int));
        }
        let (a, b) = trim_bounds(v, i, j);
        if has_prefix_at(v, a, b, p) {
            let t = v.substring_char(a + plen, b);
            assert(v@.subrange(a as int, b as int).skip(plen as int) =~= t@);
            return Some(String::from_str(t));
        }
        if j >= n {
            return None;
        }
        assert(rest.skip(j - i + 1) =~= v@.skip(j + 1));
        i = j + 1;
    }
}

/// The session token carried by `headers`: the session cookie of the first
/// `Cookie` header that has one, else the rest of the first `Authorization`
/// header that opens with `Bearer `, else nothing. Header names are matched
/// without regard to ASCII case.
pub fn extract_token(headers: &[(String, String)]) -> (r: Option<String>)
    ensures
        opt_view(r) == header_token(headers_view(headers@)),
{
    let ghost hv = headers_view(headers@);
    let mut i: usize = 0;
    assert(hv.skip(0) =~= hv);
    while i < headers.len()
        invariant
            i <= headers@.len(),
            hv == headers_view(headers@),
            token_from_cookies(hv) == token_from_cookies(hv.skip(i as int)),
        decreases headers@.len() - i,
    {
        let k = headers[i].0.as_str();
        let v = headers[i].1.as_str();
        assert(hv.skip(i as int)[0] == (k@, v@));
        if equals_ignore_ascii_case(k, "cookie") {
            let c = cookie_value(v);
            if c.is_some() {
                return c;
            }
        }
        assert(hv.skip(i as int).drop_first() =~= hv.skip(i + 1));
        i += 1;
    }
    assert(hv.skip(i as int).len() == 0);
    let mut i: usize = 0;
    assert(hv.skip(0) =~= hv);
    while i < headers.len()
        invariant
            i <= headers@.len(),
            hv == headers_view(headers@),
            token_from_cookies(hv) is None,
            token_from_bearer(hv) == token_from_bearer(hv.skip(i as int)),
        decreases headers@.len() - i,
    {
        let k = headers[i].0.as_str();
        let v = headers[i].1.as_str();
        assert(hv.skip(i as int)[0] == (k@, v@));
        if equals_ignore_ascii_case(k, "authorization") {
            let len = v.unicode_len();
            let p = "Bearer ";
            assert(v@.subrange(0, len as int) =~= v@);
            if has_prefix_at(v, 0, len, p) {
                let plen = p.unicode_len();
                let t = v.substring_char(plen, len);
                assert(v@.skip(plen as int) =~= t@);
                return Some(String::from_str(t));
            }
        }
        assert(hv.skip(i as int).drop_first() =~= hv.skip(i + 1));
        i += 1;
    }
    assert(hv.skip(i as int).len() == 0);
    None
}

} // verus!
