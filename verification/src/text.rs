//! Text helpers on `char` sequences: Unicode whitespace, trimming, and the
//! trailing-slash normalisation applied to endpoint URLs.

use vstd::prelude::*;

verus! {

/// The Unicode `White_Space` property, which is what `char::is_whitespace`
/// and `str::trim` go by.
pub open spec fn is_whitespace(c: char) -> bool {
    ||| ('\u{9}' <= c && c <= '\u{d}')
    ||| c == ' '
    ||| c == '\u{85}'
    ||| c == '\u{a0}'
    ||| c == '\u{1680}'
    ||| ('\u{2000}' <= c && c <= '\u{200a}')
    ||| c == '\u{2028}'
    ||| c == '\u{2029}'
    ||| c == '\u{202f}'
    ||| c == '\u{205f}'
    ||| c == '\u{3000}'
}

/// `s` without its leading whitespace.
pub open spec fn trim_start(s: Seq<char>) -> Seq<char>
    decreases s.len(),
{
    if s.len() > 0 && is_whitespace(s[0]) {
        trim_start(s.drop_first())
    } else {
        s
    }
}

/// `s` without its trailing whitespace.
pub open spec fn trim_end(s: Seq<char>) -> Seq<char>
    decreases s.len(),
{
    if s.len() > 0 && is_whitespace(s.last()) {
        trim_end(s.drop_last())
    } else {
        s
    }
}

/// `s` without leading and trailing whitespace (what `str::trim` returns).
pub open spec fn trim(s: Seq<char>) -> Seq<char> {
    trim_end(trim_start(s))
}

/// `s` without any run of `'/'` at its end (what `trim_end_matches('/')` returns).
pub open spec fn strip_trailing_slashes(s: Seq<char>) -> Seq<char>
    decreases s.len(),
{
    if s.len() > 0 && s.last() == '/' {
        strip_trailing_slashes(s.drop_last())
    } else {
        s
    }
}

/// The stored form of an endpoint URL: trimmed, then stripped of trailing slashes.
pub open spec fn normalize_url(s: Seq<char>) -> Seq<char> {
    strip_trailing_slashes(trim(s))
}

/// Whether `c` is Unicode whitespace.
pub fn is_whitespace_char(c: char) -> (r: bool)
    ensures
        r == is_whitespace(c),
{
    ('\u{9}' <= c && c <= '\u{d}') || c == ' ' || c == '\u{85}' || c == '\u{a0}' || c
        == '\u{1680}' || ('\u{2000}' <= c && c <= '\u{200a}') || c == '\u{2028}' || c
        == '\u{2029}' || c == '\u{202f}' || c == '\u{205f}' || c == '\u{3000}'
}

/// A copy of `s` without leading and trailing whitespace.
pub fn trim_str(s: &str) -> (r: String)
    ensures
        r@ == trim(s@),
{
    let n = s.unicode_len();
    let mut i: usize = 0;
    assert(s@.subrange(0, n as int) =~= s@);
    while i < n && is_whitespace_char(s.get_char(i))
        invariant
            i <= n,
            n == s@.len(),
            trim_start(s@) == trim_start(s@.subrange(i as int, n as int)),
        decreases n - i,
    {
        assert(s@.subrange(i as int, n as int).drop_first() =~= s@.subrange(i + 1, n as int));
        i = i + 1;
    }
    assert(trim_start(s@) == s@.subrange(i as int, n as int));
    let mut j: usize = n;
    while j > i && is_whitespace_char(s.get_char(j - 1))
        invariant
            i <= j <= n,
            n == s@.len(),
            trim_start(s@) == s@.subrange(i as int, n as int),
            trim(s@) == trim_end(s@.subrange(i as int, j as int)),
        decreases j - i,
    {
        assert(s@.subrange(i as int, j as int).drop_last() =~= s@.subrange(i as int, j - 1));
        j = j - 1;
    }
    assert(trim(s@) == s@.subrange(i as int, j as int));
    let sub = s.substring_char(i, j);
    String::from_str(sub)
}

/// A copy of `s` without any run of `'/'` at its end.
pub fn strip_trailing_slashes_str(s: &str) -> (r: String)
    ensures
        r@ == strip_trailing_slashes(s@),
{
    let n = s.unicode_len();
    let mut j: usize = n;
    assert(s@.subrange(0, n as int) =~= s@);
    while j > 0 && s.get_char(j - 1) == '/'
        invariant
            j <= n,
            n == s@.len(),
            strip_trailing_slashes(s@) == strip_trailing_slashes(s@.subrange(0, j as int)),
        decreases j,
    {
        assert(s@.subrange(0, j as int).drop_last() =~= s@.subrange(0, j - 1));
        j = j - 1;
    }
    let sub = s.substring_char(0, j);
    String::from_str(sub)
}

/// The stored form of an endpoint URL: `s.trim().trim_end_matches('/')`.
/// The result never ends with `'/'`.
pub fn normalize_url_str(s: &str) -> (r: String)
    ensures
        r@ == normalize_url(s@),
        r@.len() == 0 || r@.last() != '/',
{
    let t = trim_str(s);
    proof {
        lemma_stripped_has_no_trailing_slash(t@);
    }
    strip_trailing_slashes_str(t.as_str())
}

/// Whether two texts are equal, character by character.
pub fn same_text(a: &str, b: &str) -> (r: bool)
    ensures
        r == (a@ == b@),
{
    let n = a.unicode_len();
    let m = b.unicode_len();
    if n != m {
        return false;
    }
    let mut i: usize = 0;
    while i < n
        invariant
            i <= n,
            n == a@.len(),
            m == b@.len(),
            n == m,
            forall|k: int| 0 <= k < i ==> a@[k] == b@[k],
        decreases n - i,
    {
        if a.get_char(i) != b.get_char(i) {
            return false;
        }
        i = i + 1;
    }
    assert(a@ =~= b@);
    true
}

/// Whether the trimmed form of `s` is empty, i.e. `s.trim().is_empty()`.
pub fn is_blank(s: &str) -> (r: bool)
    ensures
        r == (trim(s@).len() == 0),
{
    let t = trim_str(s);
    t.as_str().unicode_len() == 0
}

/// Stripping trailing slashes leaves a text that is empty or does not end with `'/'`.
pub proof fn lemma_stripped_has_no_trailing_slash(s: Seq<char>)
    ensures
        strip_trailing_slashes(s).len() == 0 || strip_trailing_slashes(s).last() != '/',
    decreases s.len(),
{
    if s.len() > 0 && s.last() == '/' {
        lemma_stripped_has_no_trailing_slash(s.drop_last());
    }
}

/// The leading-whitespace-free part of `s` is empty exactly when `s` is all whitespace.
pub proof fn lemma_trim_start_empty(s: Seq<char>)
    ensures
        (trim_start(s).len() == 0) <==> (forall|i: int| 0 <= i < s.len() ==> is_whitespace(#[trigger] s[i])),
        trim_start(s).len() > 0 ==> !is_whitespace(trim_start(s)[0]),
    decreases s.len(),
{
    if s.len() > 0 && is_whitespace(s[0]) {
        let t = s.drop_first();
        lemma_trim_start_empty(t);
        if trim_start(s).len() == 0 {
            assert forall|i: int| 0 <= i < s.len() implies is_whitespace(#[trigger] s[i]) by {
                if i > 0 {
                    assert(s[i] == t[i - 1]);
                }
            }
        }
        if forall|i: int| 0 <= i < s.len() ==> is_whitespace(#[trigger] s[i]) {
            assert forall|i: int| 0 <= i < t.len() implies is_whitespace(#[trigger] t[i]) by {
                assert(t[i] == s[i + 1]);
            }
        }
    } else if s.len() > 0 {
        assert(!is_whitespace(s[0]));
    }
}

/// Trimming the end of a text that starts with a non-whitespace character leaves it non-empty.
pub proof fn lemma_trim_end_keeps_nonblank_start(s: Seq<char>)
    requires
        s.len() > 0,
        !is_whitespace(s[0]),
    ensures
        trim_end(s).len() > 0,
    decreases s.len(),
{
    if is_whitespace(s.last()) {
        assert(s.len() > 1);
        assert(s.drop_last()[0] == s[0]);
        lemma_trim_end_keeps_nonblank_start(s.drop_last());
    }
}

/// A text trims to nothing exactly when it is all whitespace.
pub proof fn lemma_trim_empty_iff_blank(s: Seq<char>)
    ensures
        (trim(s).len() == 0) <==> (forall|i: int| 0 <= i < s.len() ==> is_whitespace(#[trigger] s[i])),
{
    lemma_trim_start_empty(s);
    if trim_start(s).len() > 0 {
        lemma_trim_end_keeps_nonblank_start(trim_start(s));
    }
}

/// Where `trim_start` cuts: `trim_start(s)` is `s` from that index on, all before
/// it is whitespace, and the character there (if any) is not.
pub proof fn lemma_trim_start_cut(s: Seq<char>) -> (i: int)
    ensures
        0 <= i <= s.len(),
        trim_start(s) == s.subrange(i, s.len() as int),
        forall|m: int| 0 <= m < i ==> is_whitespace(#[trigger] s[m]),
        i < s.len() ==> !is_whitespace(s[i]),
    decreases s.len(),
{
    if s.len() > 0 && is_whitespace(s[0]) {
        let t = s.drop_first();
        let j = lemma_trim_start_cut(t);
        assert(t.subrange(j, t.len() as int) =~= s.subrange(j + 1, s.len() as int));
        assert forall|m: int| 0 <= m < j + 1 implies is_whitespace(#[trigger] s[m]) by {
            if m > 0 {
                assert(s[m] == t[m - 1]);
            }
        }
        j + 1
    } else {
        assert(s.subrange(0, s.len() as int) =~= s);
        0
    }
}

/// Where `trim_end` cuts: `trim_end(s)` is `s` up to that index, all after it
/// is whitespace, and the character before it (if any) is not.
pub proof fn lemma_trim_end_cut(s: Seq<char>) -> (k: int)
    ensures
        0 <= k <= s.len(),
        trim_end(s) == s.subrange(0, k),
        forall|m: int| k <= m < s.len() ==> is_whitespace(#[trigger] s[m]),
        k > 0 ==> !is_whitespace(s[k - 1]),
    decreases s.len(),
{
    if s.len() > 0 && is_whitespace(s.last()) {
        let t = s.drop_last();
        let j = lemma_trim_end_cut(t);
        assert(t.subrange(0, j) =~= s.subrange(0, j));
        assert forall|m: int| j <= m < s.len() implies is_whitespace(#[trigger] s[m]) by {
            if m < s.len() - 1 {
                assert(s[m] == t[m]);
            }
        }
        j
    } else {
        assert(s.subrange(0, s.len() as int) =~= s);
        s.len() as int
    }
}

/// Where `strip_trailing_slashes` cuts: the result is `s` up to that index,
/// all after it is `'/'`, and the character before it (if any) is not.
pub proof fn lemma_strip_cut(s: Seq<char>) -> (j: int)
    ensures
        0 <= j <= s.len(),
        strip_trailing_slashes(s) == s.subrange(0, j),
        forall|m: int| j <= m < s.len() ==> #[trigger] s[m] == '/',
        j > 0 ==> s[j - 1] != '/',
    decreases s.len(),
{
    if s.len() > 0 && s.last() == '/' {
        let t = s.drop_last();
        let k = lemma_strip_cut(t);
        assert(t.subrange(0, k) =~= s.subrange(0, k));
        assert forall|m: int| k <= m < s.len() implies #[trigger] s[m] == '/' by {
            if m < s.len() - 1 {
                assert(s[m] == t[m]);
            }
        }
        k
    } else {
        assert(s.subrange(0, s.len() as int) =~= s);
        s.len() as int
    }
}

/// The stored form of an endpoint, character by character: for some
/// `i <= j <= k`, it is `u[i..j]`, where `u[..i]` and `u[k..]` are whitespace,
/// `u[j..k]` is slashes, the kept text `u[i..k]` neither starts nor ends with
/// whitespace, and `u[i..j]` does not end with a slash.
pub proof fn law_normalized_url_shape(u: Seq<char>)
    ensures
        exists|i: int, j: int, k: int|
            #![trigger u.subrange(i, j), u.subrange(i, k)]
            {
                &&& 0 <= i <= j <= k <= u.len()
                &&& normalize_url(u) == u.subrange(i, j)
                &&& forall|m: int| 0 <= m < i ==> is_whitespace(#[trigger] u[m])
                &&& forall|m: int| k <= m < u.len() ==> is_whitespace(#[trigger] u[m])
                &&& forall|m: int| j <= m < k ==> #[trigger] u[m] == '/'
                &&& (i < k ==> !is_whitespace(u[i]) && !is_whitespace(u[k - 1]))
                &&& (i < j ==> u[j - 1] != '/')
            },
{
    let i = lemma_trim_start_cut(u);
    let a = u.subrange(i, u.len() as int);
    let k0 = lemma_trim_end_cut(a);
    let t = a.subrange(0, k0);
    let j0 = lemma_strip_cut(t);
    let k = i + k0;
    let j = i + j0;
    assert(t =~= u.subrange(i, k));
    assert(t.subrange(0, j0) =~= u.subrange(i, j));
    assert forall|m: int| k <= m < u.len() implies is_whitespace(#[trigger] u[m]) by {
        assert(u[m] == a[m - i]);
    }
    assert forall|m: int| j <= m < k implies #[trigger] u[m] == '/' by {
        assert(u[m] == t[m - i]);
    }
    if i < k {
        assert(u[k - 1] == a[k0 - 1]);
    }
    if i < j {
        assert(u[j - 1] == t[j0 - 1]);
    }
    assert(u.subrange(i, k) == u.subrange(i, k));
}

} // verus!
