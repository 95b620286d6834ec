//! Character-level text model: Unicode whitespace, substring search, trimming.

use vstd::prelude::*;

verus! {

broadcast use vstd::string::group_string_axioms;

/// Unicode `White_Space` property, the set that `char::is_whitespace` tests.
pub open spec fn is_ws(c: char) -> bool {
    ||| ('\u{9}' <= c && c <= '\u{d}')
    ||| c == ' '
    ||| c == '\u{85}'
    ||| c == '\u{a0}'
    ||| c == '\u{1680}'
    ||| ('\u{2000}' <= c && c <= '\u{200a}')
    ||| c == '\u{2028}'
    ||| c == '\u{2029}'
    ||| c == '\u{202f}'
    ||| c == '\u{205f}'
    ||| c == '\u{3000}'
}

/// Whether `c` is Unicode whitespace.
pub fn is_whitespace_char(c: char) -> (b: bool)
    ensures
        b == is_ws(c),
{
    ('\u{9}' <= c && c <= '\u{d}') || c == ' ' || c == '\u{85}' || c == '\u{a0}' || c
        == '\u{1680}' || ('\u{2000}' <= c && c <= '\u{200a}') || c == '\u{2028}' || c
        == '\u{2029}' || c == '\u{202f}' || c == '\u{205f}' || c == '\u{3000}'
}

/// The characters of `s`, in order.
pub fn chars_of(s: &str) -> (v: Vec<char>)
    ensures
        v@ == s@,
{
    let mut v: Vec<char> = Vec::new();
    for c in it: s.chars()
        invariant
            v@ == it.seq().take(it.index() as int),
            it.seq() == s@,
    {
        v.push(c);
    }
    v
}


/// `k` occurs in `s` starting at position `i`.
pub open spec fn occurs_at(s: Seq<char>, k: Seq<char>, i: int) -> bool {
    0 <= i && i + k.len() <= s.len() && s.subrange(i, i + k.len()) == k
}

/// `k` occurs somewhere in `s` as a contiguous run (the empty text occurs everywhere).
pub open spec fn seq_contains(s: Seq<char>, k: Seq<char>) -> bool {
    exists|i: int| occurs_at(s, k, i)
}

/// `p` is a prefix of `s`.
pub open spec fn seq_starts_with(s: Seq<char>, p: Seq<char>) -> bool {
    p.len() <= s.len() && s.subrange(0, p.len() as int) == p
}

/// Whether the run `k` occurs in `s`.
pub fn contains_chars(s: &Vec<char>, k: &Vec<char>) -> (b: bool)
    ensures
        b == seq_contains(s@, k@),
{
    let n = s.len();
    let m = k.len();
    if m > n {
        proof {
            assert forall|i: int| !occurs_at(s@, k@, i) by {}
        }
        return false;
    }
    if m == 0 {
        proof {
            assert(s@.subrange(0, 0) =~= k@);
            assert(occurs_at(s@, k@, 0));
        }
        return true;
    }
    let mut i: usize = 0;
    while i <= n - m
        invariant
            n == s@.len(),
            m == k@.len(),
            1 <= m <= n,
            i <= n - m + 1,
            forall|j: int| 0 <= j < i ==> !occurs_at(s@, k@, j),
        decreases n - m + 1 - i,
    {
        let mut t: usize = 0;
        let mut same = true;
        while t < m
            invariant
                n == s@.len(),
                m == k@.len(),
                i + m <= n,
                t <= m,
                same ==> forall|u: int| 0 <= u < t ==> s@[i + u] == k@[u],
                !same ==> !occurs_at(s@, k@, i as int),
            decreases m - t,
        {
            if same && s[i + t] != k[t] {
                same = false;
                proof {
                    let sub = s@.subrange(i as int, i + m);
                    assert(sub[t as int] == s@[i + t]);
                }
            }
            t = t + 1;
        }
        if same {
            proof {
                assert(s@.subrange(i as int, i + m) =~= k@);
                assert(occurs_at(s@, k@, i as int));
            }
            return true;
        }
        i = i + 1;
    }
    proof {
        assert forall|j: int| !occurs_at(s@, k@, j) by {
            if 0 <= j && j + m <= n {
                assert(j < i);
            }
        }
    }
    false
}

/// Whether `keyword` occurs in `line`, as `str::contains` answers it.
pub fn str_contains(line: &str, keyword: &str) -> (b: bool)
    ensures
        b == seq_contains(line@, keyword@),
{
    let s = chars_of(line);
    let k = chars_of(keyword);
    contains_chars(&s, &k)
}


/// `s` without its leading whitespace (`str::trim_start`).
pub open spec fn trimmed_start(s: Seq<char>) -> Seq<char>
    decreases s.len(),
{
    if s.len() > 0 && is_ws(s[0]) {
        trimmed_start(s.drop_first())
    } else {
        s
    }
}

/// `s` without its trailing whitespace (`str::trim_end`).
pub open spec fn trimmed_end(s: Seq<char>) -> Seq<char>
    decreases s.len(),
{
    if s.len() > 0 && is_ws(s.last()) {
        trimmed_end(s.drop_last())
    } else {
        s
    }
}

/// `s` without leading and trailing whitespace (`str::trim`).
pub open spec fn trimmed(s: Seq<char>) -> Seq<char> {
    trimmed_end(trimmed_start(s))
}

/// Every character of `s` is whitespace.
pub open spec fn is_blank(s: Seq<char>) -> bool {
    forall|i: int| 0 <= i < s.len() ==> is_ws(#[trigger] s[i])
}

/// Index of the first character of `v` at or after which no leading whitespace remains.
fn first_non_ws(v: &Vec<char>) -> (i: usize)
    ensures
        i <= v@.len(),
        trimmed_start(v@) == v@.subrange(i as int, v@.len() as int),
{
    let n = v.len();
    let mut i: usize = 0;
    proof {
        assert(v@.subrange(0, n as int) =~= v@);
    }
    while i < n && is_whitespace_char(v[i])
        invariant
            n == v@.len(),
            i <= n,
            trimmed_start(v@) == trimmed_start(v@.subrange(i as int, n as int)),
        decreases n - i,
    {
        proof {
            let t = v@.subrange(i as int, n as int);
            assert(t.drop_first() =~= v@.subrange(i + 1, n as int));
        }
        i = i + 1;
    }
    i
}

/// End (exclusive) of `v[from..]` once its trailing whitespace is removed.
fn last_non_ws(v: &Vec<char>, from: usize) -> (j: usize)
    requires
        from <= v@.len(),
    ensures
        from <= j <= v@.len(),
        trimmed_end(v@.subrange(from as int, v@.len() as int)) == v@.subrange(from as int, j as int),
{
    let n = v.len();
    let mut j: usize = n;
    while j > from && is_whitespace_char(v[j - 1])
        invariant
            n == v@.len(),
            from <= j <= n,
            trimmed_end(v@.subrange(from as int, n as int)) == trimmed_end(
                v@.subrange(from as int, j as int),
            ),
        decreases j,
    {
        proof {
            let t = v@.subrange(from as int, j as int);
            assert(t.drop_last() =~= v@.subrange(from as int, j - 1));
        }
        j = j - 1;
    }
    j
}

/// `s` without trailing whitespace, as `str::trim_end` gives it.
pub fn trim_end_str(s: &str) -> (r: String)
    ensures
        r@ == trimmed_end(s@),
{
    let v = chars_of(s);
    let j = last_non_ws(&v, 0);
    proof {
        assert(v@.subrange(0, v@.len() as int) =~= v@);
    }
    String::from_str(s.substring_char(0, j))
}

/// `s` without leading and trailing whitespace, as `str::trim` gives it.
pub fn trim_str(s: &str) -> (r: String)
    ensures
        r@ == trimmed(s@),
{
    let v = chars_of(s);
    let i = first_non_ws(&v);
    let j = last_non_ws(&v, i);
    String::from_str(s.substring_char(i, j))
}

/// `s` starts with `p`.
pub fn str_starts_with(s: &str, p: &str) -> (b: bool)
    ensures
        b == seq_starts_with(s@, p@),
{
    let v = chars_of(s);
    let w = chars_of(p);
    if w.len() > v.len() {
        return false;
    }
    let mut t: usize = 0;
    while t < w.len()
        invariant
            v@ == s@,
            w@ == p@,
            w@.len() <= v@.len(),
            t <= w@.len(),
            forall|u: int| 0 <= u < t ==> v@[u] == w@[u],
        decreases w@.len() - t,
    {
        if v[t] != w[t] {
            proof {
                assert(v@.subrange(0, w@.len() as int)[t as int] != w@[t as int]);
            }
            return false;
        }
        t = t + 1;
    }
    proof {
        assert(v@.subrange(0, w@.len() as int) =~= w@);
    }
    true
}


/// `trimmed_end(s)` is the prefix of `s` that stops before a run of trailing whitespace,
/// and it does not itself end in whitespace.
pub proof fn lemma_trimmed_end_shape(s: Seq<char>)
    ensures
        trimmed_end(s).len() <= s.len(),
        trimmed_end(s) == s.subrange(0, trimmed_end(s).len() as int),
        is_blank(s.subrange(trimmed_end(s).len() as int, s.len() as int)),
        trimmed_end(s).len() == 0 || !is_ws(trimmed_end(s).last()),
    decreases s.len(),
{
    if s.len() > 0 && is_ws(s.last()) {
        let d = s.drop_last();
        lemma_trimmed_end_shape(d);
        let k = trimmed_end(d).len() as int;
        assert(d.subrange(0, k) =~= s.subrange(0, k));
        assert forall|i: int| 0 <= i < s.subrange(k, s.len() as int).len() implies is_ws(
            #[trigger] s.subrange(k, s.len() as int)[i],
        ) by {
            if k + i < d.len() {
                assert(s.subrange(k, s.len() as int)[i] == d.subrange(k, d.len() as int)[i]);
            }
        }
    } else {
        assert(s.subrange(0, s.len() as int) =~= s);
    }
}

/// `trimmed_start(s)` is the suffix of `s` after a run of leading whitespace,
/// and it does not itself start with whitespace.
pub proof fn lemma_trimmed_start_shape(s: Seq<char>)
    ensures
        trimmed_start(s).len() <= s.len(),
        trimmed_start(s) == s.subrange(s.len() - trimmed_start(s).len(), s.len() as int),
        is_blank(s.subrange(0, s.len() - trimmed_start(s).len())),
        trimmed_start(s).len() == 0 || !is_ws(trimmed_start(s)[0]),
    decreases s.len(),
{
    if s.len() > 0 && is_ws(s[0]) {
        let d = s.drop_first();
        lemma_trimmed_start_shape(d);
        let k = s.len() - trimmed_start(d).len();
        assert(d.subrange(d.len() - trimmed_start(d).len(), d.len() as int) =~= s.subrange(
            k,
            s.len() as int,
        ));
        assert forall|i: int| 0 <= i < s.subrange(0, k).len() implies is_ws(
            #[trigger] s.subrange(0, k)[i],
        ) by {
            if i > 0 {
                assert(s.subrange(0, k)[i] == d.subrange(0, k - 1)[i - 1]);
            }
        }
    } else {
        assert(s.subrange(0, s.len() as int) =~= s);
        assert(s.subrange(0, 0).len() == 0);
    }
}

/// A text that neither starts nor ends with whitespace is left alone by trimming.
pub proof fn lemma_trimmed_fixed(s: Seq<char>)
    requires
        s.len() == 0 || (!is_ws(s[0]) && !is_ws(s.last())),
    ensures
        trimmed(s) == s,
{
}

/// Trimming twice is trimming once.
pub proof fn law_trim_idempotent(s: Seq<char>)
    ensures
        trimmed(trimmed(s)) == trimmed(s),
{
    let a = trimmed_start(s);
    lemma_trimmed_start_shape(s);
    lemma_trimmed_end_shape(a);
    let t = trimmed_end(a);
    if t.len() > 0 {
        assert(t[0] == a[0]);
    }
    lemma_trimmed_fixed(t);
}

/// Trimming the end twice is trimming it once.
pub proof fn law_trim_end_idempotent(s: Seq<char>)
    ensures
        trimmed_end(trimmed_end(s)) == trimmed_end(s),
{
    lemma_trimmed_end_shape(s);
}

/// Whitespace added at the end of a text is removed again by `trim_end`: the end-trimmed
/// text does not depend on trailing whitespace.
pub proof fn law_trim_end_ignores_trailing_whitespace(s: Seq<char>, ws: Seq<char>)
    requires
        is_blank(ws),
    ensures
        trimmed_end(s + ws) == trimmed_end(s),
    decreases ws.len(),
{
    if ws.len() == 0 {
        assert(s + ws =~= s);
    } else {
        let t = s + ws;
        assert(t.last() == ws.last());
        assert(is_ws(ws[ws.len() - 1]));
        assert(t.drop_last() =~= s + ws.drop_last());
        assert(is_blank(ws.drop_last())) by {
            assert forall|i: int| 0 <= i < ws.drop_last().len() implies is_ws(
                #[trigger] ws.drop_last()[i],
            ) by {
                assert(ws.drop_last()[i] == ws[i]);
            }
        }
        law_trim_end_ignores_trailing_whitespace(s, ws.drop_last());
    }
}

/// A text trims to nothing exactly when all of it is whitespace.
pub proof fn law_trim_empty_iff_blank(s: Seq<char>)
    ensures
        trimmed(s).len() == 0 <==> is_blank(s),
{
    let a = trimmed_start(s);
    lemma_trimmed_start_shape(s);
    lemma_trimmed_end_shape(a);
    let k = s.len() - a.len();
    if trimmed(s).len() == 0 {
        assert forall|i: int| 0 <= i < s.len() implies is_ws(#[trigger] s[i]) by {
            if i < k {
                assert(s.subrange(0, k)[i] == s[i]);
            } else {
                assert(a.subrange(0, a.len() as int)[i - k] == s[i]);
            }
        }
    }
    if is_blank(s) && a.len() > 0 {
        assert(a[0] == s[k]);
    }
}


/// What `str::to_lowercase` returns for `s` (the Unicode lowercase mapping).
pub uninterp spec fn lowercased(s: Seq<char>) -> Seq<char>;

/// What `str::to_uppercase` returns for `s` (the Unicode uppercase mapping).
pub uninterp spec fn uppercased(s: Seq<char>) -> Seq<char>;

/// Calls `str::to_lowercase`; its result is named, not stated, since Unicode case
/// mapping (one character may become several) takes tables to state.
#[verifier::external_body]
pub(crate) fn to_lowercase(s: &str) -> (r: String)
    ensures
        r@ == lowercased(s@),
{
    s.to_lowercase()
}

/// Calls `str::to_uppercase`; its result is named, not stated, for the same reason.
#[verifier::external_body]
pub(crate) fn to_uppercase(s: &str) -> (r: String)
    ensures
        r@ == uppercased(s@),
{
    s.to_uppercase()
}


/// The text an optional string holds.
pub open spec fn opt_view(o: Option<String>) -> Option<Seq<char>> {
    match o {
        Some(s) => Some(s@),
        None => None,
    }
}

/// A copy of an optional string.
pub fn clone_opt_string(o: &Option<String>) -> (r: Option<String>)
    ensures
        r == *o,
{
    match o {
        Some(s) => Some(s.clone()),
        None => None,
    }
}

/// A copy of a list of strings.
pub fn clone_strings(v: &Vec<String>) -> (r: Vec<String>)
    ensures
        r@ == v@,
        r.deep_view() == v.deep_view(),
{
    let r = v.clone();
    proof {
        assert forall|i: int| 0 <= i < r@.len() implies r@[i] == v@[i] by {
            assert(cloned::<String>(v@[i], r@[i]));
        }
        assert(r@ =~= v@);
        assert(r.deep_view() =~= v.deep_view());
    }
    r
}

} // verus!
