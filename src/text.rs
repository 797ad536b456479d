//! Character-level model of text: Unicode whitespace, runs of whitespace or
//! non-whitespace, trimming, and whitespace-delimited tokens.

use vstd::prelude::*;
use vstd::string::*;

verus! {

/// The Unicode `White_Space` property, which is what `char::is_whitespace`
/// tests.
pub open spec fn is_ws(c: char) -> bool {
    ||| ('\t' <= c && c <= '\r')
    ||| c == ' '
    ||| c == '\u{85}'
    ||| c == '\u{a0}'
    ||| c == '\u{1680}'
    ||| ('\u{2000}' <= c && c <= '\u{200a}')
    ||| c == '\u{2028}'
    ||| c == '\u{2029}'
    ||| c == '\u{202f}'
    ||| c == '\u{205f}'
    ||| c == '\u{3000}'
}

/// Whether `c` is Unicode whitespace.
pub fn is_whitespace(c: char) -> (r: bool)
    ensures
        r == is_ws(c),
{
    ('\t' <= c && c <= '\r') || c == ' ' || c == '\u{85}' || c == '\u{a0}' || c == '\u{1680}'
        || ('\u{2000}' <= c && c <= '\u{200a}') || c == '\u{2028}' || c == '\u{2029}' || c
        == '\u{202f}' || c == '\u{205f}' || c == '\u{3000}'
}

/// Length of the longest prefix of `s` whose characters are all whitespace
/// (`ws == true`) or all non-whitespace (`ws == false`).
pub open spec fn run_len(s: Seq<char>, ws: bool) -> nat
    decreases s.len(),
{
    if s.len() > 0 && is_ws(s[0]) == ws {
        1 + run_len(s.drop_first(), ws)
    } else {
        0
    }
}

/// Length of the longest suffix of `s` made of whitespace.
pub open spec fn trail_ws_len(s: Seq<char>) -> nat
    decreases s.len(),
{
    if s.len() > 0 && is_ws(s.last()) {
        1 + trail_ws_len(s.drop_last())
    } else {
        0
    }
}

/// `s` without its leading whitespace.
pub open spec fn trim_start(s: Seq<char>) -> Seq<char> {
    s.skip(run_len(s, true) as int)
}

/// `s` without its trailing whitespace.
pub open spec fn trim_end(s: Seq<char>) -> Seq<char> {
    s.take(s.len() - trail_ws_len(s))
}

/// The first whitespace-delimited token of `s` and the text after it, or
/// `None` when `s` holds nothing but whitespace.
pub open spec fn next_token(s: Seq<char>) -> Option<(Seq<char>, Seq<char>)> {
    let t = trim_start(s);
    if t.len() == 0 {
        None
    } else {
        let w = run_len(t, false) as int;
        Some((t.take(w), t.skip(w)))
    }
}

/// All whitespace-delimited tokens of `s`, in order.
pub open spec fn tokens(s: Seq<char>) -> Seq<Seq<char>>
    decreases s.len(),
{
    match next_token(s) {
        None => seq![],
        Some(p) => {
            proof {
                lemma_next_token(s);
            }
            seq![p.0] + tokens(p.1)
        },
    }
}

/// The tokens of `ts` joined by single spaces.
pub open spec fn join_spaced(ts: Seq<Seq<char>>) -> Seq<char>
    decreases ts.len(),
{
    if ts.len() == 0 {
        seq![]
    } else if ts.len() == 1 {
        ts[0]
    } else {
        ts[0] + seq![' '] + join_spaced(ts.drop_first())
    }
}

/// `s` with every run of whitespace collapsed to one space and no
/// whitespace at either end.
pub open spec fn normalized(s: Seq<char>) -> Seq<char> {
    join_spaced(tokens(s))
}

/// What `run_len` counts: a run of the given kind, ended by the end of `s`
/// or by a character of the other kind.
pub proof fn lemma_run_len(s: Seq<char>, ws: bool)
    ensures
        run_len(s, ws) <= s.len(),
        forall|k: int| 0 <= k < run_len(s, ws) ==> is_ws(#[trigger] s[k]) == ws,
        run_len(s, ws) < s.len() ==> is_ws(s[run_len(s, ws) as int]) != ws,
    decreases s.len(),
{
    if s.len() > 0 && is_ws(s[0]) == ws {
        lemma_run_len(s.drop_first(), ws);
        assert forall|k: int| 0 <= k < run_len(s, ws) implies is_ws(#[trigger] s[k]) == ws by {
            if k > 0 {
                assert(s[k] == s.drop_first()[k - 1]);
            }
        }
    }
}

/// A run of the given kind that ends at `i` has length `i`.
pub proof fn lemma_run_len_at(s: Seq<char>, ws: bool, i: int)
    requires
        0 <= i <= s.len(),
        forall|k: int| 0 <= k < i ==> is_ws(#[trigger] s[k]) == ws,
        i < s.len() ==> is_ws(s[i]) != ws,
    ensures
        run_len(s, ws) == i,
{
    lemma_run_len(s, ws);
    let r = run_len(s, ws) as int;
    if r < i {
        assert(is_ws(s[r]) == ws);
    } else if r > i {
        assert(is_ws(s[i]) == ws);
    }
}

/// What `trail_ws_len` counts.
pub proof fn lemma_trail_ws_len(s: Seq<char>)
    ensures
        trail_ws_len(s) <= s.len(),
        forall|k: int| s.len() - trail_ws_len(s) <= k < s.len() ==> is_ws(#[trigger] s[k]),
        trail_ws_len(s) < s.len() ==> !is_ws(s[s.len() - trail_ws_len(s) - 1]),
    decreases s.len(),
{
    if s.len() > 0 && is_ws(s.last()) {
        lemma_trail_ws_len(s.drop_last());
        assert forall|k: int| s.len() - trail_ws_len(s) <= k < s.len() implies is_ws(
            #[trigger] s[k],
        ) by {
            if k < s.len() - 1 {
                assert(s[k] == s.drop_last()[k]);
            }
        }
        if trail_ws_len(s) < s.len() {
            assert(s[s.len() - trail_ws_len(s) - 1] == s.drop_last()[s.len() - trail_ws_len(s)
                - 1]);
        }
    }
}

/// A whitespace suffix that starts at `i`, after a non-whitespace character
/// or at the start, is the whole trailing whitespace.
pub proof fn lemma_trail_ws_len_at(s: Seq<char>, i: int)
    requires
        0 <= i <= s.len(),
        forall|k: int| i <= k < s.len() ==> is_ws(#[trigger] s[k]),
        i > 0 ==> !is_ws(s[i - 1]),
    ensures
        trail_ws_len(s) == s.len() - i,
{
    lemma_trail_ws_len(s);
    let r = s.len() - trail_ws_len(s);
    if r < i {
        assert(is_ws(s[r]));
        assert(r > 0 ==> !is_ws(s[r - 1]));
        if i - 1 >= r {
            assert(is_ws(s[i - 1]));
        }
    } else if r > i {
        assert(is_ws(s[r - 1]));
    }
}

/// A token is non-empty, holds no whitespace, and what follows it is
/// shorter than the text it came from.
pub proof fn lemma_next_token(s: Seq<char>)
    ensures
        next_token(s) matches Some(p) ==> {
            &&& p.0.len() > 0
            &&& p.1.len() < s.len()
            &&& forall|k: int| 0 <= k < p.0.len() ==> !is_ws(#[trigger] p.0[k])
            &&& p.1.len() > 0 ==> is_ws(p.1[0])
        },
{
    lemma_run_len(s, true);
    let t = trim_start(s);
    if t.len() > 0 {
        lemma_run_len(t, false);
        assert(t[0] == s[run_len(s, true) as int]);
        let w = run_len(t, false) as int;
        assert forall|k: int| 0 <= k < w implies !is_ws(#[trigger] t.take(w)[k]) by {
            assert(t.take(w)[k] == t[k]);
        }
        if w < t.len() {
            assert(t.skip(w)[0] == t[w]);
        }
    }
}

/// Whether `s` begins with `p`.
pub open spec fn has_prefix(s: Seq<char>, p: Seq<char>) -> bool {
    p.len() <= s.len() && s.take(p.len() as int) == p
}

/// Whether `s` begins with `p`, as `str::starts_with` decides it.
pub fn starts_with(s: &str, p: &str) -> (r: bool)
    ensures
        r == has_prefix(s@, p@),
{
    let n = s.unicode_len();
    let m = p.unicode_len();
    if m > n {
        return false;
    }
    let mut i: usize = 0;
    while i < m
        invariant
            n == s@.len(),
            m == p@.len(),
            m <= n,
            i <= m,
            forall|k: int| 0 <= k < i ==> s@[k] == p@[k],
        decreases m - i,
    {
        if s.get_char(i) != p.get_char(i) {
            assert(s@.take(m as int)[i as int] != p@[i as int]);
            return false;
        }
        i = i + 1;
    }
    assert(s@.take(m as int) =~= p@);
    true
}

/// Whether two texts are equal, character by character.
pub fn str_eq(a: &str, b: &str) -> (r: bool)
    ensures
        r == (a@ == b@),
{
    let n = a.unicode_len();
    let m = b.unicode_len();
    if n != m {
        return false;
    }
    let mut i: usize = 0;
    while i < n
        invariant
            n == a@.len(),
            m == b@.len(),
            n == m,
            i <= n,
            forall|k: int| 0 <= k < i ==> a@[k] == b@[k],
        decreases n - i,
    {
        if a.get_char(i) != b.get_char(i) {
            return false;
        }
        i = i + 1;
    }
    assert(a@ =~= b@);
    true
}

/// Index of the first character at or after `from` whose whitespace-ness
/// differs from `ws`, or the length of `s`.
pub fn skip_run(s: &str, from: usize, ws: bool) -> (r: usize)
    requires
        from <= s@.len(),
    ensures
        from <= r <= s@.len(),
        r - from == run_len(s@.skip(from as int), ws),
{
    let n = s.unicode_len();
    let mut i = from;
    while i < n && is_whitespace(s.get_char(i)) == ws
        invariant
            n == s@.len(),
            from <= i <= n,
            forall|k: int| from <= k < i ==> is_ws(#[trigger] s@[k]) == ws,
        decreases n - i,
    {
        i = i + 1;
    }
    let ghost t = s@.skip(from as int);
    assert forall|k: int| 0 <= k < i - from implies is_ws(#[trigger] t[k]) == ws by {
        assert(t[k] == s@[from + k]);
    }
    if i < n {
        assert(t[i - from] == s@[i as int]);
    }
    proof {
        lemma_run_len_at(t, ws, i - from);
    }
    i
}


/// The texts of `ts` joined by line breaks.
pub open spec fn join_lines(ts: Seq<Seq<char>>) -> Seq<char>
    decreases ts.len(),
{
    if ts.len() == 0 {
        seq![]
    } else if ts.len() == 1 {
        ts[0]
    } else {
        join_lines(ts.drop_last()) + seq!['\n'] + ts.last()
    }
}

/// Number of occurrences of `c` in `s`.
pub open spec fn count_char(s: Seq<char>, c: char) -> nat
    decreases s.len(),
{
    if s.len() == 0 {
        0
    } else {
        count_char(s.drop_last(), c) + if s.last() == c {
            1nat
        } else {
            0nat
        }
    }
}

/// Whether `p` occurs in `s`.
pub open spec fn contains_text(s: Seq<char>, p: Seq<char>) -> bool {
    exists|i: int| 0 <= i <= s.len() - p.len() && #[trigger] s.subrange(i, i + p.len()) == p
}

/// How many times `c` occurs in `s`.
pub fn char_count(s: &str, c: char) -> (r: usize)
    ensures
        r == count_char(s@, c),
{
    let n = s.unicode_len();
    let mut i: usize = 0;
    let mut k: usize = 0;
    while i < n
        invariant
            n == s@.len(),
            i <= n,
            k <= i,
            k == count_char(s@.take(i as int), c),
        decreases n - i,
    {
        assert(s@.take(i + 1).drop_last() =~= s@.take(i as int));
        if s.get_char(i) == c {
            k = k + 1;
        }
        i = i + 1;
    }
    assert(s@.take(n as int) =~= s@);
    k
}

/// Whether `p` occurs in `s`, as `str::contains` decides it.
pub fn contains(s: &str, p: &str) -> (r: bool)
    ensures
        r == contains_text(s@, p@),
{
    let n = s.unicode_len();
    let m = p.unicode_len();
    if m > n {
        assert forall|i: int| 0 <= i <= s@.len() - p@.len() implies #[trigger] s@.subrange(
            i,
            i + p@.len(),
        ) != p@ by {}
        return false;
    }
    let mut i: usize = 0;
    while i <= n - m
        invariant
            n == s@.len(),
            m == p@.len(),
            m <= n,
            i <= n - m + 1,
            forall|j: int| 0 <= j < i ==> #[trigger] s@.subrange(j, j + m) != p@,
        decreases n - m + 1 - i,
    {
        let mut k: usize = 0;
        while k < m && s.get_char(i + k) == p.get_char(k)
            invariant
                n == s@.len(),
                m == p@.len(),
                i + m <= n,
                k <= m,
                forall|q: int| 0 <= q < k ==> s@[i + q] == p@[q],
            decreases m - k,
        {
            k = k + 1;
        }
        if k == m {
            assert(s@.subrange(i as int, i + m) =~= p@);
            return true;
        }
        assert(s@.subrange(i as int, i + m)[k as int] != p@[k as int]);
        i = i + 1;
    }
    false
}

} // verus!
