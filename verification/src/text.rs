//! Verified text helpers: substring tests and pattern replacement over
//! `Seq<char>` views, shared by all emitters.

use vstd::prelude::*;

verus! {

/// Whether `pat` stands in `s` beginning at character index `i`.
pub open spec fn has_sub_at(s: Seq<char>, pat: Seq<char>, i: int) -> bool {
    0 <= i && i + pat.len() <= s.len() && s.subrange(i, i + pat.len()) == pat
}

/// Whether `pat` stands anywhere in `s`.
pub open spec fn has_sub(s: Seq<char>, pat: Seq<char>) -> bool {
    exists|i: int| has_sub_at(s, pat, i)
}

/// Whether `s` ends with `pat`.
pub open spec fn ends_with(s: Seq<char>, pat: Seq<char>) -> bool {
    pat.len() <= s.len() && s.subrange(s.len() - pat.len(), s.len() as int) == pat
}

/// Whether `s` starts with `pat`.
pub open spec fn starts_with(s: Seq<char>, pat: Seq<char>) -> bool {
    pat.len() <= s.len() && s.subrange(0, pat.len() as int) == pat
}

/// Every occurrence of `pat` in `s`, replaced by `rep`, scanning left to
/// right without overlap. An empty pattern leaves `s` unchanged.
pub open spec fn spec_replace(s: Seq<char>, pat: Seq<char>, rep: Seq<char>) -> Seq<char>
    decreases s.len(),
{
    if pat.len() == 0 || s.len() == 0 {
        s
    } else if pat.len() <= s.len() && s.take(pat.len() as int) == pat {
        rep + spec_replace(s.skip(pat.len() as int), pat, rep)
    } else {
        seq![s[0]] + spec_replace(s.skip(1), pat, rep)
    }
}

/// Whether `pat` stands in `s` at character position `i`, decided by
/// comparing the characters one by one.
fn matches_at(s: &str, n: usize, pat: &str, m: usize, i: usize) -> (r: bool)
    requires
        n == s@.len(),
        m == pat@.len(),
        i + m <= n,
    ensures
        r == (s@.subrange(i as int, i + m) == pat@),
{
    let mut k: usize = 0;
    while k < m
        invariant
            k <= m,
            n == s@.len(),
            m == pat@.len(),
            i + m <= n,
            forall|j: int| 0 <= j < k ==> s@[i + j] == pat@[j],
        decreases m - k,
    {
        if s.get_char(i + k) != pat.get_char(k) {
            proof {
                assert(s@.subrange(i as int, i + m)[k as int] == s@[i + k]);
            }
            return false;
        }
        k += 1;
    }
    proof {
        assert(s@.subrange(i as int, i + m) =~= pat@);
    }
    true
}

/// Whether `pat` stands anywhere in `s`.
pub fn contains_sub(s: &str, pat: &str) -> (r: bool)
    ensures
        r == has_sub(s@, pat@),
{
    let n = s.unicode_len();
    let m = pat.unicode_len();
    if m > n {
        proof {
            assert(forall|i: int| !has_sub_at(s@, pat@, i));
        }
        return false;
    }
    let mut i: usize = 0;
    loop
        invariant
            i <= n - m,
            m <= n,
            n == s@.len(),
            m == pat@.len(),
            forall|j: int| 0 <= j < i ==> !has_sub_at(s@, pat@, j),
        decreases n - m - i,
    {
        if matches_at(s, n, pat, m, i) {
            proof {
                assert(has_sub_at(s@, pat@, i as int));
            }
            return true;
        }
        if i == n - m {
            proof {
                assert(forall|j: int| j > i ==> !has_sub_at(s@, pat@, j));
            }
            return false;
        }
        i += 1;
    }
}

/// Whether `s` starts with `pat`.
pub fn starts_with_sub(s: &str, pat: &str) -> (r: bool)
    ensures
        r == starts_with(s@, pat@),
{
    let n = s.unicode_len();
    let m = pat.unicode_len();
    if m > n {
        return false;
    }
    matches_at(s, n, pat, m, 0)
}

/// Whether `s` ends with `pat`.
pub fn ends_with_sub(s: &str, pat: &str) -> (r: bool)
    ensures
        r == ends_with(s@, pat@),
{
    let n = s.unicode_len();
    let m = pat.unicode_len();
    if m > n {
        return false;
    }
    matches_at(s, n, pat, m, n - m)
}

/// Whether the two strings hold the same characters.
pub fn str_eq(a: &str, b: &str) -> (r: bool)
    ensures
        r == (a@ == b@),
{
    let n = a.unicode_len();
    let m = b.unicode_len();
    if n != m {
        return false;
    }
    let r = matches_at(a, n, b, m, 0);
    proof {
        assert(a@.subrange(0, n as int) =~= a@);
    }
    r
}

/// Every occurrence of `pat` in `s` replaced by `rep`, scanning left to
/// right without overlap.
pub fn replace_all(s: &str, pat: &str, rep: &str) -> (r: String)
    requires
        pat@.len() > 0,
    ensures
        r@ == spec_replace(s@, pat@, rep@),
{
    let n = s.unicode_len();
    let m = pat.unicode_len();
    let mut r = String::new();
    let mut i: usize = 0;
    proof {
        assert(s@.skip(0) =~= s@);
        assert(r@ + spec_replace(s@, pat@, rep@) =~= spec_replace(s@, pat@, rep@));
    }
    while i < n
        invariant
            i <= n,
            n == s@.len(),
            m == pat@.len(),
            m > 0,
            spec_replace(s@, pat@, rep@) == r@ + spec_replace(s@.skip(i as int), pat@, rep@),
        decreases n - i,
    {
        let ghost t = s@.skip(i as int);
        if n - i >= m && matches_at(s, n, pat, m, i) {
            proof {
                assert(t.take(m as int) =~= s@.subrange(i as int, i + m));
                assert(t.skip(m as int) =~= s@.skip(i + m));
                assert(spec_replace(t, pat@, rep@) == rep@ + spec_replace(
                    s@.skip(i + m),
                    pat@,
                    rep@,
                ));
            }
            r.append(rep);
            proof {
                assert(r@ + spec_replace(s@.skip(i + m), pat@, rep@) =~= spec_replace(
                    s@,
                    pat@,
                    rep@,
                ));
            }
            i += m;
        } else {
            proof {
                if m <= t.len() {
                    assert(t.take(m as int) =~= s@.subrange(i as int, i + m));
                }
                assert(spec_replace(t, pat@, rep@) == seq![t[0]] + spec_replace(
                    t.skip(1),
                    pat@,
                    rep@,
                ));
            }
            let piece = s.substring_char(i, i + 1);
            proof {
                assert(piece@ =~= seq![t[0]]);
                assert(t.skip(1) =~= s@.skip(i + 1));
            }
            r.append(piece);
            proof {
                assert(r@ + spec_replace(s@.skip(i + 1), pat@, rep@) =~= spec_replace(
                    s@,
                    pat@,
                    rep@,
                ));
            }
            i += 1;
        }
    }
    proof {
        assert(s@.skip(n as int).len() == 0);
        assert(r@ + spec_replace(s@.skip(n as int), pat@, rep@) =~= r@);
    }
    r
}

/// An occurrence of `pat` in the right part of a concatenation is an
/// occurrence in the whole.
pub proof fn lemma_has_sub_concat_right(a: Seq<char>, b: Seq<char>, pat: Seq<char>)
    requires
        has_sub(b, pat),
    ensures
        has_sub(a + b, pat),
{
    let i = choose|i: int| has_sub_at(b, pat, i);
    assert((a + b).subrange(a.len() + i, a.len() + i + pat.len()) =~= b.subrange(
        i,
        i + pat.len(),
    ));
    assert(has_sub_at(a + b, pat, a.len() + i));
}

/// An occurrence of `pat` in the left part of a concatenation is an
/// occurrence in the whole.
pub proof fn lemma_has_sub_concat_left(a: Seq<char>, b: Seq<char>, pat: Seq<char>)
    requires
        has_sub(a, pat),
    ensures
        has_sub(a + b, pat),
{
    let i = choose|i: int| has_sub_at(a, pat, i);
    assert((a + b).subrange(i, i + pat.len()) =~= a.subrange(i, i + pat.len()));
    assert(has_sub_at(a + b, pat, i));
}

/// A string that holds no occurrence of a non-empty pattern is left
/// unchanged by replacement.
pub proof fn lemma_replace_absent(s: Seq<char>, pat: Seq<char>, rep: Seq<char>)
    requires
        pat.len() > 0,
        !has_sub(s, pat),
    ensures
        spec_replace(s, pat, rep) == s,
    decreases s.len(),
{
    if s.len() == 0 {
    } else {
        if pat.len() <= s.len() && s.take(pat.len() as int) == pat {
            assert(s.subrange(0, pat.len() as int) =~= s.take(pat.len() as int));
            assert(has_sub_at(s, pat, 0));
        }
        assert forall|i: int| !has_sub_at(s.skip(1), pat, i) by {
            if has_sub_at(s.skip(1), pat, i) {
                assert(s.subrange(i + 1, i + 1 + pat.len()) =~= s.skip(1).subrange(
                    i,
                    i + pat.len(),
                ));
                assert(has_sub_at(s, pat, i + 1));
            }
        }
        lemma_replace_absent(s.skip(1), pat, rep);
        assert(seq![s[0]] + s.skip(1) =~= s);
    }
}

/// Replacing a non-empty pattern in `pat + x`, where `x` holds no further
/// occurrence, yields `rep + x`.
pub proof fn lemma_replace_prefix(x: Seq<char>, pat: Seq<char>, rep: Seq<char>)
    requires
        pat.len() > 0,
        !has_sub(x, pat),
    ensures
        spec_replace(pat + x, pat, rep) == rep + x,
{
    let s = pat + x;
    assert(s.take(pat.len() as int) =~= pat);
    assert(s.skip(pat.len() as int) =~= x);
    lemma_replace_absent(x, pat, rep);
}

} // verus!

verus! {

/// A concatenation holds its right part as an occurrence.
pub proof fn lemma_has_sub_suffix(a: Seq<char>, b: Seq<char>)
    ensures
        has_sub(a + b, b),
{
    assert((a + b).subrange(a.len() as int, a.len() as int + b.len()) =~= b);
    assert(has_sub_at(a + b, b, a.len() as int));
}

} // verus!
