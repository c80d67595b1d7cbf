//! Exact-anchor text substitution.
//!
//! A template is patched by locating the first occurrence of a literal
//! anchor and replacing it wholesale; a text that does not contain the
//! anchor passes through unchanged.

use vstd::prelude::*;

verus! {

/// The anchor `a` occurs in `t` starting at position `i`.
pub open spec fn match_at(t: Seq<char>, a: Seq<char>, i: int) -> bool {
    0 <= i && i + a.len() <= t.len() && t.subrange(i, i + a.len() as int) == a
}

/// The position of the first occurrence of `a` in `t` at or after
/// position `i`, if any; `None` for an empty anchor.
pub open spec fn first_match_from(t: Seq<char>, a: Seq<char>, i: int) -> Option<int>
    decreases t.len() - i,
{
    if a.len() < 1 || i < 0 || i + a.len() > t.len() {
        None
    } else if match_at(t, a, i) {
        Some(i)
    } else {
        first_match_from(t, a, i + 1)
    }
}

/// The position of the first occurrence of `a` in `t`, if any.
pub open spec fn first_match(t: Seq<char>, a: Seq<char>) -> Option<int> {
    first_match_from(t, a, 0)
}

/// `t` with the `alen` characters starting at `i` replaced by `r`.
pub open spec fn splice(t: Seq<char>, i: int, alen: int, r: Seq<char>) -> Seq<char>
    recommends
        0 <= i,
        0 <= alen,
        i + alen <= t.len(),
{
    t.subrange(0, i) + r + t.subrange(i + alen, t.len() as int)
}

/// `t` with the first occurrence of `a`, if any, replaced by `r`;
/// `t` itself when `a` does not occur.
pub open spec fn replace_first_spec(t: Seq<char>, a: Seq<char>, r: Seq<char>) -> Seq<char> {
    match first_match(t, a) {
        Some(i) => splice(t, i, a.len() as int, r),
        None => t,
    }
}

/// What `first_match_from` returns: the match it reports is the
/// first one at or after the start position, and `None` means there
/// is none at all.
pub proof fn lemma_first_match_from_props(t: Seq<char>, a: Seq<char>, c: int)
    requires
        0 <= c,
        a.len() >= 1,
    ensures
        match first_match_from(t, a, c) {
            Some(i) => c <= i && match_at(t, a, i) && (forall|k: int|
                c <= k < i ==> !match_at(t, a, k)),
            None => forall|k: int| c <= k ==> !match_at(t, a, k),
        },
    decreases t.len() - c,
{
    if c + a.len() > t.len() {
    } else if match_at(t, a, c) {
    } else {
        lemma_first_match_from_props(t, a, c + 1);
    }
}

/// Anchor-miss pass-through: a text in which the anchor occurs nowhere
/// is returned unchanged, byte for byte.
pub proof fn lemma_replace_first_no_match(t: Seq<char>, a: Seq<char>, r: Seq<char>)
    requires
        a.len() >= 1,
        forall|k: int| !match_at(t, a, k),
    ensures
        replace_first_spec(t, a, r) == t,
{
    lemma_first_match_from_props(t, a, 0);
}

/// Two-branch divergence under sequential replacement: when the anchor
/// first occurs in `t` at `i` and again, disjointly, at `j`, and the
/// first replacement leaves the shifted second occurrence as the first
/// match of its result (the replacement text does not reintroduce the
/// anchor any earlier), then replacing twice patches both sites: the
/// result holds the replacement at two distinct positions, with the
/// text before, between and after the two sites unchanged.
pub proof fn lemma_replace_two_sites(t: Seq<char>, a: Seq<char>, r: Seq<char>, i: int, j: int)
    requires
        a.len() >= 1,
        first_match(t, a) == Some(i),
        match_at(t, a, j),
        i + a.len() <= j,
        first_match(splice(t, i, a.len() as int, r), a) == Some(j + r.len() - a.len()),
    ensures
        replace_first_spec(replace_first_spec(t, a, r), a, r) == t.subrange(0, i) + r
            + t.subrange(i + a.len(), j) + r + t.subrange(j + a.len(), t.len() as int),
        match_at(replace_first_spec(replace_first_spec(t, a, r), a, r), r, i),
        match_at(
            replace_first_spec(replace_first_spec(t, a, r), a, r),
            r,
            j + r.len() - a.len(),
        ),
{
    let alen = a.len() as int;
    let rlen = r.len() as int;
    lemma_first_match_from_props(t, a, 0);
    let t1 = splice(t, i, alen, r);
    let j1 = j + rlen - alen;
    lemma_first_match_from_props(t1, a, 0);
    assert(t1.subrange(0, j1) =~= t.subrange(0, i) + r + t.subrange(i + alen, j));
    assert(t1.subrange(j1 + alen, t1.len() as int) =~= t.subrange(j + alen, t.len() as int));
    let out = splice(t1, j1, alen, r);
    assert(out =~= t.subrange(0, i) + r + t.subrange(i + alen, j) + r + t.subrange(
        j + alen,
        t.len() as int,
    ));
    assert(out.subrange(i, i + rlen) =~= r);
    assert(out.subrange(j1, j1 + rlen) =~= r);
}

/// Whether `a` occurs in `t` starting exactly at position `i`.
fn seqs_match_at(text: &str, anchor: &str, i: usize) -> (r: bool)
    requires
        i + anchor@.len() <= text@.len(),
        text@.len() <= usize::MAX,
    ensures
        r == match_at(text@, anchor@, i as int),
{
    let m = anchor.unicode_len();
    let mut j: usize = 0;
    while j < m
        invariant
            m == anchor@.len(),
            i + m <= text@.len() <= usize::MAX,
            j <= m,
            forall|k: int| 0 <= k < j ==> text@[i + k] == anchor@[k],
        decreases m - j,
    {
        if text.get_char(i + j) != anchor.get_char(j) {
            proof {
                assert(text@[i + j] != anchor@[j as int]);
                if match_at(text@, anchor@, i as int) {
                    assert(text@.subrange(i as int, i + m)[j as int] == text@[i + j]);
                }
            }
            return false;
        }
        j = j + 1;
    }
    proof {
        assert(text@.subrange(i as int, i + m) =~= anchor@);
    }
    true
}

/// The position of the first occurrence of `anchor` in `text`, if any.
pub fn find_anchor(text: &str, anchor: &str) -> (r: Option<usize>)
    requires
        anchor@.len() >= 1,
    ensures
        match r {
            Some(i) => first_match(text@, anchor@) == Some(i as int),
            None => first_match(text@, anchor@) is None,
        },
{
    let n = text.unicode_len();
    let m = anchor.unicode_len();
    if m > n {
        return None;
    }
    let mut i: usize = 0;
    while i <= n - m
        invariant
            n == text@.len(),
            m == anchor@.len(),
            1 <= m <= n,
            i <= n - m + 1,
            first_match(text@, anchor@) == first_match_from(text@, anchor@, i as int),
        decreases n - i,
    {
        if seqs_match_at(text, anchor, i) {
            return Some(i);
        }
        i = i + 1;
    }
    None
}

/// Replaces the first occurrence of `anchor` in `text` with
/// `replacement`; a text without the anchor passes through unchanged.
pub fn replace_first(text: &str, anchor: &str, replacement: &str) -> (res: String)
    requires
        anchor@.len() >= 1,
    ensures
        res@ == replace_first_spec(text@, anchor@, replacement@),
{
    match find_anchor(text, anchor) {
        None => text.to_owned(),
        Some(i) => {
            proof {
                lemma_first_match_from_props(text@, anchor@, 0);
            }
            let n = text.unicode_len();
            let m = anchor.unicode_len();
            let pre = text.substring_char(0, i);
            let post = text.substring_char(i + m, n);
            let mut out = pre.to_owned();
            out.append(replacement);
            out.append(post);
            proof {
                assert(out@ =~= splice(text@, i as int, anchor@.len() as int, replacement@));
            }
            out
        },
    }
}

} // verus!
