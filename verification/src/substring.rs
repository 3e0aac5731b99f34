//! Substring predicates over character sequences, the lemmas that move them
//! through concatenations, and verified prefix/equality tests on `&str`.

use vstd::prelude::*;

verus! {

/// `p` is a prefix of `s`.
pub open spec fn has_prefix(s: Seq<char>, p: Seq<char>) -> bool {
    p.len() <= s.len() && s.subrange(0, p.len() as int) == p
}

/// `p` is a suffix of `s`.
pub open spec fn has_suffix(s: Seq<char>, p: Seq<char>) -> bool {
    p.len() <= s.len() && s.subrange(s.len() - p.len(), s.len() as int) == p
}

/// `sub` occurs in `s` starting at index `i`.
pub open spec fn contains_at(s: Seq<char>, i: int, sub: Seq<char>) -> bool {
    0 <= i && i + sub.len() <= s.len() && s.subrange(i, i + sub.len()) == sub
}

/// `sub` occurs somewhere in `s`.
pub open spec fn contains_sub(s: Seq<char>, sub: Seq<char>) -> bool {
    exists|i: int| contains_at(s, i, sub)
}

/// An occurrence in the left part of a concatenation is an occurrence in the whole.
pub proof fn lemma_contains_at_left(a: Seq<char>, b: Seq<char>, i: int, sub: Seq<char>)
    requires
        contains_at(a, i, sub),
    ensures
        contains_at(a + b, i, sub),
{
    assert((a + b).subrange(i, i + sub.len()) =~= a.subrange(i, i + sub.len()));
}

/// An occurrence in the right part of a concatenation is an occurrence in the
/// whole, shifted by the length of the left part.
pub proof fn lemma_contains_at_right(a: Seq<char>, b: Seq<char>, i: int, sub: Seq<char>)
    requires
        contains_at(b, i, sub),
    ensures
        contains_at(a + b, a.len() + i, sub),
{
    assert((a + b).subrange(a.len() + i, a.len() + i + sub.len()) =~= b.subrange(
        i,
        i + sub.len(),
    ));
}

/// An occurrence inside an occurrence is an occurrence in the whole.
pub proof fn lemma_contains_at_trans(s: Seq<char>, i: int, m: Seq<char>, k: int, sub: Seq<char>)
    requires
        contains_at(s, i, m),
        contains_at(m, k, sub),
    ensures
        contains_at(s, i + k, sub),
{
    assert(s.subrange(i + k, i + k + sub.len()) =~= s.subrange(i, i + m.len()).subrange(
        k,
        k + sub.len(),
    ));
}

/// Every sequence occurs in itself at the start.
pub proof fn lemma_contains_at_self(s: Seq<char>)
    ensures
        contains_at(s, 0, s),
{
    assert(s.subrange(0, s.len() as int) =~= s);
}

/// `contains_sub` carries from the left part of a concatenation to the whole.
pub proof fn lemma_contains_sub_left(a: Seq<char>, b: Seq<char>, sub: Seq<char>)
    requires
        contains_sub(a, sub),
    ensures
        contains_sub(a + b, sub),
{
    let i = choose|i: int| contains_at(a, i, sub);
    lemma_contains_at_left(a, b, i, sub);
}

/// `contains_sub` carries from the right part of a concatenation to the whole.
pub proof fn lemma_contains_sub_right(a: Seq<char>, b: Seq<char>, sub: Seq<char>)
    requires
        contains_sub(b, sub),
    ensures
        contains_sub(a + b, sub),
{
    let i = choose|i: int| contains_at(b, i, sub);
    lemma_contains_at_right(a, b, i, sub);
}

/// A prefix fixes the characters it covers.
pub proof fn lemma_prefix_index(e: Seq<char>, p: Seq<char>, i: int)
    requires
        has_prefix(e, p),
        0 <= i < p.len(),
    ensures
        e[i] == p[i],
{
    assert(e.subrange(0, p.len() as int)[i] == e[i]);
}

/// Compares two string slices character by character.
pub fn str_eq(a: &str, b: &str) -> (r: bool)
    ensures
        r == (a@ == b@),
{
    let n = a.unicode_len();
    if n != b.unicode_len() {
        assert(a@.len() != b@.len());
        return false;
    }
    let mut i: usize = 0;
    while i < n
        invariant
            n == a@.len(),
            n == b@.len(),
            i <= n,
            forall|k: int| 0 <= k < i ==> a@[k] == b@[k],
        decreases n - i,
    {
        if a.get_char(i) != b.get_char(i) {
            return false;
        }
        i += 1;
    }
    proof {
        assert(a@ =~= b@);
    }
    true
}

/// Tests whether `p` is a prefix of `s`, character by character.
pub fn str_has_prefix(s: &str, p: &str) -> (r: bool)
    ensures
        r == has_prefix(s@, p@),
{
    let np = p.unicode_len();
    if np > s.unicode_len() {
        return false;
    }
    let mut i: usize = 0;
    while i < np
        invariant
            np == p@.len(),
            np <= s@.len(),
            i <= np,
            forall|k: int| 0 <= k < i ==> s@[k] == p@[k],
        decreases np - i,
    {
        if s.get_char(i) != p.get_char(i) {
            assert(!has_prefix(s@, p@)) by {
                assert(s@.subrange(0, p@.len() as int)[i as int] == s@[i as int]);
            }
            return false;
        }
        i += 1;
    }
    proof {
        assert(s@.subrange(0, p@.len() as int) =~= p@);
    }
    true
}

} // verus!
