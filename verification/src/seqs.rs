//! Facts about sequences that several modules use.

use vstd::prelude::*;

verus! {

/// The smaller of two counts.
pub open spec fn at_most(limit: nat, available: nat) -> nat {
    if limit <= available {
        limit
    } else {
        available
    }
}

/// Filtering a front part of a sequence gives a front part of the filtered
/// sequence.
pub proof fn lemma_filter_prefix<A>(s: Seq<A>, n: int, keep: spec_fn(A) -> bool)
    requires
        0 <= n <= s.len(),
    ensures
        s.take(n).filter(keep).len() <= s.filter(keep).len(),
        s.filter(keep).take(s.take(n).filter(keep).len() as int) == s.take(n).filter(keep),
{
    Seq::filter_distributes_over_add(s.take(n), s.skip(n), keep);
    assert(s =~= s.take(n) + s.skip(n));
    let a = s.take(n).filter(keep);
    let b = s.skip(n).filter(keep);
    assert((a + b).take(a.len() as int) =~= a);
}

/// Filtering one element more of a sequence keeps the element or not.
pub proof fn lemma_filter_next<A>(s: Seq<A>, n: int, keep: spec_fn(A) -> bool)
    requires
        0 <= n < s.len(),
    ensures
        s.take(n + 1).filter(keep) == if keep(s[n]) {
            s.take(n).filter(keep).push(s[n])
        } else {
            s.take(n).filter(keep)
        },
{
    assert(s.take(n + 1) =~= s.take(n).push(s[n]));
    s.take(n).lemma_filter_push(s[n], keep);
}

/// Nothing is kept of nothing.
pub proof fn lemma_filter_none<A>(s: Seq<A>, keep: spec_fn(A) -> bool)
    ensures
        s.take(0).filter(keep) == Seq::<A>::empty(),
{
    reveal(Seq::filter);
    assert(s.take(0) =~= Seq::<A>::empty());
}

} // verus!
