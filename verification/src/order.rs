//! Stable ordering of a sequence by a total preorder, as a mathematical
//! function, with the facts that the sorting routines of this library are
//! proved against.

use vstd::prelude::*;

verus! {

/// Any two values are comparable.
pub open spec fn is_total<T>(le: spec_fn(T, T) -> bool) -> bool {
    forall|a: T, b: T| #[trigger] le(a, b) || le(b, a)
}

/// What is at most something that is at most a third is at most the third.
pub open spec fn is_transitive<T>(le: spec_fn(T, T) -> bool) -> bool {
    forall|a: T, b: T, c: T| #[trigger] le(a, b) && #[trigger] le(b, c) ==> le(a, c)
}

/// The values of `s` never decrease from one position to a later one.
pub open spec fn sorted_by<T>(s: Seq<T>, le: spec_fn(T, T) -> bool) -> bool {
    forall|i: int, j: int| 0 <= i <= j < s.len() ==> le(#[trigger] s[i], #[trigger] s[j])
}

/// Where `e` goes into `s`: just behind the last value that is at most `e`,
/// or at the front if there is none.
pub open spec fn insert_at<T>(s: Seq<T>, e: T, le: spec_fn(T, T) -> bool) -> int
    decreases s.len(),
{
    if s.len() == 0 {
        0
    } else if le(s.last(), e) {
        s.len() as int
    } else {
        insert_at(s.drop_last(), e, le)
    }
}

/// `s` with `e` put in at its place.
pub open spec fn sorted_insert<T>(s: Seq<T>, e: T, le: spec_fn(T, T) -> bool) -> Seq<T> {
    s.insert(insert_at(s, e, le), e)
}

/// The stable ordering of `s`: its values are put in one by one, each behind
/// those already present that are not greater. Values that compare equal
/// keep the order in which they came.
pub open spec fn stable_sort<T>(s: Seq<T>, le: spec_fn(T, T) -> bool) -> Seq<T>
    decreases s.len(),
{
    if s.len() == 0 {
        Seq::empty()
    } else {
        sorted_insert(stable_sort(s.drop_last(), le), s.last(), le)
    }
}

/// The insertion point lies inside the sequence, everything from it on is
/// strictly greater than `e`, and the value just before it is not.
pub proof fn lemma_insert_at<T>(s: Seq<T>, e: T, le: spec_fn(T, T) -> bool)
    ensures
        0 <= insert_at(s, e, le) <= s.len(),
        forall|j: int| insert_at(s, e, le) <= j < s.len() ==> !le(#[trigger] s[j], e),
        insert_at(s, e, le) > 0 ==> le(s[insert_at(s, e, le) - 1], e),
    decreases s.len(),
{
    if s.len() > 0 && !le(s.last(), e) {
        let front = s.drop_last();
        lemma_insert_at(front, e, le);
        assert forall|j: int| insert_at(s, e, le) <= j < s.len() implies !le(
            #[trigger] s[j],
            e,
        ) by {
            if j < front.len() {
                assert(s[j] == front[j]);
            }
        }
        if insert_at(s, e, le) > 0 {
            assert(s[insert_at(s, e, le) - 1] == front[insert_at(front, e, le) - 1]);
        }
    }
}

/// The insertion point shows while the sequence is scanned from its end:
/// it is the insertion point of the part not yet scanned as long as
/// everything scanned is greater than `e`.
pub proof fn lemma_insert_at_scan<T>(s: Seq<T>, e: T, le: spec_fn(T, T) -> bool, p: int)
    requires
        0 < p <= s.len(),
        !le(s[p - 1], e),
    ensures
        insert_at(s.take(p), e, le) == insert_at(s.take(p - 1), e, le),
{
    assert(s.take(p).drop_last() =~= s.take(p - 1));
    assert(s.take(p).last() == s[p - 1]);
}

/// Putting a value into a sorted sequence at its place keeps the sequence
/// sorted.
pub proof fn lemma_sorted_insert_sorted<T>(s: Seq<T>, e: T, le: spec_fn(T, T) -> bool)
    requires
        is_total(le),
        is_transitive(le),
        sorted_by(s, le),
    ensures
        sorted_by(sorted_insert(s, e, le), le),
{
    let p = insert_at(s, e, le);
    let t = sorted_insert(s, e, le);
    lemma_insert_at(s, e, le);
    assert forall|i: int, j: int| 0 <= i <= j < t.len() implies le(t[i], t[j]) by {
        assert(le(e, e));
        if j < p {
            assert(t[i] == s[i] && t[j] == s[j]);
        } else if j == p {
            if i < p {
                assert(t[i] == s[i]);
                assert(le(s[i], s[p - 1]));
                assert(le(s[p - 1], e));
            }
        } else {
            assert(t[j] == s[j - 1]);
            assert(!le(s[j - 1], e));
            assert(le(e, s[j - 1]));
            if i < p {
                assert(t[i] == s[i]);
                assert(le(s[i], s[j - 1]));
            } else if i > p {
                assert(t[i] == s[i - 1]);
                assert(le(s[i - 1], s[j - 1]));
            }
        }
    }
}

/// The ordering of a sequence is sorted and holds exactly the values of the
/// sequence, each as often as the sequence does.
pub proof fn lemma_stable_sort<T>(s: Seq<T>, le: spec_fn(T, T) -> bool)
    requires
        is_total(le),
        is_transitive(le),
    ensures
        sorted_by(stable_sort(s, le), le),
        stable_sort(s, le).len() == s.len(),
        stable_sort(s, le).to_multiset() == s.to_multiset(),
    decreases s.len(),
{
    broadcast use vstd::seq_lib::group_to_multiset_ensures;

    if s.len() == 0 {
        assert(s =~= Seq::empty());
    } else {
        let front = s.drop_last();
        lemma_stable_sort(front, le);
        lemma_insert_at(stable_sort(front, le), s.last(), le);
        lemma_sorted_insert_sorted(stable_sort(front, le), s.last(), le);
        assert(s =~= front.push(s.last()));
    }
}

/// A sequence that is sorted already is its own ordering.
pub proof fn lemma_stable_sort_of_sorted<T>(s: Seq<T>, le: spec_fn(T, T) -> bool)
    requires
        sorted_by(s, le),
    ensures
        stable_sort(s, le) == s,
    decreases s.len(),
{
    if s.len() > 0 {
        let front = s.drop_last();
        assert forall|i: int, j: int| 0 <= i <= j < front.len() implies le(front[i], front[j]) by {
            assert(front[i] == s[i] && front[j] == s[j]);
        }
        lemma_stable_sort_of_sorted(front, le);
        if front.len() > 0 {
            assert(front.last() == s[s.len() - 2]);
            assert(le(s[s.len() - 2], s[s.len() - 1]));
        } else {
            assert(le(s[0], s[0]));
        }
        assert(insert_at(front, s.last(), le) == front.len());
        assert(front.insert(front.len() as int, s.last()) =~= s);
    } else {
        assert(s =~= Seq::empty());
    }
}

/// A value of the ordering is a value of the sequence.
pub proof fn lemma_stable_sort_contains<T>(s: Seq<T>, le: spec_fn(T, T) -> bool, i: int)
    requires
        is_total(le),
        is_transitive(le),
        0 <= i < stable_sort(s, le).len(),
    ensures
        s.contains(stable_sort(s, le)[i]),
{
    broadcast use vstd::seq_lib::group_to_multiset_ensures;

    lemma_stable_sort(s, le);
    let sorted = stable_sort(s, le);
    assert(sorted.to_multiset().count(sorted[i]) > 0);
    assert(s.to_multiset().count(sorted[i]) > 0);
}

/// What is kept of a sorted sequence is sorted.
pub proof fn lemma_filter_sorted<T>(s: Seq<T>, keep: spec_fn(T) -> bool, le: spec_fn(T, T) -> bool)
    requires
        sorted_by(s, le),
    ensures
        sorted_by(s.filter(keep), le),
        forall|i: int| 0 <= i < s.filter(keep).len() ==> s.contains(#[trigger] s.filter(keep)[i]),
    decreases s.len(),
{
    reveal(Seq::filter);
    if s.len() > 0 {
        let front = s.drop_last();
        assert forall|i: int, j: int| 0 <= i <= j < front.len() implies le(front[i], front[j]) by {
            assert(front[i] == s[i] && front[j] == s[j]);
        }
        lemma_filter_sorted(front, keep, le);
        let kept = s.filter(keep);
        let kept_front = front.filter(keep);
        assert forall|i: int| 0 <= i < kept.len() implies s.contains(#[trigger] kept[i]) by {
            if i < kept_front.len() {
                assert(kept[i] == kept_front[i]);
                assert(front.contains(kept_front[i]));
                let k = choose|k: int| 0 <= k < front.len() && front[k] == kept_front[i];
                assert(s[k] == kept[i]);
            } else {
                assert(kept[i] == s[s.len() - 1]);
            }
        }
        assert forall|i: int, j: int| 0 <= i <= j < kept.len() implies le(kept[i], kept[j]) by {
            if j < kept_front.len() {
                assert(kept[i] == kept_front[i] && kept[j] == kept_front[j]);
            } else {
                assert(kept[j] == s[s.len() - 1]);
                if i < kept_front.len() {
                    assert(kept[i] == kept_front[i]);
                    assert(front.contains(kept_front[i]));
                    let k = choose|k: int| 0 <= k < front.len() && front[k] == kept_front[i];
                    assert(s[k] == kept[i]);
                    assert(le(s[k], s[s.len() - 1]));
                } else {
                    assert(le(s[s.len() - 1], s[s.len() - 1]));
                }
            }
        }
    }
}

} // verus!
