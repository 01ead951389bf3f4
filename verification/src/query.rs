//! The spatial queries of the index. The spatial tree answers a query with
//! hits: slots with distances. This module decides which hits count and in
//! what order, and turns their slots into system ids.
//!
//! A distance is carried as the bit pattern of a real number that is not
//! negative. For such numbers the order of the patterns is the order of the
//! numbers, so distances are compared as integers here.

use crate::models::{Point3D, RealBits, SystemId};
use crate::order::{
    insert_at, is_total, is_transitive, lemma_insert_at_scan, lemma_stable_sort,
    lemma_stable_sort_contains, lemma_stable_sort_of_sorted, sorted_by, stable_sort,
};
use crate::seqs::{at_most, lemma_filter_next, lemma_filter_none};
use crate::spatial::SpatialIndex;
use vstd::prelude::*;

verus! {

/// The bit pattern of positive infinity. The patterns up to it are those of
/// the real numbers that are not negative, in their order, and of infinity.
pub const INFINITY_BITS: RealBits = 0x7FF0_0000_0000_0000;

/// One result of a query to the spatial tree: the slot of a point and the
/// distance that the tree measured to it.
#[derive(Debug, Clone, Copy, PartialEq, Eq, Structural)]
pub struct TreeHit {
    pub slot: usize,
    pub distance: RealBits,
}

/// Every hit names a slot of the table.
pub open spec fn hits_in_range(slots: Seq<(Point3D, SystemId)>, hits: Seq<TreeHit>) -> bool {
    forall|i: int| 0 <= i < hits.len() ==> (#[trigger] hits[i]).slot < slots.len()
}

/// The hits with each slot replaced by the id of the system in it. Order and
/// distances are those of the hits.
pub open spec fn resolve(slots: Seq<(Point3D, SystemId)>, hits: Seq<TreeHit>) -> Seq<
    (SystemId, RealBits),
> {
    hits.map_values(|h: TreeHit| (slots[h.slot as int].1, h.distance))
}

/// The test for the hits that lie within a radius, the radius included.
pub open spec fn within(radius: RealBits) -> spec_fn(TreeHit) -> bool {
    |h: TreeHit| h.distance <= radius
}

/// The order of hits by distance.
pub open spec fn by_distance() -> spec_fn(TreeHit, TreeHit) -> bool {
    |a: TreeHit, b: TreeHit| a.distance <= b.distance
}

/// The ids named by a list of results.
pub open spec fn result_ids(results: Seq<(SystemId, RealBits)>) -> Set<SystemId> {
    results.map_values(|r: (SystemId, RealBits)| r.0).to_set()
}

/// The distances of a list of results never decrease.
pub open spec fn distances_ascend(results: Seq<(SystemId, RealBits)>) -> bool {
    forall|i: int, j: int|
        0 <= i <= j < results.len() ==> (#[trigger] results[i]).1 <= (#[trigger] results[j]).1
}

/// A bound a number of patterns above `bound`, but not above infinity. A
/// bound that is no real number, or negative, is left as it is.
pub open spec fn widened_bound_spec(bound: RealBits, steps: u64) -> RealBits {
    if bound >= INFINITY_BITS {
        bound
    } else if steps >= INFINITY_BITS - bound {
        INFINITY_BITS
    } else {
        (bound + steps) as RealBits
    }
}

/// The order of hits by distance compares any two hits and is transitive.
pub proof fn lemma_by_distance()
    ensures
        is_total(by_distance()),
        is_transitive(by_distance()),
{
    let le = by_distance();
    assert forall|a: TreeHit, b: TreeHit| #[trigger] le(a, b) || le(b, a) by {}
    assert forall|a: TreeHit, b: TreeHit, c: TreeHit| #[trigger] le(a, b) && #[trigger] le(
        b,
        c,
    ) implies le(a, c) by {}
}

/// A tree that keeps what lies strictly below its bound keeps, when it is
/// handed a widened bound, everything that lies at or below the bound itself.
pub proof fn lemma_widened_bound(bound: RealBits, steps: u64, distance: RealBits)
    requires
        bound < INFINITY_BITS,
        steps >= 1,
        distance <= bound,
    ensures
        distance < widened_bound_spec(bound, steps),
{
}

/// A larger bound widens to a larger bound.
pub proof fn lemma_widened_bound_monotonic(smaller: RealBits, larger: RealBits, steps: u64)
    requires
        smaller <= larger <= INFINITY_BITS,
    ensures
        widened_bound_spec(smaller, steps) <= widened_bound_spec(larger, steps),
{
}

/// The radius query is monotonic: with a larger radius, and an answer of the
/// tree that holds every hit that counted with the smaller radius, every id
/// found with the smaller radius is found again.
pub proof fn lemma_radius_monotonic(
    slots: Seq<(Point3D, SystemId)>,
    inner: Seq<TreeHit>,
    outer: Seq<TreeHit>,
    smaller: RealBits,
    larger: RealBits,
)
    requires
        smaller <= larger,
        forall|i: int|
            0 <= i < inner.len() && inner[i].distance <= smaller ==> outer.contains(
                #[trigger] inner[i],
            ),
    ensures
        result_ids(resolve(slots, inner.filter(within(smaller)))).subset_of(
            result_ids(resolve(slots, outer.filter(within(larger)))),
        ),
{
    broadcast use vstd::seq_lib::group_filter_ensures;

    let kept_in = inner.filter(within(smaller));
    let kept_out = outer.filter(within(larger));
    let ids_in = resolve(slots, kept_in).map_values(|r: (SystemId, RealBits)| r.0);
    let ids_out = resolve(slots, kept_out).map_values(|r: (SystemId, RealBits)| r.0);
    assert forall|id: SystemId| ids_in.to_set().contains(id) implies ids_out.to_set().contains(
        id,
    ) by {
        let i = choose|i: int| 0 <= i < ids_in.len() && ids_in[i] == id;
        let hit = kept_in[i];
        assert(within(smaller)(hit));
        assert(inner.contains(hit)) by {
            inner.lemma_filter_contains_rev(within(smaller), hit);
        }
        let k = choose|k: int| 0 <= k < inner.len() && inner[k] == hit;
        assert(outer.contains(inner[k]));
        let m = choose|m: int| 0 <= m < outer.len() && outer[m] == hit;
        assert(within(larger)(outer[m]));
        outer.lemma_filter_contains(within(larger), m);
        let j = choose|j: int| 0 <= j < kept_out.len() && kept_out[j] == hit;
        assert(ids_out[j] == id);
    }
}

/// Hits that are in order of distance resolve to results whose distances
/// never decrease.
pub proof fn lemma_resolve_keeps_order(slots: Seq<(Point3D, SystemId)>, hits: Seq<TreeHit>)
    requires
        sorted_by(hits, by_distance()),
    ensures
        distances_ascend(resolve(slots, hits)),
{
    let results = resolve(slots, hits);
    assert forall|i: int, j: int| 0 <= i <= j < results.len() implies (#[trigger] results[i]).1
        <= (#[trigger] results[j]).1 by {
        assert(by_distance()(hits[i], hits[j]));
    }
}

/// The bound to hand to a tree that keeps what lies strictly below its
/// bound, for a bound that is to be included with some margin.
pub fn widened_bound(bound: RealBits, steps: u64) -> (next: RealBits)
    ensures
        next == widened_bound_spec(bound, steps),
{
    if bound >= INFINITY_BITS {
        bound
    } else if steps >= INFINITY_BITS - bound {
        INFINITY_BITS
    } else {
        bound + steps
    }
}

/// The first `n` hits in order of distance. Hits at the same distance keep
/// the order in which the tree gave them.
pub fn order_hits(hits: &Vec<TreeHit>, n: usize) -> (ordered: Vec<TreeHit>)
    requires
        n <= hits.len(),
    ensures
        ordered@ == stable_sort(hits@.take(n as int), by_distance()),
{
    let mut out: Vec<TreeHit> = Vec::new();
    let ghost le = by_distance();
    let mut i: usize = 0;
    assert(hits@.take(0) =~= Seq::<TreeHit>::empty());
    while i < n
        invariant
            i <= n <= hits.len(),
            le == by_distance(),
            out@ == stable_sort(hits@.take(i as int), le),
        decreases n - i,
    {
        let e = hits[i];
        let ghost before = out@;
        let mut p: usize = out.len();
        assert(before.take(p as int) =~= before);
        while p > 0 && out[p - 1].distance > e.distance
            invariant
                p <= out.len(),
                le == by_distance(),
                out@ == before,
                insert_at(before, e, le) == insert_at(before.take(p as int), e, le),
            decreases p,
        {
            proof {
                lemma_insert_at_scan(before, e, le, p as int);
            }
            p = p - 1;
        }
        proof {
            if p > 0 {
                assert(before.take(p as int).last() == before[p - 1]);
            }
            assert(insert_at(before, e, le) == p);
            let next = hits@.take(i + 1);
            assert(next.drop_last() =~= hits@.take(i as int));
            assert(next.last() == e);
        }
        out.insert(p, e);
        i = i + 1;
    }
    out
}

impl SpatialIndex {
    /// Whether every hit names a slot of this index, as the functions below
    /// ask of their caller.
    pub fn accepts(&self, hits: &Vec<TreeHit>) -> (ok: bool)
        ensures
            ok == hits_in_range(self.slots(), hits@),
    {
        let table = self.positions();
        let mut i: usize = 0;
        while i < hits.len()
            invariant
                i <= hits.len(),
                table@ == self.slots(),
                forall|j: int| 0 <= j < i ==> (#[trigger] hits@[j]).slot < self.slots().len(),
            decreases hits.len() - i,
        {
            if hits[i].slot >= table.len() {
                return false;
            }
            i = i + 1;
        }
        true
    }

    /// Turns hits into results: one per hit, in the order of the hits, each
    /// with the id of the system in its slot and the distance of the hit.
    pub fn resolve_hits(&self, hits: &Vec<TreeHit>) -> (results: Vec<(SystemId, RealBits)>)
        requires
            hits_in_range(self.slots(), hits@),
        ensures
            results@ == resolve(self.slots(), hits@),
            forall|i: int|
                0 <= i < results@.len() ==> self.systems().contains_key((#[trigger] results@[i]).0),
    {
        self.well_formed();
        let table = self.positions();
        let mut out: Vec<(SystemId, RealBits)> = Vec::new();
        let mut i: usize = 0;
        while i < hits.len()
            invariant
                i <= hits.len(),
                hits_in_range(self.slots(), hits@),
                table@ == self.slots(),
                self.wf(),
                out@ == resolve(self.slots(), hits@.take(i as int)),
                forall|j: int|
                    0 <= j < out@.len() ==> self.systems().contains_key((#[trigger] out@[j]).0),
            decreases hits.len() - i,
        {
            let hit = hits[i];
            let (_, system_id) = table[hit.slot];
            let ghost before = out@;
            out.push((system_id, hit.distance));
            proof {
                assert(hits@.take(i + 1) =~= hits@.take(i as int).push(hit));
                assert(out@ =~= resolve(self.slots(), hits@.take(i + 1)));
                assert(self.systems().contains_key(self.slots()[hit.slot as int].1));
                assert forall|j: int| 0 <= j < out@.len() implies self.systems().contains_key(
                    (#[trigger] out@[j]).0,
                ) by {
                    if j < before.len() {
                        assert(out@[j] == before[j]);
                    }
                }
            }
            i = i + 1;
        }
        assert(hits@.take(hits.len() as int) =~= hits@);
        out
    }

    /// Answers a radius query from the hits that the tree gave for it: the
    /// hits whose distance is at most the radius, in the order of the tree,
    /// each with the id of its system. `radius` and the distances of the hits
    /// are in the same unit.
    pub fn find_systems_within_radius(&self, hits: &Vec<TreeHit>, radius: RealBits) -> (results:
        Vec<(SystemId, RealBits)>)
        requires
            hits_in_range(self.slots(), hits@),
            radius <= INFINITY_BITS,
        ensures
            results@ == resolve(self.slots(), hits@.filter(within(radius))),
            forall|i: int|
                0 <= i < results@.len() ==> (#[trigger] results@[i]).1 <= radius
                    && self.systems().contains_key(results@[i].0),
    {
        let ghost keep = within(radius);
        let mut kept: Vec<TreeHit> = Vec::new();
        let mut i: usize = 0;
        proof {
            lemma_filter_none(hits@, keep);
        }
        while i < hits.len()
            invariant
                i <= hits.len(),
                keep == within(radius),
                hits_in_range(self.slots(), hits@),
                kept@ == hits@.take(i as int).filter(keep),
                hits_in_range(self.slots(), kept@),
                forall|j: int| 0 <= j < kept@.len() ==> (#[trigger] kept@[j]).distance <= radius,
            decreases hits.len() - i,
        {
            let hit = hits[i];
            proof {
                lemma_filter_next(hits@, i as int, keep);
            }
            if hit.distance <= radius {
                let ghost before = kept@;
                kept.push(hit);
                assert forall|j: int| 0 <= j < kept@.len() implies (#[trigger] kept@[j]).slot
                    < self.slots().len() && kept@[j].distance <= radius by {
                    if j < before.len() {
                        assert(kept@[j] == before[j]);
                    }
                }
            }
            i = i + 1;
        }
        assert(hits@.take(hits.len() as int) =~= hits@);
        let results = self.resolve_hits(&kept);
        assert forall|i: int| 0 <= i < results@.len() implies (#[trigger] results@[i]).1
            <= radius by {
            assert(kept@[i].distance <= radius);
        }
        results
    }

    /// Answers a nearest-neighbour query from the hits that the tree gave for
    /// it: the first `k` hits, or all if there are fewer, in order of
    /// distance, each with the id of its system. Hits at the same distance
    /// stay in the order of the tree; an answer of the tree that is in order
    /// already is given as it is. A request for none is answered with none.
    pub fn find_nearest_systems(&self, hits: &Vec<TreeHit>, k: usize) -> (results: Vec<
        (SystemId, RealBits),
    >)
        requires
            hits_in_range(self.slots(), hits@),
        ensures
            results@ == resolve(
                self.slots(),
                stable_sort(hits@.take(at_most(k as nat, hits@.len()) as int), by_distance()),
            ),
            results@.len() == at_most(k as nat, hits@.len()),
            distances_ascend(results@),
            sorted_by(hits@.take(at_most(k as nat, hits@.len()) as int), by_distance())
                ==> results@ == resolve(
                self.slots(),
                hits@.take(at_most(k as nat, hits@.len()) as int),
            ),
            forall|i: int|
                0 <= i < results@.len() ==> self.systems().contains_key((#[trigger] results@[i]).0),
    {
        let n = if k <= hits.len() {
            k
        } else {
            hits.len()
        };
        let ordered = order_hits(hits, n);
        proof {
            let first = hits@.take(n as int);
            lemma_by_distance();
            lemma_stable_sort(first, by_distance());
            assert forall|i: int| 0 <= i < ordered@.len() implies (#[trigger] ordered@[i]).slot
                < self.slots().len() by {
                lemma_stable_sort_contains(first, by_distance(), i);
                let j = choose|j: int| 0 <= j < first.len() && first[j] == ordered@[i];
                assert(first[j] == hits@[j]);
            }
            lemma_resolve_keeps_order(self.slots(), ordered@);
            if sorted_by(first, by_distance()) {
                lemma_stable_sort_of_sorted(first, by_distance());
            }
        }
        self.resolve_hits(&ordered)
    }
}

} // verus!
