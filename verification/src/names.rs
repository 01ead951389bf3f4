//! The name list of the index: one entry per system, ordered by lower-cased
//! name, and the linear scan that answers completion queries over it.

use crate::models::SystemId;
use crate::order::{
    insert_at, is_total, is_transitive, lemma_filter_sorted, lemma_insert_at_scan,
    lemma_stable_sort, sorted_by, stable_sort,
};
use crate::seqs::lemma_filter_prefix;
use crate::text::{
    is_substring, lemma_lex_le_total, lemma_lex_le_transitive, lex_le, lowercase, str_contains,
    str_le,
};
use vstd::prelude::*;

verus! {

/// One line of the name list.
#[derive(Debug, Clone)]
pub struct NameEntry {
    /// The lower-cased name, by which the list is ordered and searched.
    pub lower: String,
    /// The name as catalogued.
    pub name: String,
    pub id: SystemId,
}

/// An entry as plain values.
pub struct NameRow {
    pub lower: Seq<char>,
    pub name: Seq<char>,
    pub id: SystemId,
}

impl View for NameEntry {
    type V = NameRow;

    open spec fn view(&self) -> NameRow {
        NameRow { lower: self.lower@, name: self.name@, id: self.id }
    }
}

/// A list of entries as plain values.
pub open spec fn rows(list: Seq<NameEntry>) -> Seq<NameRow> {
    list.map_values(|e: NameEntry| e@)
}

/// A list of suggestions as plain values.
pub open spec fn suggestion_rows(list: Seq<(String, SystemId)>) -> Seq<(Seq<char>, SystemId)> {
    list.map_values(|s: (String, SystemId)| (s.0@, s.1))
}

/// The order of the name list: by lower-cased name.
pub open spec fn name_order() -> spec_fn(NameRow, NameRow) -> bool {
    |a: NameRow, b: NameRow| lex_le(a.lower, b.lower)
}

/// The keys of `s` never decrease from one entry to the next.
pub open spec fn is_sorted(s: Seq<NameRow>) -> bool {
    sorted_by(s, name_order())
}

/// The stable ordering of `s` by key: entries with equal keys keep the order
/// in which they came.
pub open spec fn sort_spec(s: Seq<NameRow>) -> Seq<NameRow> {
    stable_sort(s, name_order())
}

/// The test a completion query puts to an entry.
pub open spec fn name_filter(needle: Seq<char>) -> spec_fn(NameRow) -> bool {
    |e: NameRow| is_substring(needle, e.lower)
}

/// What a scan hands out for an entry.
pub open spec fn suggestion(e: NameRow) -> (Seq<char>, SystemId) {
    (e.name, e.id)
}

/// The first `limit` entries of `list` whose lower-cased name holds `needle`,
/// in list order, each as its catalogued name and id.
pub open spec fn scan_spec(list: Seq<NameRow>, needle: Seq<char>, limit: nat) -> Seq<
    (Seq<char>, SystemId),
> {
    let hits = list.filter(name_filter(needle));
    let n = if limit <= hits.len() {
        limit
    } else {
        hits.len()
    };
    hits.take(n as int).map_values(|e: NameRow| suggestion(e))
}

/// The order of the name list compares any two entries and is transitive.
pub proof fn lemma_name_order()
    ensures
        is_total(name_order()),
        is_transitive(name_order()),
{
    let le = name_order();
    assert forall|a: NameRow, b: NameRow| #[trigger] le(a, b) || le(b, a) by {
        lemma_lex_le_total(a.lower, b.lower);
    }
    assert forall|a: NameRow, b: NameRow, c: NameRow| #[trigger]
        le(a, b) && #[trigger] le(b, c) implies le(a, c) by {
        lemma_lex_le_transitive(a.lower, b.lower, c.lower);
    }
}

/// The ordering of a list is sorted and holds exactly the entries of the
/// list, each as often as the list does.
pub proof fn lemma_sort_spec(s: Seq<NameRow>)
    ensures
        is_sorted(sort_spec(s)),
        sort_spec(s).len() == s.len(),
        sort_spec(s).to_multiset() == s.to_multiset(),
{
    lemma_name_order();
    lemma_stable_sort(s, name_order());
}

/// `key` is the lower-case form of `name`.
pub open spec fn is_lowered(row: NameRow) -> bool {
    row.lower == lowercase(row.name)
}

/// What a scan of a sorted list with lowered keys finds: every name found
/// holds the needle once it is lower-cased, and the names found are in order
/// of their lower-case forms.
pub proof fn lemma_scan_of_sorted(list: Seq<NameRow>, needle: Seq<char>, limit: nat)
    requires
        is_sorted(list),
        forall|i: int| 0 <= i < list.len() ==> is_lowered(#[trigger] list[i]),
    ensures
        forall|i: int|
            0 <= i < scan_spec(list, needle, limit).len() ==> is_substring(
                needle,
                lowercase((#[trigger] scan_spec(list, needle, limit)[i]).0),
            ),
        forall|i: int, j: int|
            0 <= i <= j < scan_spec(list, needle, limit).len() ==> lex_le(
                lowercase((#[trigger] scan_spec(list, needle, limit)[i]).0),
                lowercase((#[trigger] scan_spec(list, needle, limit)[j]).0),
            ),
{
    broadcast use vstd::seq_lib::group_filter_ensures;

    let keep = name_filter(needle);
    let hits = list.filter(keep);
    let found = scan_spec(list, needle, limit);
    lemma_filter_sorted(list, keep, name_order());
    assert forall|i: int| 0 <= i < found.len() implies is_lowered(hits[i]) && keep(hits[i])
        && found[i] == suggestion(hits[i]) by {
        assert(list.contains(hits[i]));
        let k = choose|k: int| 0 <= k < list.len() && list[k] == hits[i];
        assert(is_lowered(list[k]));
    }
    assert forall|i: int, j: int| 0 <= i <= j < found.len() implies lex_le(
        lowercase((#[trigger] found[i]).0),
        lowercase((#[trigger] found[j]).0),
    ) by {
        assert(name_order()(hits[i], hits[j]));
    }
}

/// Orders a name list by lower-cased name. Entries with equal keys keep the
/// order in which they came. The list is built once; the time this takes
/// grows with the square of its length when it comes in no order at all.
pub fn sort_entries(entries: Vec<NameEntry>) -> (sorted: Vec<NameEntry>)
    ensures
        rows(sorted@) == sort_spec(rows(entries@)),
        is_sorted(rows(sorted@)),
        sorted@.len() == entries@.len(),
        rows(sorted@).to_multiset() == rows(entries@).to_multiset(),
{
    let mut out: Vec<NameEntry> = Vec::new();
    let ghost orig = rows(entries@);
    let ghost le = name_order();
    for e in it: entries
        invariant
            le == name_order(),
            rows(it.seq()) == orig,
            rows(out@) == stable_sort(orig.take(it.index() as int), le),
    {
        let ghost before = rows(out@);
        let mut p: usize = out.len();
        assert(before.take(p as int) =~= before);
        while p > 0 && !str_le(out[p - 1].lower.as_str(), e.lower.as_str())
            invariant
                p <= out.len(),
                le == name_order(),
                rows(out@) == before,
                insert_at(before, e@, le) == insert_at(before.take(p as int), e@, le),
            decreases p,
        {
            proof {
                assert(before[p - 1] == out@[p - 1]@);
                lemma_insert_at_scan(before, e@, le, p as int);
            }
            p = p - 1;
        }
        proof {
            if p > 0 {
                assert(before.take(p as int).last() == out@[p - 1]@);
            }
            assert(insert_at(before, e@, le) == p);
            let next = orig.take(it.index() + 1);
            assert(next.drop_last() =~= orig.take(it.index() as int));
            assert(next.last() == e@);
        }
        out.insert(p, e);
        assert(rows(out@) =~= before.insert(p as int, e@));
    }
    proof {
        assert(orig.take(orig.len() as int) =~= orig);
        lemma_sort_spec(orig);
    }
    out
}

/// Scans `list` from the front for entries whose lower-cased name holds
/// `needle`, and stops after `limit` of them.
pub fn scan_names(list: &Vec<NameEntry>, needle: &str, limit: usize) -> (found: Vec<
    (String, SystemId),
>)
    ensures
        suggestion_rows(found@) == scan_spec(rows(list@), needle@, limit as nat),
        found@.len() <= limit,
{
    let mut out: Vec<(String, SystemId)> = Vec::new();
    let ghost all = rows(list@);
    let ghost p = name_filter(needle@);
    let ghost pick = |e: NameRow| suggestion(e);
    let mut i: usize = 0;
    proof {
        reveal(Seq::filter);
        assert(all.take(0) =~= Seq::<NameRow>::empty());
        assert(suggestion_rows(out@) =~= all.take(0).filter(p).map_values(pick));
    }
    while i < list.len() && out.len() < limit
        invariant
            i <= list.len(),
            all == rows(list@),
            p == name_filter(needle@),
            pick == (|e: NameRow| suggestion(e)),
            out@.len() <= limit,
            suggestion_rows(out@) == all.take(i as int).filter(p).map_values(pick),
        decreases list.len() - i,
    {
        let entry = &list[i];
        proof {
            assert(all.take(i + 1) =~= all.take(i as int).push(all[i as int]));
            all.take(i as int).lemma_filter_push(all[i as int], p);
        }
        if str_contains(entry.lower.as_str(), needle) {
            let ghost seen = out@;
            out.push((entry.name.clone(), entry.id));
            assert(all[i as int] == list@[i as int]@);
            assert(suggestion_rows(out@) =~= suggestion_rows(seen).push(suggestion(all[i as int])));
            assert(all.take(i as int).filter(p).push(all[i as int]).map_values(pick)
                =~= all.take(i as int).filter(p).map_values(pick).push(pick(all[i as int])));
        }
        i = i + 1;
    }
    proof {
        let hits = all.filter(p);
        lemma_filter_prefix(all, i as int, p);
        if i == list.len() {
            assert(all.take(i as int) =~= all);
            assert(hits.take(hits.len() as int) =~= hits);
        }
        assert(suggestion_rows(out@) =~= scan_spec(all, needle@, limit as nat));
    }
    out
}

} // verus!
