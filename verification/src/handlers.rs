//! The rules of the request layer: how a query is checked, which systems of
//! an answer are reported, and what the response holds.
//!
//! Transport, parsing and the spatial tree are the caller's. A handler here
//! takes the parameters of a request and, where the request is spatial, the
//! hits that the tree gave for it, and returns the response or the failure.

use crate::error::{missing_record_text, ApiError, ApiErrorView};
use crate::models::{
    AutocompleteQuery, AutocompleteResponse, BulkSystemsQuery, BulkSystemsResponse,
    HealthResponse, NearbyQuery, TypeNameQuery,
    NearbySystemsResponse, NearestQuery, NearestSystemsResponse, Point3D, RealBits, SolarSystem,
    SystemId, SystemInfo, SystemMapData, SystemSuggestion,
};
use crate::names::{scan_spec, suggestion_rows};
use crate::seqs::{at_most, lemma_filter_next, lemma_filter_none, lemma_filter_prefix};
use crate::order::{lemma_filter_sorted, lemma_stable_sort, sorted_by, stable_sort};
use crate::query::{
    by_distance, distances_ascend, hits_in_range, lemma_by_distance, resolve, within, TreeHit,
    INFINITY_BITS,
};
use crate::spatial::SpatialIndex;
use crate::store::MAX_TYPE_NAMES;
use crate::text::{lowercase, trim, trimmed};
use vstd::string::StringExecFns;
use vstd::prelude::*;

verus! {

/// The number of suggestions given when a completion query names no limit.
pub const DEFAULT_SUGGESTIONS: usize = 10;

/// The largest number of suggestions ever given.
pub const MAX_SUGGESTIONS: usize = 50;

/// The number of type names asked of the store when a search names no limit.
pub const DEFAULT_TYPE_NAMES: usize = 50;

/// The number of systems on a page when a bulk query names no limit.
pub const DEFAULT_PAGE: usize = 1000;

/// The largest number of systems on a page.
pub const MAX_PAGE: usize = 5000;

/// A reported system as plain values.
pub struct SystemInfoView {
    pub id: u32,
    pub name: Option<Seq<char>>,
    pub center: Point3D,
    pub region_id: Option<u32>,
    pub constellation_id: Option<u32>,
    pub faction_id: Option<u32>,
    pub distance: Option<RealBits>,
}

impl View for SystemInfo {
    type V = SystemInfoView;

    open spec fn view(&self) -> SystemInfoView {
        SystemInfoView {
            id: self.id,
            name: match self.name {
                Some(text) => Some(text@),
                None => None,
            },
            center: self.center,
            region_id: self.region_id,
            constellation_id: self.constellation_id,
            faction_id: self.faction_id,
            distance: self.distance,
        }
    }
}

/// A list of reported systems as plain values.
pub open spec fn info_rows(list: Seq<SystemInfo>) -> Seq<SystemInfoView> {
    list.map_values(|info: SystemInfo| info@)
}

/// A list of suggestions as plain values: name and id.
pub open spec fn suggestion_views(list: Seq<SystemSuggestion>) -> Seq<(Seq<char>, SystemId)> {
    list.map_values(|s: SystemSuggestion| (s.name@, s.id))
}

/// A page of map data as plain values: id, name and position.
pub open spec fn map_rows(list: Seq<SystemMapData>) -> Seq<(u32, Seq<char>, Point3D)> {
    list.map_values(|d: SystemMapData| (d.id, d.name@, d.center))
}

/// The display name of an id, if it has one.
pub open spec fn label_of(index: SpatialIndex, id: u32) -> Option<Seq<char>> {
    if index.labels().contains_key(id) {
        Some(index.labels()[id])
    } else {
        None
    }
}

/// How a system is reported.
pub open spec fn system_info(
    id: SystemId,
    system: SolarSystem,
    name: Option<Seq<char>>,
    distance: Option<RealBits>,
) -> SystemInfoView {
    SystemInfoView {
        id,
        name,
        center: system.center,
        region_id: system.region_id,
        constellation_id: system.constellation_id,
        faction_id: system.metadata.faction_id,
        distance,
    }
}

/// The system that a request names: its id, or the reason why there is none.
pub open spec fn located(index: SpatialIndex, name: Seq<char>) -> Result<SystemId, ApiErrorView> {
    if !index.names().contains_key(name) {
        Err(ApiErrorView::SystemNotFound(name))
    } else if !index.systems().contains_key(index.names()[name]) {
        Err(ApiErrorView::InternalError(missing_record_text(index.names()[name])))
    } else {
        Ok(index.names()[name])
    }
}

/// The outcome of locating a system as plain values.
pub open spec fn located_view(r: Result<SystemId, ApiError>) -> Result<SystemId, ApiErrorView> {
    match r {
        Ok(id) => Ok(id),
        Err(e) => Err(e@),
    }
}

/// The test that leaves the centre of a query out of its answer.
pub open spec fn not_center(center: SystemId) -> spec_fn((SystemId, RealBits)) -> bool {
    |r: (SystemId, RealBits)| r.0 != center
}

/// The test that leaves out results without a record.
pub open spec fn has_record(index: SpatialIndex) -> spec_fn((SystemId, RealBits)) -> bool {
    |r: (SystemId, RealBits)| index.systems().contains_key(r.0)
}

/// How a result is reported.
pub open spec fn report_of(index: SpatialIndex) -> spec_fn((SystemId, RealBits)) -> SystemInfoView {
    |r: (SystemId, RealBits)|
        system_info(r.0, index.systems()[r.0], label_of(index, r.0), Some(r.1))
}

/// The systems reported for an answer: the centre is left out, of the rest
/// the first `limit` are kept, and of those the ones that have a record are
/// reported, in the order of the answer.
pub open spec fn reported(
    index: SpatialIndex,
    center: SystemId,
    results: Seq<(SystemId, RealBits)>,
    limit: nat,
) -> Seq<SystemInfoView> {
    let others = results.filter(not_center(center));
    others.take(at_most(limit, others.len()) as int).filter(has_record(index)).map_values(
        report_of(index),
    )
}

/// The limit that a completion query is answered with.
pub open spec fn suggestion_limit(limit: Option<usize>) -> nat {
    at_most(
        match limit {
            Some(n) => n as nat,
            None => DEFAULT_SUGGESTIONS as nat,
        },
        MAX_SUGGESTIONS as nat,
    )
}

/// The page size that a bulk query is answered with.
pub open spec fn page_limit(limit: Option<usize>) -> nat {
    at_most(
        match limit {
            Some(n) => n as nat,
            None => DEFAULT_PAGE as nat,
        },
        MAX_PAGE as nat,
    )
}

/// The offset that a bulk query is answered with.
pub open spec fn page_offset(offset: Option<usize>) -> nat {
    match offset {
        Some(n) => n as nat,
        None => 0,
    }
}

/// The ids on a page: `limit` ids from `offset` on, or as many as there are.
pub open spec fn page_ids(ids: Seq<SystemId>, offset: nat, limit: nat) -> Seq<SystemId> {
    let start = at_most(offset, ids.len());
    ids.subrange(start as int, (start + at_most(limit, (ids.len() - start) as nat)) as int)
}

/// The test that leaves out ids without a record or without a name.
pub open spec fn is_mappable(index: SpatialIndex) -> spec_fn(SystemId) -> bool {
    |id: SystemId| index.systems().contains_key(id) && index.labels().contains_key(id)
}

/// The map data of an id.
pub open spec fn map_data_of(index: SpatialIndex) -> spec_fn(SystemId) -> (
    u32,
    Seq<char>,
    Point3D,
) {
    |id: SystemId| (id, index.labels()[id], index.systems()[id].center)
}

/// The map data of a page of ids.
pub open spec fn page_rows(index: SpatialIndex, ids: Seq<SystemId>, offset: nat, limit: nat) -> Seq<
    (u32, Seq<char>, Point3D),
> {
    page_ids(ids, offset, limit).filter(is_mappable(index)).map_values(map_data_of(index))
}

/// The smaller of two numbers.
fn smaller(a: usize, b: usize) -> (m: usize)
    ensures
        m == at_most(a as nat, b as nat),
{
    if a <= b {
        a
    } else {
        b
    }
}

/// Finds the system that a request names.
pub fn locate(index: &SpatialIndex, name: &str) -> (found: Result<SystemId, ApiError>)
    ensures
        located_view(found) == located(*index, name@),
{
    match index.find_system_by_name(name) {
        None => Err(ApiError::SystemNotFound(name.to_owned())),
        Some(id) => match index.get_system(id) {
            None => Err(ApiError::missing_record(id)),
            Some(_) => Ok(id),
        },
    }
}

/// Reports one system.
pub fn describe(
    index: &SpatialIndex,
    id: SystemId,
    system: &SolarSystem,
    distance: Option<RealBits>,
) -> (info: SystemInfo)
    ensures
        info@ == system_info(id, *system, label_of(*index, id), distance),
{
    let name = match index.get_system_name(id) {
        Some(text) => Some(text.clone()),
        None => None,
    };
    SystemInfo {
        id,
        name,
        center: system.center,
        region_id: system.region_id,
        constellation_id: system.constellation_id,
        faction_id: system.metadata.faction_id,
        distance,
    }
}

/// Reports the systems of an answer other than its centre, at most `limit`
/// of them before those without a record are dropped.
pub fn report_others(
    index: &SpatialIndex,
    center: SystemId,
    results: &Vec<(SystemId, RealBits)>,
    limit: usize,
) -> (infos: Vec<SystemInfo>)
    ensures
        info_rows(infos@) == reported(*index, center, results@, limit as nat),
{
    let mut out: Vec<SystemInfo> = Vec::new();
    let mut taken: usize = 0;
    let mut i: usize = 0;
    let ghost nc = not_center(center);
    let ghost hr = has_record(*index);
    let ghost rep = report_of(*index);
    proof {
        lemma_filter_none(results@, nc);
        lemma_filter_none(results@.take(0).filter(nc), hr);
        assert(results@.take(0).filter(nc).take(0) =~= results@.take(0).filter(nc));
        assert(info_rows(out@) =~= results@.take(0).filter(nc).filter(hr).map_values(rep));
    }
    while i < results.len() && taken < limit
        invariant
            i <= results.len(),
            taken <= limit,
            nc == not_center(center),
            hr == has_record(*index),
            rep == report_of(*index),
            taken == results@.take(i as int).filter(nc).len(),
            info_rows(out@) == results@.take(i as int).filter(nc).filter(hr).map_values(rep),
        decreases results.len() - i,
    {
        let (id, distance) = results[i];
        let ghost seen = results@.take(i as int).filter(nc);
        let ghost shown = out@;
        proof {
            lemma_filter_next(results@, i as int, nc);
        }
        if id != center {
            proof {
                seen.lemma_filter_push(results@[i as int], hr);
            }
            taken = taken + 1;
            match index.get_system(id) {
                Some(system) => {
                    out.push(describe(index, id, system, Some(distance)));
                    assert(info_rows(out@) =~= info_rows(shown).push(rep(results@[i as int])));
                    assert(seen.filter(hr).push(results@[i as int]).map_values(rep)
                        =~= seen.filter(hr).map_values(rep).push(rep(results@[i as int])));
                },
                None => {},
            }
        }
        i = i + 1;
    }
    proof {
        let others = results@.filter(nc);
        let seen = results@.take(i as int).filter(nc);
        lemma_filter_prefix(results@, i as int, nc);
        if i == results.len() {
            assert(results@.take(i as int) =~= results@);
            assert(others.take(others.len() as int) =~= others);
        }
        assert(others.take(at_most(limit as nat, others.len()) as int) == seen);
    }
    out
}

/// The failure for a radius that is no number or negative.
pub open spec fn bad_radius() -> ApiErrorView {
    ApiErrorView::InvalidInput("Radius must be a number that is not negative"@)
}

/// The distances of a list of reported systems never decrease.
pub open spec fn reports_ascend(infos: Seq<SystemInfoView>) -> bool {
    forall|i: int, j: int|
        0 <= i <= j < infos.len() ==> (#[trigger] infos[i]).distance is Some && (
        #[trigger] infos[j]).distance is Some && infos[i].distance->Some_0
            <= infos[j].distance->Some_0
}

/// The order of results by distance.
pub open spec fn by_result_distance() -> spec_fn((SystemId, RealBits), (SystemId, RealBits)) -> bool {
    |a: (SystemId, RealBits), b: (SystemId, RealBits)| a.1 <= b.1
}

/// `info` is the report of one of the results.
pub open spec fn comes_from(
    index: SpatialIndex,
    results: Seq<(SystemId, RealBits)>,
    info: SystemInfoView,
) -> bool {
    exists|j: int| 0 <= j < results.len() && info == report_of(index)(#[trigger] results[j])
}

/// Every reported system comes from a result, with the distance of that
/// result; and the reports of results in order of distance are in order of
/// distance.
pub proof fn lemma_reported(
    index: SpatialIndex,
    center: SystemId,
    results: Seq<(SystemId, RealBits)>,
    limit: nat,
)
    ensures
        forall|i: int|
            0 <= i < reported(index, center, results, limit).len() ==> comes_from(
                index,
                results,
                #[trigger] reported(index, center, results, limit)[i],
            ),
        distances_ascend(results) ==> reports_ascend(reported(index, center, results, limit)),
{
    let le = by_result_distance();
    let others = results.filter(not_center(center));
    let first = others.take(at_most(limit, others.len()) as int);
    let kept = first.filter(has_record(index));
    let out = reported(index, center, results, limit);
    assert(sorted_by(Seq::<(SystemId, RealBits)>::empty(), le));
    if distances_ascend(results) {
        assert(sorted_by(results, le));
    }
    assert forall|i: int| 0 <= i < out.len() implies comes_from(index, results, #[trigger] out[i]) by {
        broadcast use vstd::seq_lib::group_filter_ensures;

        assert(out[i] == report_of(index)(kept[i]));
        first.lemma_filter_contains_rev(has_record(index), kept[i]);
        let a = choose|a: int| 0 <= a < first.len() && first[a] == kept[i];
        assert(others[a] == kept[i]);
        results.lemma_filter_contains_rev(not_center(center), kept[i]);
        let j = choose|j: int| 0 <= j < results.len() && results[j] == kept[i];
        assert(out[i] == report_of(index)(results[j]));
    }
    if distances_ascend(results) {
        lemma_filter_sorted(results, not_center(center), le);
        assert forall|i: int, j: int| 0 <= i <= j < first.len() implies le(first[i], first[j]) by {
            assert(first[i] == others[i] && first[j] == others[j]);
        }
        lemma_filter_sorted(first, has_record(index), le);
        assert forall|i: int, j: int| 0 <= i <= j < out.len() implies (#[trigger] out[i]).distance
            is Some && (#[trigger] out[j]).distance is Some && out[i].distance->Some_0
            <= out[j].distance->Some_0 by {
            assert(out[i] == report_of(index)(kept[i]));
            assert(out[j] == report_of(index)(kept[j]));
            assert(le(kept[i], kept[j]));
        }
    }
}

/// Answers a radius query around a named system. `hits` is what the tree gave
/// for the position of that system and the radius, perhaps with some hits
/// beyond the radius; the radius and the distances of the hits are in the
/// same unit. Every system reported lies within the radius.
pub fn systems_near(index: &SpatialIndex, query: &NearbyQuery, hits: &Vec<TreeHit>) -> (response:
    Result<NearbySystemsResponse, ApiError>)
    requires
        hits_in_range(index.slots(), hits@),
    ensures
        located(*index, query.name@) matches Err(e) ==> (response matches Err(f) && f@ == e),
        located(*index, query.name@) is Ok && query.radius > INFINITY_BITS ==> (response matches Err(
            f,
        ) && f@ == bad_radius()),
        located(*index, query.name@) matches Ok(center) ==> (query.radius <= INFINITY_BITS ==> (
        response matches Ok(r) && {
            &&& r.center_system@ == system_info(
                center,
                index.systems()[center],
                Some(query.name@),
                Some(0u64),
            )
            &&& info_rows(r.nearby_systems@) == reported(
                *index,
                center,
                resolve(index.slots(), hits@.filter(within(query.radius))),
                hits@.filter(within(query.radius)).len(),
            )
            &&& forall|i: int|
                0 <= i < r.nearby_systems@.len() ==> (#[trigger] r.nearby_systems@[i]).distance
                    is Some && r.nearby_systems@[i].distance->Some_0 <= query.radius
            &&& r.radius == query.radius
            &&& r.total_found == r.nearby_systems@.len()
        })),
{
    let center = match locate(index, query.name.as_str()) {
        Err(e) => {
            return Err(e);
        },
        Ok(id) => id,
    };
    let record = match index.get_system(center) {
        None => {
            return Err(ApiError::missing_record(center));
        },
        Some(system) => system,
    };
    if query.radius > INFINITY_BITS {
        return Err(
            ApiError::InvalidInput(
                String::from_str("Radius must be a number that is not negative"),
            ),
        );
    }
    let results = index.find_systems_within_radius(hits, query.radius);
    let center_system = SystemInfo {
        id: center,
        name: Some(query.name.clone()),
        center: record.center,
        region_id: record.region_id,
        constellation_id: record.constellation_id,
        faction_id: record.metadata.faction_id,
        distance: Some(0),
    };
    let nearby_systems = report_others(index, center, &results, results.len());
    let total_found = nearby_systems.len();
    proof {
        let out = reported(*index, center, results@, results@.len());
        lemma_reported(*index, center, results@, results@.len());
        assert forall|i: int| 0 <= i < nearby_systems@.len() implies (
        #[trigger] nearby_systems@[i]).distance is Some && nearby_systems@[i].distance->Some_0
            <= query.radius by {
            assert(info_rows(nearby_systems@)[i] == nearby_systems@[i]@);
            assert(comes_from(*index, results@, out[i]));
            let j = choose|j: int|
                0 <= j < results@.len() && out[i] == report_of(*index)(#[trigger] results@[j]);
            assert(results@[j].1 <= query.radius);
        }
    }
    Ok(NearbySystemsResponse { center_system, nearby_systems, radius: query.radius, total_found })
}

/// The hits that a nearest-neighbour query for `k` other systems looks at:
/// the first `k` and one, the system itself being among its own neighbours,
/// in order of distance.
pub open spec fn nearest_hits(hits: Seq<TreeHit>, k: usize) -> Seq<TreeHit> {
    stable_sort(hits.take(at_most((k + 1) as nat, hits.len()) as int), by_distance())
}

/// Answers a nearest-neighbour query around a named system. `hits` is what
/// the tree gave for the position of that system and one neighbour more than
/// asked for. At most `k` systems are reported, nearest first.
pub fn systems_nearest(index: &SpatialIndex, query: &NearestQuery, hits: &Vec<TreeHit>) -> (response:
    Result<NearestSystemsResponse, ApiError>)
    requires
        hits_in_range(index.slots(), hits@),
    ensures
        located(*index, query.name@) matches Err(e) ==> (response matches Err(f) && f@ == e),
        located(*index, query.name@) matches Ok(center) ==> (response matches Ok(r) && {
            &&& r.center_system@ == system_info(
                center,
                index.systems()[center],
                Some(query.name@),
                Some(0u64),
            )
            &&& info_rows(r.nearest_systems@) == reported(
                *index,
                center,
                resolve(index.slots(), nearest_hits(hits@, query.k)),
                query.k as nat,
            )
            &&& reports_ascend(info_rows(r.nearest_systems@))
            &&& r.nearest_systems@.len() <= query.k
            &&& r.k == query.k
        }),
{
    let center = match locate(index, query.name.as_str()) {
        Err(e) => {
            return Err(e);
        },
        Ok(id) => id,
    };
    let record = match index.get_system(center) {
        None => {
            return Err(ApiError::missing_record(center));
        },
        Some(system) => system,
    };
    let wanted = if query.k < usize::MAX {
        query.k + 1
    } else {
        query.k
    };
    let available = hits.len();
    assert(at_most(wanted as nat, hits@.len()) == at_most((query.k + 1) as nat, hits@.len()));
    let results = index.find_nearest_systems(hits, wanted);
    let center_system = SystemInfo {
        id: center,
        name: Some(query.name.clone()),
        center: record.center,
        region_id: record.region_id,
        constellation_id: record.constellation_id,
        faction_id: record.metadata.faction_id,
        distance: Some(0),
    };
    let nearest_systems = report_others(index, center, &results, query.k);
    proof {
        let others = results@.filter(not_center(center));
        let kept = others.take(at_most(query.k as nat, others.len()) as int);
        kept.lemma_filter_len(has_record(*index));
        assert(kept.len() <= query.k);
        assert(info_rows(nearest_systems@).len() == nearest_systems@.len());
        assert(info_rows(nearest_systems@).len() == kept.filter(has_record(*index)).len());
        lemma_reported(*index, center, results@, query.k as nat);
    }
    Ok(NearestSystemsResponse { center_system, nearest_systems, k: query.k })
}

/// The number of neighbours to ask the tree for when `k` other systems are
/// wanted: one more, for the system itself.
pub fn neighbours_to_request(k: usize) -> (n: usize)
    requires
        k < usize::MAX,
    ensures
        n == k + 1,
{
    k + 1
}

/// Answers a completion query.
pub fn systems_autocomplete(index: &SpatialIndex, query: &AutocompleteQuery) -> (response:
    AutocompleteResponse)
    ensures
        suggestion_views(response.suggestions@) == scan_spec(
            index.name_list(),
            lowercase(query.q@),
            suggestion_limit(query.limit),
        ),
        forall|i: int|
            0 <= i < response.suggestions@.len() ==> (#[trigger] response.suggestions@[i]).region_name
                is None && response.suggestions@[i].constellation_name is None,
        response.query@ == query.q@,
{
    let asked = match query.limit {
        Some(n) => n,
        None => DEFAULT_SUGGESTIONS,
    };
    let limit = smaller(asked, MAX_SUGGESTIONS);
    let found = index.autocomplete_systems(query.q.as_str(), limit);
    let mut suggestions: Vec<SystemSuggestion> = Vec::new();
    let mut i: usize = 0;
    while i < found.len()
        invariant
            i <= found.len(),
            suggestion_views(suggestions@) == suggestion_rows(found@).take(i as int),
            forall|j: int|
                0 <= j < suggestions@.len() ==> (#[trigger] suggestions@[j]).region_name is None
                    && suggestions@[j].constellation_name is None,
        decreases found.len() - i,
    {
        let ghost before = suggestions@;
        suggestions.push(
            SystemSuggestion {
                id: found[i].1,
                name: found[i].0.clone(),
                region_name: None,
                constellation_name: None,
            },
        );
        assert(suggestion_views(suggestions@) =~= suggestion_views(before).push(
            (found@[i as int].0@, found@[i as int].1),
        ));
        assert(suggestion_rows(found@).take(i + 1) =~= suggestion_rows(found@).take(i as int).push(
            suggestion_rows(found@)[i as int],
        ));
        i = i + 1;
    }
    assert(suggestion_rows(found@).take(found@.len() as int) =~= suggestion_rows(found@));
    AutocompleteResponse { suggestions, query: query.q.clone() }
}

/// The map data of one page of a list of ids. Ids without a record or
/// without a name are left out of the page.
pub fn page_of(index: &SpatialIndex, ids: &Vec<SystemId>, offset: usize, limit: usize) -> (page:
    Vec<SystemMapData>)
    ensures
        map_rows(page@) == page_rows(*index, ids@, offset as nat, limit as nat),
{
    let start = smaller(offset, ids.len());
    let count = smaller(limit, ids.len() - start);
    let end = start + count;
    let ghost wanted = ids@.subrange(start as int, end as int);
    let ghost keep = is_mappable(*index);
    let ghost data = map_data_of(*index);
    let mut out: Vec<SystemMapData> = Vec::new();
    let mut i: usize = start;
    proof {
        lemma_filter_none(wanted, keep);
        assert(map_rows(out@) =~= wanted.take(0).filter(keep).map_values(data));
    }
    while i < end
        invariant
            start <= i <= end <= ids.len(),
            wanted == ids@.subrange(start as int, end as int),
            keep == is_mappable(*index),
            data == map_data_of(*index),
            map_rows(out@) == wanted.take(i - start).filter(keep).map_values(data),
        decreases end - i,
    {
        let id = ids[i];
        let ghost shown = out@;
        proof {
            lemma_filter_next(wanted, i - start, keep);
            assert(wanted[i - start] == id);
        }
        match index.get_system(id) {
            Some(system) => match index.get_system_name(id) {
                Some(name) => {
                    out.push(SystemMapData { id, name: name.clone(), center: system.center });
                    assert(map_rows(out@) =~= map_rows(shown).push(data(id)));
                    assert(wanted.take(i - start).filter(keep).push(id).map_values(data)
                        =~= wanted.take(i - start).filter(keep).map_values(data).push(data(id)));
                },
                None => {},
            },
            None => {},
        }
        i = i + 1;
    }
    assert(wanted.take(end - start) =~= wanted);
    out
}

/// Answers a bulk query: one page of all systems. The order in which the
/// systems are paged is the order in which the index lists their ids, which
/// is not specified; the page is the page of some such listing.
pub fn systems_bulk(index: &SpatialIndex, query: &BulkSystemsQuery) -> (response:
    BulkSystemsResponse)
    ensures
        response.limit == page_limit(query.limit),
        response.offset == page_offset(query.offset),
        response.total_count == index.systems().dom().len(),
        exists|ids: Seq<SystemId>|
            ids.no_duplicates() && ids.to_set() == index.systems().dom() && #[trigger] page_rows(
                *index,
                ids,
                page_offset(query.offset),
                page_limit(query.limit),
            ) == map_rows(response.systems@),
{
    let asked = match query.limit {
        Some(n) => n,
        None => DEFAULT_PAGE,
    };
    let limit = smaller(asked, MAX_PAGE);
    let offset = match query.offset {
        Some(n) => n,
        None => 0,
    };
    let ids = index.get_all_system_ids();
    let total_count = ids.len();
    proof {
        ids@.unique_seq_to_set();
    }
    let systems = page_of(index, &ids, offset, limit);
    assert(page_rows(*index, ids@, page_offset(query.offset), page_limit(query.limit)) == map_rows(
        systems@,
    ));
    BulkSystemsResponse { systems, total_count, offset, limit }
}

/// The limit that a search for type names is put to the store with.
pub open spec fn type_name_limit(limit: Option<usize>) -> nat {
    at_most(
        match limit {
            Some(n) => n as nat,
            None => DEFAULT_TYPE_NAMES as nat,
        },
        MAX_TYPE_NAMES as nat,
    )
}

/// The failure for a search without a query.
pub open spec fn empty_query() -> ApiErrorView {
    ApiErrorView::InvalidInput("Query parameter 'q' cannot be empty"@)
}

/// Checks a search whose query has been stripped of white space already:
/// an empty query is refused, any other is put to the store with its limit.
pub fn check_type_name_search(stripped: &str, limit: Option<usize>) -> (checked: Result<
    usize,
    ApiError,
>)
    ensures
        stripped@.len() == 0 ==> (checked matches Err(e) && e@ == empty_query()),
        stripped@.len() != 0 ==> (checked matches Ok(n) && n == type_name_limit(limit)),
{
    if stripped.is_empty() {
        return Err(
            ApiError::InvalidInput(String::from_str("Query parameter 'q' cannot be empty")),
        );
    }
    let asked = match limit {
        Some(n) => n,
        None => DEFAULT_TYPE_NAMES,
    };
    Ok(smaller(asked, MAX_TYPE_NAMES))
}

/// Checks a search for type names: a query that is empty or all white space
/// is refused, any other is put to the store with the limit returned.
pub fn search_type_names(query: &TypeNameQuery) -> (checked: Result<usize, ApiError>)
    ensures
        trimmed(query.q@).len() == 0 ==> (checked matches Err(e) && e@ == empty_query()),
        trimmed(query.q@).len() != 0 ==> (checked matches Ok(n) && n == type_name_limit(
            query.limit,
        )),
{
    check_type_name_search(trim(query.q.as_str()), query.limit)
}

/// The answer to a health check.
pub fn health_check(version: &str) -> (response: HealthResponse)
    ensures
        response.status@ == "ok"@,
        response.service@ == "stellar-cartography"@,
        response.version@ == version@,
{
    HealthResponse {
        status: String::from_str("ok"),
        service: String::from_str("stellar-cartography"),
        version: String::from_str(version),
    }
}

} // verus!
