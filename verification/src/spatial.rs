//! The catalogue index: the tables that answer lookups by id and by name, the
//! ordered name list for completion, and the slot table that maps the results
//! of a spatial tree back to system ids.
//!
//! The tree itself is not part of this module. It stores one point per system
//! under a dense slot number; the index assigns those numbers when it is built
//! and resolves them again when the tree has answered a query.

use crate::fxmap::{
    fx_get, fx_insert, fx_keys, fx_len, fx_new, name_table, names_get, names_insert, names_new,
};
use crate::models::{
    Constellation, ConstellationMetadata, Point3D, Region, SolarSystem, SystemId,
};
use crate::names::{
    is_lowered, is_sorted, lemma_name_order, lemma_scan_of_sorted, name_order, rows, scan_names,
    scan_spec, sort_entries, sort_spec, suggestion_rows, NameEntry, NameRow,
};
use crate::order::lemma_stable_sort_contains;
use crate::text::{is_substring, lex_le, lowercase, to_lowercase};
use rustc_hash::FxHashMap;
use vstd::prelude::*;

verus! {

/// A system as the catalogue store hands it over: id, record and name.
pub type SystemRecord = (SystemId, SolarSystem, String);

/// A region as the catalogue store hands it over: id and name.
pub type RegionRecord = (u32, String);

/// A constellation as the catalogue store hands it over: id, name and the id
/// of its region.
pub type ConstellationRecord = (u32, String, u32);

/// The map that results from binding the pairs in order onto `base`: where a
/// key comes more than once, its last value stays.
pub open spec fn insert_all<K, V>(base: Map<K, V>, pairs: Seq<(K, V)>) -> Map<K, V>
    decreases pairs.len(),
{
    if pairs.len() == 0 {
        base
    } else {
        insert_all(base, pairs.drop_last()).insert(pairs.last().0, pairs.last().1)
    }
}

/// Binding one pair more is one insertion more.
pub proof fn lemma_insert_all_step<K, V>(base: Map<K, V>, pairs: Seq<(K, V)>, i: int)
    requires
        0 <= i < pairs.len(),
    ensures
        insert_all(base, pairs.take(i + 1)) == insert_all(base, pairs.take(i)).insert(
            pairs[i].0,
            pairs[i].1,
        ),
{
    assert(pairs.take(i + 1).drop_last() =~= pairs.take(i));
}

/// The keys after binding are the keys of `base` and those of the pairs.
pub proof fn lemma_insert_all_dom<K, V>(base: Map<K, V>, pairs: Seq<(K, V)>, key: K)
    ensures
        insert_all(base, pairs).contains_key(key) <==> base.contains_key(key) || exists|i: int|
            0 <= i < pairs.len() && (#[trigger] pairs[i]).0 == key,
    decreases pairs.len(),
{
    if pairs.len() > 0 {
        let front = pairs.drop_last();
        lemma_insert_all_dom(base, front, key);
        if insert_all(base, pairs).contains_key(key) {
            if pairs.last().0 == key {
                assert(pairs[pairs.len() - 1].0 == key);
            } else if !base.contains_key(key) {
                let i = choose|i: int| 0 <= i < front.len() && (#[trigger] front[i]).0 == key;
                assert(pairs[i].0 == key);
            }
        } else {
            if exists|i: int| 0 <= i < pairs.len() && (#[trigger] pairs[i]).0 == key {
                let i = choose|i: int| 0 <= i < pairs.len() && (#[trigger] pairs[i]).0 == key;
                assert(front[i].0 == key);
            }
        }
    }
}

/// The id and record of each system, in catalogue order.
pub open spec fn system_pairs(records: Seq<SystemRecord>) -> Seq<(SystemId, SolarSystem)> {
    records.map_values(|r: SystemRecord| (r.0, r.1))
}

/// The name and id of each system, in catalogue order.
pub open spec fn name_pairs(records: Seq<SystemRecord>) -> Seq<(Seq<char>, SystemId)> {
    records.map_values(|r: SystemRecord| (r.2@, r.0))
}

/// The id and name of each system, in catalogue order.
pub open spec fn system_labels(records: Seq<SystemRecord>) -> Seq<(u32, Seq<char>)> {
    records.map_values(|r: SystemRecord| (r.0, r.2@))
}

/// The id and name of each region.
pub open spec fn region_labels(regions: Seq<RegionRecord>) -> Seq<(u32, Seq<char>)> {
    regions.map_values(|r: RegionRecord| (r.0, r.1@))
}

/// The id of each region, bound to nothing.
pub open spec fn region_keys(regions: Seq<RegionRecord>) -> Seq<(u32, ())> {
    regions.map_values(|r: RegionRecord| (r.0, ()))
}

/// The id and name of each constellation.
pub open spec fn constellation_labels(constellations: Seq<ConstellationRecord>) -> Seq<
    (u32, Seq<char>),
> {
    constellations.map_values(|r: ConstellationRecord| (r.0, r.1@))
}

/// The id of each constellation with its name and the id of its region.
pub open spec fn constellation_pairs(constellations: Seq<ConstellationRecord>) -> Seq<
    (u32, (Seq<char>, u32)),
> {
    constellations.map_values(|r: ConstellationRecord| (r.0, (r.1@, r.2)))
}

/// The display names of everything catalogued. Systems, regions and
/// constellations share one id space; a later name replaces an earlier one.
pub open spec fn all_labels(
    records: Seq<SystemRecord>,
    regions: Seq<RegionRecord>,
    constellations: Seq<ConstellationRecord>,
) -> Map<u32, Seq<char>> {
    insert_all(
        insert_all(insert_all(Map::empty(), system_labels(records)), region_labels(regions)),
        constellation_labels(constellations),
    )
}

/// The slot table of a catalogue: slot `i` holds the position and id of the
/// `i`-th system.
pub open spec fn slot_table(records: Seq<SystemRecord>) -> Seq<(Point3D, SystemId)> {
    records.map_values(|r: SystemRecord| (r.1.center, r.0))
}

/// The name list of a catalogue before it is ordered.
pub open spec fn name_rows(records: Seq<SystemRecord>) -> Seq<NameRow> {
    records.map_values(
        |r: SystemRecord| NameRow { lower: lowercase(r.2@), name: r.2@, id: r.0 },
    )
}

/// A region of which only the id and the name are known.
pub open spec fn is_blank_region(r: Region) -> bool {
    &&& r.solar_system_ids@.len() == 0
    &&& r.neighbours@.len() == 0
    &&& r.center == Point3D { x: 0, y: 0, z: 0 }
    &&& r.constellation_ids@.len() == 0
}

/// A constellation of which only id, name and region are known.
pub open spec fn is_plain_constellation(c: Constellation, id: u32) -> bool {
    &&& c.id == id
    &&& c.solar_system_ids@.len() == 0
    &&& c.metadata.faction_id is None
    &&& c.metadata.sovereignty is None
}

/// Name and region of a constellation.
pub open spec fn constellation_row(c: Constellation) -> (Seq<char>, u32) {
    (c.name@, c.region_id)
}

/// A table of display names as plain values.
pub open spec fn label_view(m: Map<u32, String>) -> Map<u32, Seq<char>> {
    m.map_values(|s: String| s@)
}

/// A table of constellations, each as its name and region.
pub open spec fn constellation_view(m: Map<u32, Constellation>) -> Map<u32, (Seq<char>, u32)> {
    m.map_values(|c: Constellation| constellation_row(c))
}

/// The immutable snapshot of the catalogue.
#[derive(Debug)]
pub struct SpatialIndex {
    systems: FxHashMap<SystemId, SolarSystem>,
    system_names: FxHashMap<String, SystemId>,
    regions: FxHashMap<u32, Region>,
    constellations: FxHashMap<u32, Constellation>,
    localized_names: FxHashMap<u32, String>,
    system_name_list: Vec<NameEntry>,
    system_positions: Vec<(Point3D, SystemId)>,
}

impl SpatialIndex {
    /// The record stored under each system id.
    pub closed spec fn systems(&self) -> Map<SystemId, SolarSystem> {
        self.systems@
    }

    /// The id stored under each system name.
    pub closed spec fn names(&self) -> Map<Seq<char>, SystemId> {
        name_table(self.system_names)
    }

    /// The display name stored under each id.
    pub closed spec fn labels(&self) -> Map<u32, Seq<char>> {
        label_view(self.localized_names@)
    }

    /// The region stored under each region id.
    pub closed spec fn regions(&self) -> Map<u32, Region> {
        self.regions@
    }

    /// The constellation stored under each constellation id.
    pub closed spec fn constellations(&self) -> Map<u32, Constellation> {
        self.constellations@
    }

    /// The name list, as plain values.
    pub closed spec fn name_list(&self) -> Seq<NameRow> {
        rows(self.system_name_list@)
    }

    /// The slot table: position and id of the system in each slot.
    pub closed spec fn slots(&self) -> Seq<(Point3D, SystemId)> {
        self.system_positions@
    }

    /// What holds of every index: the name list is ordered by lower-cased
    /// name and each of its keys is the lower-case form of its name; every
    /// slot and every name leads to a system with a record, and every such
    /// system has a display name; regions are blank, and each constellation
    /// is stored under its own id.
    pub open spec fn wf(&self) -> bool {
        &&& is_sorted(self.name_list())
        &&& forall|i: int|
            0 <= i < self.name_list().len() ==> (#[trigger] self.name_list()[i]).lower
                == lowercase(self.name_list()[i].name)
        &&& forall|i: int|
            0 <= i < self.slots().len() ==> self.systems().contains_key(
                (#[trigger] self.slots()[i]).1,
            )
        &&& forall|name: Seq<char>| #[trigger]
            self.names().contains_key(name) ==> self.systems().contains_key(self.names()[name])
        &&& forall|id: u32| #[trigger]
            self.systems().contains_key(id) ==> self.labels().contains_key(id)
        &&& forall|id: u32| #[trigger]
            self.regions().contains_key(id) ==> is_blank_region(self.regions()[id])
        &&& forall|id: u32| #[trigger]
            self.constellations().contains_key(id) ==> is_plain_constellation(
                self.constellations()[id],
                id,
            )
    }

    #[verifier::type_invariant]
    spec fn inv(&self) -> bool {
        self.wf()
    }

    /// Tells a verified caller that this index is well formed, as every
    /// index is. Does nothing at run time.
    pub fn well_formed(&self)
        ensures
            self.wf(),
    {
        proof {
            use_type_invariant(self);
        }
    }

    /// Builds the index from what the catalogue store delivered.
    ///
    /// Systems get their slots in the order given. Where an id or a name comes
    /// twice, the later row replaces the earlier one in the tables; the slot
    /// table and the name list keep both.
    pub fn load_from_database(
        systems: Vec<SystemRecord>,
        regions: Vec<RegionRecord>,
        constellations: Vec<ConstellationRecord>,
    ) -> (index: SpatialIndex)
        ensures
            index.wf(),
            index.slots() == slot_table(systems@),
            index.systems() == insert_all(Map::empty(), system_pairs(systems@)),
            forall|i: int|
                0 <= i < systems@.len() ==> index.systems().contains_key((#[trigger] systems@[i]).0),
            index.names() == insert_all(Map::empty(), name_pairs(systems@)),
            index.labels() == all_labels(systems@, regions@, constellations@),
            index.regions().dom() == insert_all(Map::empty(), region_keys(regions@)).dom(),
            constellation_view(index.constellations()) == insert_all(
                Map::empty(),
                constellation_pairs(constellations@),
            ),
            index.name_list() == sort_spec(name_rows(systems@)),
    {
        let mut system_map: FxHashMap<SystemId, SolarSystem> = fx_new();
        let mut system_names: FxHashMap<String, SystemId> = names_new();
        let mut localized_names: FxHashMap<u32, String> = fx_new();
        let mut entries: Vec<NameEntry> = Vec::new();
        let mut system_positions: Vec<(Point3D, SystemId)> = Vec::new();
        let ghost recs = systems@;
        proof {
            assert(system_map@ =~= Map::empty());
            assert(name_table(system_names) =~= Map::empty());
            assert(label_view(localized_names@) =~= Map::empty());
            assert(system_positions@ =~= slot_table(recs).take(0));
            assert(rows(entries@) =~= name_rows(recs).take(0));
        }
        for record in it: systems
            invariant
                it.seq() == recs,
                system_positions@ == slot_table(recs).take(it.index() as int),
                system_map@ == insert_all(Map::empty(), system_pairs(recs).take(it.index() as int)),
                name_table(system_names) == insert_all(
                    Map::empty(),
                    name_pairs(recs).take(it.index() as int),
                ),
                label_view(localized_names@) == insert_all(
                    Map::empty(),
                    system_labels(recs).take(it.index() as int),
                ),
                rows(entries@) == name_rows(recs).take(it.index() as int),
                forall|k: int|
                    0 <= k < system_positions@.len() ==> system_map@.contains_key(
                        (#[trigger] system_positions@[k]).1,
                    ),
                forall|name: Seq<char>| #[trigger]
                    name_table(system_names).contains_key(name) ==> system_map@.contains_key(
                        name_table(system_names)[name],
                    ),
                forall|id: u32| #[trigger]
                    system_map@.contains_key(id) ==> label_view(localized_names@).contains_key(id),
        {
            let ghost i = it.index() as int;
            let ghost old_labels = localized_names@;
            let ghost old_entries = entries@;
            let ghost old_positions = system_positions@;
            let (id, system, name) = record;
            proof {
                lemma_insert_all_step(Map::empty(), system_pairs(recs), i);
                lemma_insert_all_step(Map::empty(), name_pairs(recs), i);
                lemma_insert_all_step(Map::empty(), system_labels(recs), i);
            }
            system_positions.push((system.center, id));
            fx_insert(&mut system_map, id, system);
            names_insert(&mut system_names, name.clone(), id);
            fx_insert(&mut localized_names, id, name.clone());
            let lower = to_lowercase(name.as_str());
            entries.push(NameEntry { lower, name, id });
            proof {
                assert(system_positions@ =~= slot_table(recs).take(i + 1));
                assert(label_view(localized_names@) =~= label_view(old_labels).insert(
                    id,
                    recs[i].2@,
                ));
                assert(rows(entries@) =~= rows(old_entries).push(name_rows(recs)[i]));
                assert(rows(entries@) =~= name_rows(recs).take(i + 1));
                assert forall|k: int| 0 <= k < system_positions@.len() implies system_map@.contains_key(
                    (#[trigger] system_positions@[k]).1,
                ) by {
                    if k < old_positions.len() {
                        assert(system_positions@[k] == old_positions[k]);
                    }
                }
            }
        }
        proof {
            assert(slot_table(recs).take(recs.len() as int) =~= slot_table(recs));
            assert(system_pairs(recs).take(recs.len() as int) =~= system_pairs(recs));
            assert(name_pairs(recs).take(recs.len() as int) =~= name_pairs(recs));
            assert(system_labels(recs).take(recs.len() as int) =~= system_labels(recs));
            assert(name_rows(recs).take(recs.len() as int) =~= name_rows(recs));
        }

        let mut region_map: FxHashMap<u32, Region> = fx_new();
        let ghost regs = regions@;
        let ghost system_names_done = label_view(localized_names@);
        proof {
            assert(region_map@.dom() =~= insert_all(
                Map::empty(),
                region_keys(regs).take(0),
            ).dom());
        }
        for row in it: regions
            invariant
                it.seq() == regs,
                region_map@.dom() == insert_all(
                    Map::empty(),
                    region_keys(regs).take(it.index() as int),
                ).dom(),
                forall|id: u32| #[trigger]
                    region_map@.contains_key(id) ==> is_blank_region(region_map@[id]),
                label_view(localized_names@) == insert_all(
                    system_names_done,
                    region_labels(regs).take(it.index() as int),
                ),
                forall|id: u32| #[trigger]
                    system_map@.contains_key(id) ==> label_view(localized_names@).contains_key(id),
        {
            let ghost i = it.index() as int;
            let ghost old_labels = localized_names@;
            let (region_id, region_name) = row;
            proof {
                lemma_insert_all_step(Map::empty(), region_keys(regs), i);
                lemma_insert_all_step(system_names_done, region_labels(regs), i);
            }
            let region = Region {
                solar_system_ids: Vec::new(),
                neighbours: Vec::new(),
                center: Point3D::origin(),
                constellation_ids: Vec::new(),
            };
            fx_insert(&mut region_map, region_id, region);
            fx_insert(&mut localized_names, region_id, region_name);
            proof {
                assert(region_map@.dom() =~= insert_all(
                    Map::empty(),
                    region_keys(regs).take(i + 1),
                ).dom());
                assert(label_view(localized_names@) =~= label_view(old_labels).insert(
                    region_id,
                    regs[i].1@,
                ));
            }
        }
        proof {
            assert(region_keys(regs).take(regs.len() as int) =~= region_keys(regs));
            assert(region_labels(regs).take(regs.len() as int) =~= region_labels(regs));
        }

        let mut constellation_map: FxHashMap<u32, Constellation> = fx_new();
        let ghost cons = constellations@;
        let ghost region_names_done = label_view(localized_names@);
        proof {
            assert(constellation_view(constellation_map@) =~= Map::empty());
        }
        for row in it: constellations
            invariant
                it.seq() == cons,
                constellation_view(constellation_map@) == insert_all(
                    Map::empty(),
                    constellation_pairs(cons).take(it.index() as int),
                ),
                forall|id: u32| #[trigger]
                    constellation_map@.contains_key(id) ==> is_plain_constellation(
                        constellation_map@[id],
                        id,
                    ),
                label_view(localized_names@) == insert_all(
                    region_names_done,
                    constellation_labels(cons).take(it.index() as int),
                ),
                forall|id: u32| #[trigger]
                    system_map@.contains_key(id) ==> label_view(localized_names@).contains_key(id),
        {
            let ghost i = it.index() as int;
            let ghost old_labels = localized_names@;
            let ghost old_map = constellation_map@;
            let (constellation_id, constellation_name, region_id) = row;
            proof {
                lemma_insert_all_step(Map::empty(), constellation_pairs(cons), i);
                lemma_insert_all_step(region_names_done, constellation_labels(cons), i);
            }
            let constellation = Constellation {
                id: constellation_id,
                name: constellation_name.clone(),
                region_id,
                solar_system_ids: Vec::new(),
                metadata: ConstellationMetadata { faction_id: None, sovereignty: None },
            };
            fx_insert(&mut constellation_map, constellation_id, constellation);
            fx_insert(&mut localized_names, constellation_id, constellation_name);
            proof {
                assert(constellation_view(constellation_map@) =~= constellation_view(
                    old_map,
                ).insert(constellation_id, (cons[i].1@, cons[i].2)));
                assert(label_view(localized_names@) =~= label_view(old_labels).insert(
                    constellation_id,
                    cons[i].1@,
                ));
            }
        }
        proof {
            assert(constellation_pairs(cons).take(cons.len() as int) =~= constellation_pairs(
                cons,
            ));
            assert(constellation_labels(cons).take(cons.len() as int) =~= constellation_labels(
                cons,
            ));
        }

        let system_name_list = sort_entries(entries);
        proof {
            assert forall|i: int| 0 <= i < recs.len() implies system_map@.contains_key(
                (#[trigger] recs[i]).0,
            ) by {
                assert(system_pairs(recs)[i].0 == recs[i].0);
                lemma_insert_all_dom(Map::empty(), system_pairs(recs), recs[i].0);
            }
        }
        proof {
            let unsorted = name_rows(recs);
            let sorted = sort_spec(unsorted);
            lemma_name_order();
            assert forall|i: int| 0 <= i < sorted.len() implies (#[trigger] sorted[i]).lower
                == lowercase(sorted[i].name) by {
                lemma_stable_sort_contains(unsorted, name_order(), i);
                let j = choose|j: int| 0 <= j < unsorted.len() && unsorted[j] == sorted[i];
                assert(unsorted[j].lower == lowercase(unsorted[j].name));
            }
        }
        SpatialIndex {
            systems: system_map,
            system_names,
            regions: region_map,
            constellations: constellation_map,
            localized_names,
            system_name_list,
            system_positions,
        }
    }

    /// The slot table, for whoever builds the tree: the point of slot `i` is
    /// to be stored in the tree under the number `i`.
    pub fn positions(&self) -> (table: &Vec<(Point3D, SystemId)>)
        ensures
            table@ == self.slots(),
    {
        &self.system_positions
    }

    /// The display name of a system, region or constellation.
    pub fn get_system_name(&self, id: SystemId) -> (name: Option<&String>)
        ensures
            name is Some <==> self.labels().contains_key(id),
            name matches Some(text) ==> text@ == self.labels()[id],
    {
        fx_get(&self.localized_names, id)
    }

    /// The id of the system with exactly this name. Case matters.
    pub fn find_system_by_name(&self, name: &str) -> (id: Option<SystemId>)
        ensures
            id == (if self.names().contains_key(name@) {
                Some(self.names()[name@])
            } else {
                None
            }),
    {
        names_get(&self.system_names, name)
    }

    /// The record of a system.
    pub fn get_system(&self, id: SystemId) -> (system: Option<&SolarSystem>)
        ensures
            system == (if self.systems().contains_key(id) {
                Some(&self.systems()[id])
            } else {
                None
            }),
    {
        fx_get(&self.systems, id)
    }

    /// The region with this id.
    pub fn get_region(&self, id: u32) -> (region: Option<&Region>)
        ensures
            region == (if self.regions().contains_key(id) {
                Some(&self.regions()[id])
            } else {
                None
            }),
            region matches Some(r) ==> is_blank_region(*r),
    {
        proof {
            use_type_invariant(self);
            if self.regions().contains_key(id) {
                assert(is_blank_region(self.regions()[id]));
            }
        }
        fx_get(&self.regions, id)
    }

    /// The constellation with this id.
    pub fn get_constellation(&self, id: u32) -> (constellation: Option<&Constellation>)
        ensures
            constellation == (if self.constellations().contains_key(id) {
                Some(&self.constellations()[id])
            } else {
                None
            }),
            constellation matches Some(c) ==> is_plain_constellation(*c, id),
    {
        proof {
            use_type_invariant(self);
            if self.constellations().contains_key(id) {
                assert(is_plain_constellation(self.constellations()[id], id));
            }
        }
        fx_get(&self.constellations, id)
    }

    /// The number of systems that can be looked up by id.
    pub fn system_count(&self) -> (n: usize)
        ensures
            n == self.systems().dom().len(),
    {
        fx_len(&self.systems)
    }

    /// The ids of all systems, each once, in no particular order.
    pub fn get_all_system_ids(&self) -> (ids: Vec<SystemId>)
        ensures
            ids@.no_duplicates(),
            ids@.to_set() == self.systems().dom(),
    {
        fx_keys(&self.systems)
    }

    /// Completes a partial name: the first `limit` systems, in the order of
    /// the name list, whose lower-cased name holds the lower-cased query.
    /// Every name found holds the query when case is ignored, and the names
    /// found are in order of their lower-case forms.
    pub fn autocomplete_systems(&self, query: &str, limit: usize) -> (found: Vec<
        (String, SystemId),
    >)
        ensures
            suggestion_rows(found@) == scan_spec(
                self.name_list(),
                lowercase(query@),
                limit as nat,
            ),
            found@.len() <= limit,
            forall|i: int|
                0 <= i < found@.len() ==> is_substring(
                    lowercase(query@),
                    lowercase((#[trigger] found@[i]).0@),
                ),
            forall|i: int, j: int|
                0 <= i <= j < found@.len() ==> lex_le(
                    lowercase((#[trigger] found@[i]).0@),
                    lowercase((#[trigger] found@[j]).0@),
                ),
    {
        let query_lower = to_lowercase(query);
        let found = scan_names(&self.system_name_list, query_lower.as_str(), limit);
        proof {
            use_type_invariant(self);
            let list = self.name_list();
            let rows_found = scan_spec(list, lowercase(query@), limit as nat);
            assert forall|i: int| 0 <= i < list.len() implies is_lowered(#[trigger] list[i]) by {}
            lemma_scan_of_sorted(list, lowercase(query@), limit as nat);
            assert forall|i: int| 0 <= i < found@.len() implies rows_found[i].0 == (
            #[trigger] found@[i]).0@ by {
                assert(suggestion_rows(found@)[i] == (found@[i].0@, found@[i].1));
            }
        }
        found
    }
}

} // verus!
