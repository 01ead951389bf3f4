use std::collections::HashMap;

use stellar_cartography::models::{
    CelestialInfo, NavigationInfo, Point3D, SecurityInfo, SolarSystem, SystemMetadata,
};
use stellar_cartography::query::TreeHit;
use stellar_cartography::spatial::SpatialIndex;

fn bits(x: f64) -> u64 {
    x.to_bits()
}

fn system(id: u32, name: &str, x: f64, y: f64, z: f64) -> (u32, SolarSystem, String) {
    let record = SolarSystem {
        id,
        name: name.to_string(),
        center: Point3D { x: bits(x), y: bits(y), z: bits(z) },
        region_id: Some(10_000_001),
        constellation_id: Some(20_000_001),
        security: SecurityInfo { class: None, status: None },
        celestials: CelestialInfo {
            star_id: None,
            planet_ids: Vec::new(),
            planet_count_by_type: HashMap::new(),
        },
        navigation: NavigationInfo { neighbours: Vec::new(), stargates: Vec::new() },
        metadata: SystemMetadata {
            faction_id: None,
            sovereignty: None,
            disallowed_anchor_categories: Vec::new(),
            disallowed_anchor_groups: Vec::new(),
        },
    };
    (id, record, name.to_string())
}

fn four_names() -> SpatialIndex {
    SpatialIndex::load_from_database(
        vec![
            system(1, "Alpha", 0.0, 0.0, 0.0),
            system(2, "Abel", 3e16, 4e16, 0.0),
            system(3, "Cab", 3e16, 4e16, 1e16),
            system(4, "Zeta", -1e16, 0.0, 0.0),
        ],
        vec![(10_000_001, "North".to_string())],
        vec![(20_000_001, "Ring".to_string(), 10_000_001)],
    )
}

#[test]
fn autocomplete_matches_substring_without_case() {
    let index = four_names();
    let found = index.autocomplete_systems("ab", 5);
    assert_eq!(found, vec![("Abel".to_string(), 2), ("Cab".to_string(), 3)]);
}

#[test]
fn autocomplete_stops_at_limit() {
    let index = four_names();
    let found = index.autocomplete_systems("A", 2);
    assert_eq!(found, vec![("Abel".to_string(), 2), ("Alpha".to_string(), 1)]);
    assert!(index.autocomplete_systems("a", 0).is_empty());
}

#[test]
fn autocomplete_with_empty_query_lists_in_name_order() {
    let index = four_names();
    let found = index.autocomplete_systems("", 10);
    let names: Vec<&str> = found.iter().map(|(n, _)| n.as_str()).collect();
    assert_eq!(names, vec!["Abel", "Alpha", "Cab", "Zeta"]);
}

#[test]
fn exact_lookup_is_case_sensitive() {
    let index = four_names();
    assert_eq!(index.find_system_by_name("Abel"), Some(2));
    assert_eq!(index.find_system_by_name("abel"), None);
    assert_eq!(index.find_system_by_name("Nowhere"), None);
}

#[test]
fn lookups_by_id() {
    let index = four_names();
    assert_eq!(index.system_count(), 4);
    assert_eq!(index.get_system(3).map(|s| s.name.as_str()), Some("Cab"));
    assert!(index.get_system(99).is_none());
    assert_eq!(index.get_system_name(4).map(|s| s.as_str()), Some("Zeta"));
    assert_eq!(index.get_system_name(10_000_001).map(|s| s.as_str()), Some("North"));
    assert_eq!(index.get_system_name(20_000_001).map(|s| s.as_str()), Some("Ring"));
    assert!(index.get_region(10_000_001).is_some());
    assert!(index.get_region(1).is_none());
    let ring = index.get_constellation(20_000_001).unwrap();
    assert_eq!(ring.id, 20_000_001);
    assert_eq!(ring.name, "Ring");
    assert_eq!(ring.region_id, 10_000_001);
    let mut ids = index.get_all_system_ids();
    ids.sort();
    assert_eq!(ids, vec![1, 2, 3, 4]);
}

#[test]
fn slots_follow_catalogue_order() {
    let index = four_names();
    let table = index.positions();
    assert_eq!(table.len(), 4);
    assert_eq!(table[1], (Point3D { x: bits(3e16), y: bits(4e16), z: bits(0.0) }, 2));
    assert_eq!(table[3].1, 4);
}

#[test]
fn hits_resolve_to_ids_in_order() {
    let index = four_names();
    let hits = vec![
        TreeHit { slot: 1, distance: bits(5e16) },
        TreeHit { slot: 0, distance: bits(0.0) },
    ];
    let found = index.resolve_hits(&hits);
    assert_eq!(found, vec![(2, bits(5e16)), (1, bits(0.0))]);
}

#[test]
fn radius_keeps_hits_up_to_the_radius() {
    let index = four_names();
    let hits = vec![
        TreeHit { slot: 1, distance: bits(5e16) },
        TreeHit { slot: 2, distance: bits(5.1e16) },
        TreeHit { slot: 0, distance: bits(0.0) },
        TreeHit { slot: 3, distance: bits(1e16) },
    ];
    assert_eq!(
        index.find_systems_within_radius(&hits, bits(5e16)),
        vec![(2, bits(5e16)), (1, bits(0.0)), (4, bits(1e16))]
    );
    assert_eq!(index.find_systems_within_radius(&hits, bits(0.0)), vec![(1, bits(0.0))]);
    assert_eq!(index.find_systems_within_radius(&hits, bits(f64::INFINITY)).len(), 4);
    assert_eq!(index.find_systems_within_radius(&hits, bits(4.9e16)).len(), 2);
}

#[test]
fn nearest_are_put_in_order_of_distance() {
    let index = four_names();
    let hits = vec![
        TreeHit { slot: 1, distance: bits(5e16) },
        TreeHit { slot: 0, distance: bits(0.0) },
        TreeHit { slot: 2, distance: bits(5e16) },
        TreeHit { slot: 3, distance: bits(1e16) },
    ];
    assert_eq!(
        index.find_nearest_systems(&hits, 4),
        vec![(1, bits(0.0)), (4, bits(1e16)), (2, bits(5e16)), (3, bits(5e16))]
    );
    assert_eq!(index.find_nearest_systems(&hits, 2), vec![(1, bits(0.0)), (2, bits(5e16))]);
}

#[test]
fn nearest_with_k_zero_is_empty() {
    let index = four_names();
    let hits = vec![TreeHit { slot: 0, distance: bits(0.0) }];
    assert!(index.find_nearest_systems(&hits, 0).is_empty());
    assert!(index.find_nearest_systems(&Vec::new(), 0).is_empty());
}

#[test]
fn nearest_gives_at_most_k() {
    let index = four_names();
    let hits = vec![
        TreeHit { slot: 0, distance: bits(0.0) },
        TreeHit { slot: 3, distance: bits(1e16) },
        TreeHit { slot: 1, distance: bits(5e16) },
    ];
    assert_eq!(index.find_nearest_systems(&hits, 2), vec![(1, bits(0.0)), (4, bits(1e16))]);
    assert_eq!(index.find_nearest_systems(&hits, 7).len(), 3);
}

#[test]
fn later_row_replaces_earlier_in_tables() {
    let index = SpatialIndex::load_from_database(
        vec![system(1, "Old", 0.0, 0.0, 0.0), system(1, "New", 1.0, 0.0, 0.0)],
        Vec::new(),
        Vec::new(),
    );
    assert_eq!(index.system_count(), 1);
    assert_eq!(index.get_system(1).map(|s| s.name.as_str()), Some("New"));
    assert_eq!(index.get_system_name(1).map(|s| s.as_str()), Some("New"));
    assert_eq!(index.find_system_by_name("Old"), Some(1));
    assert_eq!(index.positions().len(), 2);
}

#[test]
fn name_list_is_ordered_by_lower_case() {
    let index = SpatialIndex::load_from_database(
        vec![
            system(1, "beta", 0.0, 0.0, 0.0),
            system(2, "Alpha", 0.0, 0.0, 0.0),
            system(3, "ALPHA", 0.0, 0.0, 0.0),
            system(4, "alpha", 0.0, 0.0, 0.0),
            system(5, "Beta", 0.0, 0.0, 0.0),
        ],
        Vec::new(),
        Vec::new(),
    );
    let found = index.autocomplete_systems("", 10);
    let ids: Vec<u32> = found.iter().map(|(_, id)| *id).collect();
    assert_eq!(ids, vec![2, 3, 4, 1, 5]);
}

#[test]
fn query_is_lower_cased_by_unicode_rules() {
    let index = SpatialIndex::load_from_database(
        vec![system(1, "\u{c9}toile", 0.0, 0.0, 0.0), system(2, "Etoile", 0.0, 0.0, 0.0)],
        Vec::new(),
        Vec::new(),
    );
    assert_eq!(index.autocomplete_systems("\u{c9}T", 5), vec![("\u{c9}toile".to_string(), 1)]);
    assert_eq!(index.autocomplete_systems("\u{e9}t", 5), vec![("\u{c9}toile".to_string(), 1)]);
    assert_eq!(index.autocomplete_systems("ET", 5), vec![("Etoile".to_string(), 2)]);
}

#[test]
fn resolved_ids_have_records() {
    let index = four_names();
    index.well_formed();
    let hits = vec![
        TreeHit { slot: 0, distance: bits(0.0) },
        TreeHit { slot: 1, distance: bits(1.0) },
        TreeHit { slot: 2, distance: bits(2.0) },
        TreeHit { slot: 3, distance: bits(3.0) },
    ];
    for (id, _) in index.find_systems_within_radius(&hits, bits(3.0)) {
        assert!(index.get_system(id).is_some());
        assert!(index.get_system_name(id).is_some());
    }
}

#[test]
fn radius_answer_grows_with_the_hits() {
    let index = four_names();
    let small = vec![TreeHit { slot: 0, distance: bits(0.0) }];
    let large = vec![
        TreeHit { slot: 3, distance: bits(1e16) },
        TreeHit { slot: 0, distance: bits(0.0) },
        TreeHit { slot: 1, distance: bits(5e16) },
    ];
    let inner: Vec<u32> =
        index.find_systems_within_radius(&small, bits(0.0)).iter().map(|r| r.0).collect();
    let outer: Vec<u32> =
        index.find_systems_within_radius(&large, bits(5e16)).iter().map(|r| r.0).collect();
    assert_eq!(inner, vec![1]);
    assert!(inner.iter().all(|id| outer.contains(id)));
    let radii = [0.0, 1e15, 1e16, 2e16, 5e16, 9e16];
    let mut last: Vec<u32> = Vec::new();
    for radius in radii {
        let ids: Vec<u32> =
            index.find_systems_within_radius(&large, bits(radius)).iter().map(|r| r.0).collect();
        assert!(last.iter().all(|id| ids.contains(id)));
        last = ids;
    }
    assert_eq!(last.len(), 3);
}
