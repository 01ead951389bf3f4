use std::collections::HashMap;

use stellar_cartography::error::ApiError;
use stellar_cartography::handlers::{
    check_type_name_search, describe, health_check, locate, neighbours_to_request, page_of,
    report_others, search_type_names, systems_autocomplete, systems_bulk, systems_near,
    systems_nearest,
};
use stellar_cartography::models::{
    AutocompleteQuery, BulkSystemsQuery, CelestialInfo, NavigationInfo, NearbyQuery, NearestQuery,
    Point3D, SecurityInfo, SolarSystem, SystemMetadata, TypeNameQuery,
};
use stellar_cartography::query::TreeHit;
use stellar_cartography::spatial::SpatialIndex;

fn bits(x: f64) -> u64 {
    x.to_bits()
}

fn record(id: u32, name: &str, x: f64, y: f64, z: f64, faction: Option<u32>) -> (u32, SolarSystem, String) {
    let system = SolarSystem {
        id,
        name: name.to_string(),
        center: Point3D { x: bits(x), y: bits(y), z: bits(z) },
        region_id: Some(10),
        constellation_id: Some(20),
        security: SecurityInfo { class: None, status: None },
        celestials: CelestialInfo {
            star_id: None,
            planet_ids: Vec::new(),
            planet_count_by_type: HashMap::new(),
        },
        navigation: NavigationInfo { neighbours: Vec::new(), stargates: Vec::new() },
        metadata: SystemMetadata {
            faction_id: faction,
            sovereignty: None,
            disallowed_anchor_categories: Vec::new(),
            disallowed_anchor_groups: Vec::new(),
        },
    };
    (id, system, name.to_string())
}

fn triangle() -> SpatialIndex {
    SpatialIndex::load_from_database(
        vec![
            record(100, "Origin", 0.0, 0.0, 0.0, Some(5)),
            record(200, "Five", 3e16, 4e16, 0.0, None),
            record(300, "Beyond", 3e16, 4e16, 1e16, None),
        ],
        Vec::new(),
        Vec::new(),
    )
}

fn hit(slot: usize, distance: f64) -> TreeHit {
    TreeHit { slot, distance: bits(distance) }
}

#[test]
fn radius_of_five_reaches_second_point_only() {
    let index = triangle();
    let query = NearbyQuery { name: "Origin".to_string(), radius: bits(5.0) };
    let hits = vec![hit(0, 0.0), hit(2, 5.0990195135927845), hit(1, 5.0)];
    let response = systems_near(&index, &query, &hits).unwrap();
    assert_eq!(response.center_system.id, 100);
    assert_eq!(response.center_system.name.as_deref(), Some("Origin"));
    assert_eq!(response.center_system.distance, Some(bits(0.0)));
    assert_eq!(response.center_system.faction_id, Some(5));
    assert_eq!(response.radius, bits(5.0));
    assert_eq!(response.total_found, 1);
    assert_eq!(response.nearby_systems.len(), 1);
    let found = &response.nearby_systems[0];
    assert_eq!(found.id, 200);
    assert_eq!(found.name.as_deref(), Some("Five"));
    assert_eq!(found.center, Point3D { x: bits(3e16), y: bits(4e16), z: bits(0.0) });
    assert_eq!(found.region_id, Some(10));
    assert_eq!(found.constellation_id, Some(20));
    assert_eq!(found.distance, Some(bits(5.0)));
}

#[test]
fn near_unknown_name_is_not_found() {
    let index = triangle();
    let query = NearbyQuery { name: "Nowhere".to_string(), radius: bits(5.0) };
    match systems_near(&index, &query, &Vec::new()) {
        Err(ApiError::SystemNotFound(name)) => assert_eq!(name, "Nowhere"),
        other => panic!("unexpected: {:?}", other),
    }
}

#[test]
fn near_refuses_a_radius_that_is_negative_or_no_number() {
    let index = triangle();
    for radius in [-1.0, -0.0, f64::NAN, f64::NEG_INFINITY] {
        let query = NearbyQuery { name: "Origin".to_string(), radius: bits(radius) };
        match systems_near(&index, &query, &Vec::new()) {
            Err(ApiError::InvalidInput(text)) => {
                assert_eq!(text, "Radius must be a number that is not negative")
            }
            other => panic!("unexpected: {:?}", other),
        }
    }
    let unknown = NearbyQuery { name: "Nowhere".to_string(), radius: bits(-1.0) };
    assert!(matches!(
        systems_near(&index, &unknown, &Vec::new()),
        Err(ApiError::SystemNotFound(_))
    ));
    let endless = NearbyQuery { name: "Origin".to_string(), radius: bits(f64::INFINITY) };
    assert!(systems_near(&index, &endless, &Vec::new()).is_ok());
}

#[test]
fn near_with_no_hits_finds_nothing() {
    let index = triangle();
    let query = NearbyQuery { name: "Five".to_string(), radius: bits(0.0) };
    let response = systems_near(&index, &query, &vec![hit(1, 0.0)]).unwrap();
    assert_eq!(response.center_system.id, 200);
    assert_eq!(response.total_found, 0);
    assert!(response.nearby_systems.is_empty());
}

#[test]
fn nearest_leaves_out_center_and_takes_k() {
    let index = triangle();
    let hits = vec![hit(0, 0.0), hit(1, 5.0), hit(2, 5.1)];
    let one = NearestQuery { name: "Origin".to_string(), k: 1 };
    let response = systems_nearest(&index, &one, &hits).unwrap();
    assert_eq!(response.k, 1);
    let ids: Vec<u32> = response.nearest_systems.iter().map(|s| s.id).collect();
    assert_eq!(ids, vec![200]);
    let two = NearestQuery { name: "Origin".to_string(), k: 2 };
    let ids: Vec<u32> =
        systems_nearest(&index, &two, &hits).unwrap().nearest_systems.iter().map(|s| s.id).collect();
    assert_eq!(ids, vec![200, 300]);
}

#[test]
fn nearest_with_k_zero_reports_nothing() {
    let index = triangle();
    let hits = vec![hit(0, 0.0)];
    let query = NearestQuery { name: "Origin".to_string(), k: 0 };
    let response = systems_nearest(&index, &query, &hits).unwrap();
    assert!(response.nearest_systems.is_empty());
    assert_eq!(response.k, 0);
}

#[test]
fn nearest_are_reported_nearest_first() {
    let index = triangle();
    let hits = vec![hit(0, 5.0), hit(1, 0.0), hit(2, 1.0)];
    let query = NearestQuery { name: "Five".to_string(), k: 2 };
    let response = systems_nearest(&index, &query, &hits).unwrap();
    let found: Vec<(u32, Option<u64>)> =
        response.nearest_systems.iter().map(|s| (s.id, s.distance)).collect();
    assert_eq!(found, vec![(300, Some(bits(1.0))), (100, Some(bits(5.0)))]);
    assert!(found[0].1 <= found[1].1);
}

#[test]
fn nearest_unknown_name_is_not_found() {
    let index = triangle();
    let query = NearestQuery { name: "origin".to_string(), k: 3 };
    assert!(matches!(
        systems_nearest(&index, &query, &Vec::new()),
        Err(ApiError::SystemNotFound(_))
    ));
}

#[test]
fn one_more_neighbour_is_requested() {
    assert_eq!(neighbours_to_request(0), 1);
    assert_eq!(neighbours_to_request(10), 11);
}

#[test]
fn locate_finds_by_exact_name() {
    let index = triangle();
    assert!(matches!(locate(&index, "Beyond"), Ok(300)));
    assert!(matches!(locate(&index, "beyond"), Err(ApiError::SystemNotFound(_))));
}

#[test]
fn describe_copies_record_and_name() {
    let index = triangle();
    let system = index.get_system(100).unwrap();
    let info = describe(&index, 100, system, None);
    assert_eq!(info.id, 100);
    assert_eq!(info.name.as_deref(), Some("Origin"));
    assert_eq!(info.faction_id, Some(5));
    assert_eq!(info.distance, None);
}

#[test]
fn report_others_drops_unknown_ids_after_taking() {
    let index = triangle();
    let results = vec![(100, 0), (999, 1), (200, 2), (300, 3)];
    let ids: Vec<u32> =
        report_others(&index, 100, &results, 2).iter().map(|s| s.id).collect();
    assert_eq!(ids, vec![200]);
    let ids: Vec<u32> =
        report_others(&index, 100, &results, 4).iter().map(|s| s.id).collect();
    assert_eq!(ids, vec![200, 300]);
    assert!(report_others(&index, 100, &results, 0).is_empty());
}

#[test]
fn autocomplete_defaults_and_caps_limit() {
    let many: Vec<(u32, SolarSystem, String)> =
        (0..80u32).map(|i| record(i, &format!("Node{:02}", i), 0.0, 0.0, 0.0, None)).collect();
    let index = SpatialIndex::load_from_database(many, Vec::new(), Vec::new());
    let default = systems_autocomplete(&index, &AutocompleteQuery { q: "node".to_string(), limit: None });
    assert_eq!(default.suggestions.len(), 10);
    assert_eq!(default.query, "node");
    assert_eq!(default.suggestions[0].name, "Node00");
    assert_eq!(default.suggestions[0].id, 0);
    assert!(default.suggestions[0].region_name.is_none());
    assert!(default.suggestions[0].constellation_name.is_none());
    let capped =
        systems_autocomplete(&index, &AutocompleteQuery { q: "NODE".to_string(), limit: Some(70) });
    assert_eq!(capped.suggestions.len(), 50);
    let few =
        systems_autocomplete(&index, &AutocompleteQuery { q: "e7".to_string(), limit: Some(3) });
    let names: Vec<&str> = few.suggestions.iter().map(|s| s.name.as_str()).collect();
    assert_eq!(names, vec!["Node70", "Node71", "Node72"]);
}

#[test]
fn page_of_skips_and_takes() {
    let index = triangle();
    let ids = vec![300, 100, 999, 200];
    let page: Vec<u32> = page_of(&index, &ids, 1, 2).iter().map(|d| d.id).collect();
    assert_eq!(page, vec![100]);
    let page: Vec<(u32, String)> =
        page_of(&index, &ids, 0, 10).into_iter().map(|d| (d.id, d.name)).collect();
    assert_eq!(
        page,
        vec![(300, "Beyond".to_string()), (100, "Origin".to_string()), (200, "Five".to_string())]
    );
    assert!(page_of(&index, &ids, 4, 10).is_empty());
    assert!(page_of(&index, &ids, usize::MAX, usize::MAX).is_empty());
    assert_eq!(page_of(&index, &ids, 3, usize::MAX).len(), 1);
}

#[test]
fn bulk_pages_all_systems() {
    let index = triangle();
    let all = systems_bulk(&index, &BulkSystemsQuery { limit: None, offset: None });
    assert_eq!(all.limit, 1000);
    assert_eq!(all.offset, 0);
    assert_eq!(all.total_count, 3);
    let mut ids: Vec<u32> = all.systems.iter().map(|d| d.id).collect();
    ids.sort();
    assert_eq!(ids, vec![100, 200, 300]);
    let capped = systems_bulk(&index, &BulkSystemsQuery { limit: Some(9000), offset: Some(2) });
    assert_eq!(capped.limit, 5000);
    assert_eq!(capped.offset, 2);
    assert_eq!(capped.systems.len(), 1);
    let past = systems_bulk(&index, &BulkSystemsQuery { limit: Some(5), offset: Some(7) });
    assert!(past.systems.is_empty());
    assert_eq!(past.total_count, 3);
}

#[test]
fn type_name_search_refuses_blank_query() {
    for q in ["", "   ", "\t\n"] {
        match search_type_names(&TypeNameQuery { q: q.to_string(), limit: Some(5) }) {
            Err(ApiError::InvalidInput(text)) => {
                assert_eq!(text, "Query parameter 'q' cannot be empty")
            }
            other => panic!("unexpected: {:?}", other),
        }
    }
}

#[test]
fn type_name_search_defaults_and_caps_limit() {
    let ask = |limit| search_type_names(&TypeNameQuery { q: " ore ".to_string(), limit });
    assert!(matches!(ask(None), Ok(50)));
    assert!(matches!(ask(Some(7)), Ok(7)));
    assert!(matches!(ask(Some(0)), Ok(0)));
    assert!(matches!(ask(Some(100)), Ok(100)));
    assert!(matches!(ask(Some(101)), Ok(100)));
    assert!(matches!(check_type_name_search("x", None), Ok(50)));
    assert!(matches!(check_type_name_search("", Some(3)), Err(ApiError::InvalidInput(_))));
}

#[test]
fn health_reports_ok() {
    let response = health_check("0.1.0");
    assert_eq!(response.status, "ok");
    assert_eq!(response.service, "stellar-cartography");
    assert_eq!(response.version, "0.1.0");
}
