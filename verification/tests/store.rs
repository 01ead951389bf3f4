use stellar_cartography::models::{GateConnection, Point3D, TypeName};
use stellar_cartography::store::{
    catalogue_name, clamp_search_limit, group_connections, hierarchy_from_row, needs_update,
    read_attributes, region_name, search_type_names, stargate_links, system_from_parts,
    system_from_row, system_info_from_row, update_due, HierarchyRow, ParsedAttributes,
    SystemInfoRow, SystemRow, Timestamp,
};

fn row() -> SystemRow {
    SystemRow {
        id: 30002165,
        name: "EKR-KBB".to_string(),
        center: Point3D { x: 1, y: 2, z: 3 },
        region_id: Some(10),
        constellation_id: None,
        faction_id: Some(4),
        security_class: Some("B".to_string()),
        security_status: None,
        star_id: Some(77),
        planet_ids: Some("[1, 2, 3]".to_string()),
        planet_count_by_type: Some("{\"gas\": 2, \"ice\": 1}".to_string()),
        neighbours: Some("[30002172]".to_string()),
        stargates: Some("[]".to_string()),
        sovereignty: Some("none".to_string()),
        disallowed_anchor_categories: Some("[\"a\", \"b\"]".to_string()),
        disallowed_anchor_groups: None,
    }
}

#[test]
fn row_with_readable_attributes() {
    let (id, system, name) = system_from_row(row());
    assert_eq!(id, 30002165);
    assert_eq!(name, "EKR-KBB");
    assert_eq!(system.id, 30002165);
    assert_eq!(system.name, "EKR-KBB");
    assert_eq!(system.center, Point3D { x: 1, y: 2, z: 3 });
    assert_eq!(system.region_id, Some(10));
    assert_eq!(system.constellation_id, None);
    assert_eq!(system.security.class.as_deref(), Some("B"));
    assert_eq!(system.security.status, None);
    assert_eq!(system.celestials.star_id, Some(77));
    assert_eq!(system.celestials.planet_ids, vec![1, 2, 3]);
    assert_eq!(system.celestials.planet_count_by_type.len(), 2);
    assert_eq!(system.celestials.planet_count_by_type["gas"], 2);
    assert_eq!(system.celestials.planet_count_by_type["ice"], 1);
    assert_eq!(system.navigation.neighbours, vec![30002172]);
    assert!(system.navigation.stargates.is_empty());
    assert_eq!(system.metadata.faction_id, Some(4));
    assert_eq!(system.metadata.sovereignty.as_deref(), Some("none"));
    assert_eq!(system.metadata.disallowed_anchor_categories, vec!["a", "b"]);
    assert!(system.metadata.disallowed_anchor_groups.is_empty());
}

#[test]
fn unreadable_attributes_degrade_to_empty() {
    let mut broken = row();
    broken.planet_ids = Some("[1, 2,".to_string());
    broken.planet_count_by_type = Some("[]".to_string());
    broken.neighbours = Some("\"text\"".to_string());
    broken.stargates = Some("[-1]".to_string());
    broken.disallowed_anchor_categories = Some("[1]".to_string());
    broken.disallowed_anchor_groups = Some("".to_string());
    let (id, system, _) = system_from_row(broken);
    assert_eq!(id, 30002165);
    assert!(system.celestials.planet_ids.is_empty());
    assert!(system.celestials.planet_count_by_type.is_empty());
    assert!(system.navigation.neighbours.is_empty());
    assert!(system.navigation.stargates.is_empty());
    assert!(system.metadata.disallowed_anchor_categories.is_empty());
    assert!(system.metadata.disallowed_anchor_groups.is_empty());
    assert_eq!(system.celestials.star_id, Some(77));
}

#[test]
fn attributes_are_read_or_absent() {
    let parsed = read_attributes(&row());
    assert_eq!(parsed.planet_ids, Some(vec![1, 2, 3]));
    assert_eq!(parsed.stargates, Some(Vec::new()));
    assert_eq!(parsed.disallowed_anchor_groups, None);
    let mut broken = row();
    broken.planet_ids = Some("nonsense".to_string());
    assert_eq!(read_attributes(&broken).planet_ids, None);
}

#[test]
fn record_from_given_parts() {
    let parts = ParsedAttributes {
        planet_ids: Some(vec![9]),
        planet_count_by_type: None,
        neighbours: None,
        stargates: Some(vec![5, 6]),
        disallowed_anchor_categories: None,
        disallowed_anchor_groups: Some(vec!["g".to_string()]),
    };
    let (_, system, _) = system_from_parts(row(), parts);
    assert_eq!(system.celestials.planet_ids, vec![9]);
    assert!(system.celestials.planet_count_by_type.is_empty());
    assert!(system.navigation.neighbours.is_empty());
    assert_eq!(system.navigation.stargates, vec![5, 6]);
    assert!(system.metadata.disallowed_anchor_categories.is_empty());
    assert_eq!(system.metadata.disallowed_anchor_groups, vec!["g"]);
}

fn joined() -> HierarchyRow {
    HierarchyRow {
        id: 7,
        system_name: Some("Seven".to_string()),
        x: Some(11),
        y: None,
        z: Some(13),
        region_id: Some(1),
        constellation_id: Some(2),
        faction_id: None,
        constellation_name: Some("Ring".to_string()),
        constellation_region_id: None,
        region_name: Some("North".to_string()),
    }
}

#[test]
fn hierarchy_with_both_levels() {
    let h = hierarchy_from_row(joined());
    assert_eq!(h.system.id, 7);
    assert_eq!(h.system.name.as_deref(), Some("Seven"));
    assert_eq!(h.system.center, Point3D { x: 11, y: 0, z: 13 });
    assert_eq!(h.system.distance, None);
    let c = h.constellation.unwrap();
    assert_eq!((c.id, c.name.as_str(), c.region_id), (2, "Ring", 0));
    let r = h.region.unwrap();
    assert_eq!((r.id, r.name.as_str()), (1, "North"));
}

#[test]
fn hierarchy_without_names_has_no_levels() {
    let mut row = joined();
    row.constellation_name = None;
    row.region_id = None;
    let h = hierarchy_from_row(row);
    assert!(h.constellation.is_none());
    assert!(h.region.is_none());
    assert_eq!(h.system.constellation_id, Some(2));
}

fn link(id: u32, from: u32, to: u32) -> GateConnection {
    GateConnection {
        id,
        from_system_id: from,
        to_system_id: to,
        connection_type: "stargate".to_string(),
    }
}

#[test]
fn connections_are_grouped_by_system_asked() {
    let rows = vec![link(1, 10, 20), link(2, 20, 30), link(3, 30, 30), link(4, 40, 10)];
    let groups = group_connections(&vec![20, 30, 50, 10], &rows);
    let shape: Vec<(u32, Vec<u32>)> = groups
        .iter()
        .map(|g| (g.system_id, g.connections.iter().map(|c| c.id).collect()))
        .collect();
    assert_eq!(
        shape,
        vec![(20, vec![1, 2]), (30, vec![2, 3]), (50, vec![]), (10, vec![1, 4])]
    );
    assert_eq!(groups[0].connections[0].connection_type, "stargate");
}

#[test]
fn system_asked_twice_gets_connections_once() {
    let rows = vec![link(1, 10, 20)];
    let groups = group_connections(&vec![10, 10, 20], &rows);
    let counts: Vec<usize> = groups.iter().map(|g| g.connections.len()).collect();
    assert_eq!(counts, vec![1, 0, 1]);
    assert!(group_connections(&Vec::new(), &rows).is_empty());
}

#[test]
fn search_limit_is_clamped() {
    assert_eq!(clamp_search_limit(0), 1);
    assert_eq!(clamp_search_limit(1), 1);
    assert_eq!(clamp_search_limit(42), 42);
    assert_eq!(clamp_search_limit(100), 100);
    assert_eq!(clamp_search_limit(101), 100);
    assert_eq!(clamp_search_limit(usize::MAX), 100);
}

#[test]
fn type_name_response_counts_what_was_found() {
    let found = vec![
        TypeName { type_id: 1, name: "Ore".to_string() },
        TypeName { type_id: 2, name: "Core".to_string() },
    ];
    let response = search_type_names(found, "or");
    assert_eq!(response.total_found, 2);
    assert_eq!(response.query, "or");
    assert_eq!(response.type_names[1].name, "Core");
}

#[test]
fn links_are_kept_once_per_pair() {
    assert_eq!(stargate_links(5, &vec![3, 5, 9, 4, 7]), vec![(5, 5), (5, 9), (5, 7)]);
    assert!(stargate_links(5, &vec![1, 2]).is_empty());
    assert!(stargate_links(5, &Vec::new()).is_empty());
}

fn at(seconds: u64, nanos: u32) -> Timestamp {
    Timestamp { seconds, nanos }
}

#[test]
fn empty_store_is_always_due() {
    assert!(update_due(true, None, None));
    assert!(update_due(true, Some((at(1, 0), at(1, 0))), Some(100)));
    assert_eq!(needs_update(true, None, Some("-5")), Some(true));
}

#[test]
fn missing_source_file_leaves_store_alone() {
    assert!(!update_due(false, None, None));
    assert!(!update_due(false, None, Some(0)));
    assert_eq!(needs_update(false, None, Some("-5")), Some(false));
}

#[test]
fn store_is_due_when_a_file_is_newer() {
    let files = Some((at(100, 0), at(200, 0)));
    assert!(update_due(false, files, Some(150)));
    assert!(!update_due(false, files, Some(200)));
    assert!(update_due(false, Some((at(100, 0), at(200, 1))), Some(200)));
    assert!(update_due(false, Some((at(200, 1), at(100, 0))), Some(200)));
    assert!(!update_due(false, files, Some(201)));
    assert!(update_due(false, files, None));
}

#[test]
fn recorded_time_is_read_from_text() {
    let files = Some((at(100, 0), at(200, 0)));
    assert_eq!(needs_update(false, files, Some("150")), Some(true));
    assert_eq!(needs_update(false, files, Some("200")), Some(false));
    assert_eq!(needs_update(false, files, Some("not a number")), Some(true));
    assert_eq!(needs_update(false, files, Some("")), Some(true));
    assert_eq!(needs_update(false, files, None), Some(true));
    assert_eq!(needs_update(false, files, Some("-1")), None);
}

#[test]
fn names_fall_back_when_there_is_no_label() {
    assert_eq!(region_name(Some("The Forge"), 10000002), "The Forge");
    assert_eq!(region_name(None, 10000002), "Region_10000002");
    assert_eq!(region_name(None, 0), "Region_0");
    assert_eq!(catalogue_name(Some("Jita"), "J-1"), "Jita");
    assert_eq!(catalogue_name(None, "J-1"), "J-1");
}

#[test]
fn reported_system_from_stored_row() {
    let info = system_info_from_row(SystemInfoRow {
        id: 4,
        name: None,
        x: None,
        y: Some(2),
        z: None,
        region_id: None,
        constellation_id: Some(9),
        faction_id: Some(1),
    });
    assert_eq!(info.id, 4);
    assert_eq!(info.name, None);
    assert_eq!(info.center, Point3D { x: 0, y: 2, z: 0 });
    assert_eq!(info.constellation_id, Some(9));
    assert_eq!(info.faction_id, Some(1));
    assert_eq!(info.distance, None);
}
