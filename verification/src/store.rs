//! What the library does with rows of the catalogue store: it turns a stored
//! system into a record, groups gate connections by system, bounds search
//! limits and decides whether the store is out of date.
//!
//! The store itself is the caller's. Rows arrive here as plain values.

use crate::models::{
    CelestialInfo, ConstellationInfo, GateConnection, NavigationInfo, Point3D, RealBits,
    RegionInfo, SecurityInfo, SolarSystem, SystemConnections, SystemHierarchy, SystemInfo,
    SystemMetadata, TypeName, TypeNameResponse,
};
use crate::seqs::{lemma_filter_next, lemma_filter_none};
use crate::spatial::SystemRecord;
use crate::text::{decimal, u32_to_string};
use vstd::string::StringExecFns;
use std::collections::HashMap;
use vstd::prelude::*;

verus! {

/// The largest number of type names that one search returns.
pub const MAX_TYPE_NAMES: usize = 100;

/// A point in time: seconds since the epoch and the nanoseconds beyond them.
#[derive(Debug, Clone, Copy, PartialEq, Eq, Structural)]
pub struct Timestamp {
    pub seconds: u64,
    pub nanos: u32,
}

/// A system as the store holds it. The list-valued attributes are stored as
/// JSON text and may be missing.
#[derive(Debug, Clone)]
pub struct SystemRow {
    pub id: u32,
    pub name: String,
    pub center: Point3D,
    pub region_id: Option<u32>,
    pub constellation_id: Option<u32>,
    pub faction_id: Option<u32>,
    pub security_class: Option<String>,
    pub security_status: Option<String>,
    pub star_id: Option<u32>,
    pub planet_ids: Option<String>,
    pub planet_count_by_type: Option<String>,
    pub neighbours: Option<String>,
    pub stargates: Option<String>,
    pub sovereignty: Option<String>,
    pub disallowed_anchor_categories: Option<String>,
    pub disallowed_anchor_groups: Option<String>,
}

/// A system joined with its constellation and region, as the store holds it.
/// A coordinate that is missing is reported as zero.
#[derive(Debug, Clone)]
pub struct HierarchyRow {
    pub id: u32,
    pub system_name: Option<String>,
    pub x: Option<RealBits>,
    pub y: Option<RealBits>,
    pub z: Option<RealBits>,
    pub region_id: Option<u32>,
    pub constellation_id: Option<u32>,
    pub faction_id: Option<u32>,
    pub constellation_name: Option<String>,
    pub constellation_region_id: Option<u32>,
    pub region_name: Option<String>,
}

/// What a JSON text holds when it is read as a list of numbers, if it can be
/// read as one.
pub uninterp spec fn json_u32_list(text: Seq<char>) -> Option<Seq<u32>>;

/// What a JSON text holds when it is read as a list of strings, if it can be
/// read as one.
pub uninterp spec fn json_text_list(text: Seq<char>) -> Option<Seq<Seq<char>>>;

/// What a JSON text holds when it is read as a table of counts by name, if it
/// can be read as one.
pub uninterp spec fn json_count_table(text: Seq<char>) -> Option<Map<Seq<char>, u32>>;

/// What a table of counts holds: the count stored under each name.
pub uninterp spec fn count_table(m: HashMap<String, u32>) -> Map<Seq<char>, u32>;

/// What a number is read from a text as, if the text is a decimal numeral
/// that fits.
pub uninterp spec fn parsed_i64(text: Seq<char>) -> Option<i64>;

/// A list of strings as plain values.
pub open spec fn texts(list: Seq<String>) -> Seq<Seq<char>> {
    list.map_values(|s: String| s@)
}

/// An optional string as plain values.
pub open spec fn opt_text(s: Option<String>) -> Option<Seq<char>> {
    match s {
        Some(text) => Some(text@),
        None => None,
    }
}

/// The list stored in an attribute: what the text holds, or nothing where the
/// attribute is missing or cannot be read.
pub open spec fn stored_numbers(attribute: Option<String>) -> Seq<u32> {
    match attribute {
        Some(text) => match json_u32_list(text@) {
            Some(list) => list,
            None => Seq::empty(),
        },
        None => Seq::empty(),
    }
}

/// The list stored in an attribute: what the text holds, or nothing where the
/// attribute is missing or cannot be read.
pub open spec fn stored_texts(attribute: Option<String>) -> Seq<Seq<char>> {
    match attribute {
        Some(text) => match json_text_list(text@) {
            Some(list) => list,
            None => Seq::empty(),
        },
        None => Seq::empty(),
    }
}

/// The table stored in an attribute: what the text holds, or nothing where
/// the attribute is missing or cannot be read.
pub open spec fn stored_counts(attribute: Option<String>) -> Map<Seq<char>, u32> {
    match attribute {
        Some(text) => match json_count_table(text@) {
            Some(table) => table,
            None => Map::empty(),
        },
        None => Map::empty(),
    }
}

/// Reads a JSON text as a list of numbers with `serde_json::from_str`.
///
/// Trusted: whether the text can be read, and what is read, depends on the
/// text alone and is named [`json_u32_list`].
#[verifier::external_body]
fn parse_u32_list(text: &str) -> (r: Option<Vec<u32>>)
    ensures
        r matches Some(list) ==> json_u32_list(text@) == Some(list@),
        r is None ==> json_u32_list(text@) is None,
{
    serde_json::from_str::<Vec<u32>>(text).ok()
}

/// Reads a JSON text as a list of strings with `serde_json::from_str`.
///
/// Trusted: whether the text can be read, and what is read, depends on the
/// text alone and is named [`json_text_list`].
#[verifier::external_body]
fn parse_text_list(text: &str) -> (r: Option<Vec<String>>)
    ensures
        r matches Some(list) ==> json_text_list(text@) == Some(texts(list@)),
        r is None ==> json_text_list(text@) is None,
{
    serde_json::from_str::<Vec<String>>(text).ok()
}

/// Reads a JSON text as a table of counts with `serde_json::from_str`.
///
/// Trusted: whether the text can be read, and what is read, depends on the
/// text alone and is named [`json_count_table`].
#[verifier::external_body]
fn parse_count_table(text: &str) -> (r: Option<HashMap<String, u32>>)
    ensures
        r matches Some(table) ==> json_count_table(text@) == Some(count_table(table)),
        r is None ==> json_count_table(text@) is None,
{
    serde_json::from_str::<HashMap<String, u32>>(text).ok()
}

/// Makes an empty table of counts with `HashMap::new`.
///
/// Trusted: a table made this way has no name.
#[verifier::external_body]
fn no_counts() -> (r: HashMap<String, u32>)
    ensures
        count_table(r).dom() == Set::<Seq<char>>::empty(),
{
    HashMap::new()
}

/// Reads a number with `str::parse`.
///
/// Trusted: whether the text is a numeral, and which number it stands for,
/// depends on the text alone and is named [`parsed_i64`].
#[verifier::external_body]
fn parse_i64(text: &str) -> (r: Option<i64>)
    ensures
        r == parsed_i64(text@),
{
    text.parse::<i64>().ok()
}

/// The list-valued attributes of a stored system after reading: each is what
/// its text held, or absent where the text was missing or could not be read.
#[derive(Debug, Clone)]
pub struct ParsedAttributes {
    pub planet_ids: Option<Vec<u32>>,
    pub planet_count_by_type: Option<HashMap<String, u32>>,
    pub neighbours: Option<Vec<u32>>,
    pub stargates: Option<Vec<u32>>,
    pub disallowed_anchor_categories: Option<Vec<String>>,
    pub disallowed_anchor_groups: Option<Vec<String>>,
}

/// A list that was read, or the empty list.
pub open spec fn numbers_or_none(list: Option<Vec<u32>>) -> Seq<u32> {
    match list {
        Some(v) => v@,
        None => Seq::empty(),
    }
}

/// A list that was read, or the empty list.
pub open spec fn texts_or_none(list: Option<Vec<String>>) -> Seq<Seq<char>> {
    match list {
        Some(v) => texts(v@),
        None => Seq::empty(),
    }
}

/// A table that was read, or the empty table.
pub open spec fn counts_or_none(table: Option<HashMap<String, u32>>) -> Map<Seq<char>, u32> {
    match table {
        Some(m) => count_table(m),
        None => Map::empty(),
    }
}

/// The attributes are those that the texts of the row hold.
pub open spec fn read_from(parsed: ParsedAttributes, row: SystemRow) -> bool {
    &&& numbers_or_none(parsed.planet_ids) == stored_numbers(row.planet_ids)
    &&& counts_or_none(parsed.planet_count_by_type) == stored_counts(row.planet_count_by_type)
    &&& numbers_or_none(parsed.neighbours) == stored_numbers(row.neighbours)
    &&& numbers_or_none(parsed.stargates) == stored_numbers(row.stargates)
    &&& texts_or_none(parsed.disallowed_anchor_categories) == stored_texts(
        row.disallowed_anchor_categories,
    )
    &&& texts_or_none(parsed.disallowed_anchor_groups) == stored_texts(
        row.disallowed_anchor_groups,
    )
}

/// Reads a stored list of numbers.
fn read_numbers(attribute: &Option<String>) -> (list: Option<Vec<u32>>)
    ensures
        numbers_or_none(list) == stored_numbers(*attribute),
{
    match attribute {
        Some(text) => parse_u32_list(text.as_str()),
        None => None,
    }
}

/// Reads a stored list of strings.
fn read_texts(attribute: &Option<String>) -> (list: Option<Vec<String>>)
    ensures
        texts_or_none(list) == stored_texts(*attribute),
{
    match attribute {
        Some(text) => parse_text_list(text.as_str()),
        None => None,
    }
}

/// Reads a stored table of counts.
fn read_counts(attribute: &Option<String>) -> (table: Option<HashMap<String, u32>>)
    ensures
        counts_or_none(table) == stored_counts(*attribute),
{
    match attribute {
        Some(text) => parse_count_table(text.as_str()),
        None => None,
    }
}

/// Puts a record together from a stored system and its attributes as far as
/// they could be read. An attribute that is absent is left empty.
pub fn system_from_parts(row: SystemRow, parsed: ParsedAttributes) -> (record: SystemRecord)
    ensures
        record.0 == row.id,
        record.2@ == row.name@,
        record.1.id == row.id,
        record.1.name@ == row.name@,
        record.1.center == row.center,
        record.1.region_id == row.region_id,
        record.1.constellation_id == row.constellation_id,
        opt_text(record.1.security.class) == opt_text(row.security_class),
        opt_text(record.1.security.status) == opt_text(row.security_status),
        record.1.celestials.star_id == row.star_id,
        record.1.celestials.planet_ids@ == numbers_or_none(parsed.planet_ids),
        count_table(record.1.celestials.planet_count_by_type) == counts_or_none(
            parsed.planet_count_by_type,
        ),
        record.1.navigation.neighbours@ == numbers_or_none(parsed.neighbours),
        record.1.navigation.stargates@ == numbers_or_none(parsed.stargates),
        record.1.metadata.faction_id == row.faction_id,
        opt_text(record.1.metadata.sovereignty) == opt_text(row.sovereignty),
        texts(record.1.metadata.disallowed_anchor_categories@) == texts_or_none(
            parsed.disallowed_anchor_categories,
        ),
        texts(record.1.metadata.disallowed_anchor_groups@) == texts_or_none(
            parsed.disallowed_anchor_groups,
        ),
{
    let planet_ids = match parsed.planet_ids {
        Some(list) => list,
        None => Vec::new(),
    };
    let planet_count_by_type = match parsed.planet_count_by_type {
        Some(table) => table,
        None => {
            let table = no_counts();
            assert(count_table(table) =~= Map::empty());
            table
        },
    };
    let neighbours = match parsed.neighbours {
        Some(list) => list,
        None => Vec::new(),
    };
    let stargates = match parsed.stargates {
        Some(list) => list,
        None => Vec::new(),
    };
    let disallowed_anchor_categories = match parsed.disallowed_anchor_categories {
        Some(list) => list,
        None => Vec::new(),
    };
    let disallowed_anchor_groups = match parsed.disallowed_anchor_groups {
        Some(list) => list,
        None => Vec::new(),
    };
    assert(texts(disallowed_anchor_categories@) =~= texts_or_none(
        parsed.disallowed_anchor_categories,
    ));
    assert(texts(disallowed_anchor_groups@) =~= texts_or_none(parsed.disallowed_anchor_groups));
    let system = SolarSystem {
        id: row.id,
        name: row.name.clone(),
        center: row.center,
        region_id: row.region_id,
        constellation_id: row.constellation_id,
        security: SecurityInfo { class: row.security_class, status: row.security_status },
        celestials: CelestialInfo { star_id: row.star_id, planet_ids, planet_count_by_type },
        navigation: NavigationInfo { neighbours, stargates },
        metadata: SystemMetadata {
            faction_id: row.faction_id,
            sovereignty: row.sovereignty,
            disallowed_anchor_categories,
            disallowed_anchor_groups,
        },
    };
    (row.id, system, row.name)
}

/// Reads the list-valued attributes of a stored system.
pub fn read_attributes(row: &SystemRow) -> (parsed: ParsedAttributes)
    ensures
        read_from(parsed, *row),
{
    ParsedAttributes {
        planet_ids: read_numbers(&row.planet_ids),
        planet_count_by_type: read_counts(&row.planet_count_by_type),
        neighbours: read_numbers(&row.neighbours),
        stargates: read_numbers(&row.stargates),
        disallowed_anchor_categories: read_texts(&row.disallowed_anchor_categories),
        disallowed_anchor_groups: read_texts(&row.disallowed_anchor_groups),
    }
}

/// Turns a stored system into the record that the index keeps. An attribute
/// whose text is missing or cannot be read is left empty; the row is never
/// refused.
pub fn system_from_row(row: SystemRow) -> (record: SystemRecord)
    ensures
        record.0 == row.id,
        record.2@ == row.name@,
        record.1.id == row.id,
        record.1.name@ == row.name@,
        record.1.center == row.center,
        record.1.region_id == row.region_id,
        record.1.constellation_id == row.constellation_id,
        opt_text(record.1.security.class) == opt_text(row.security_class),
        opt_text(record.1.security.status) == opt_text(row.security_status),
        record.1.celestials.star_id == row.star_id,
        record.1.celestials.planet_ids@ == stored_numbers(row.planet_ids),
        count_table(record.1.celestials.planet_count_by_type) == stored_counts(
            row.planet_count_by_type,
        ),
        record.1.navigation.neighbours@ == stored_numbers(row.neighbours),
        record.1.navigation.stargates@ == stored_numbers(row.stargates),
        record.1.metadata.faction_id == row.faction_id,
        opt_text(record.1.metadata.sovereignty) == opt_text(row.sovereignty),
        texts(record.1.metadata.disallowed_anchor_categories@) == stored_texts(
            row.disallowed_anchor_categories,
        ),
        texts(record.1.metadata.disallowed_anchor_groups@) == stored_texts(
            row.disallowed_anchor_groups,
        ),
{
    let parsed = read_attributes(&row);
    system_from_parts(row, parsed)
}

/// A system as the store holds it for a report: what is known of it, with
/// coordinates that may be missing.
#[derive(Debug, Clone)]
pub struct SystemInfoRow {
    pub id: u32,
    pub name: Option<String>,
    pub x: Option<RealBits>,
    pub y: Option<RealBits>,
    pub z: Option<RealBits>,
    pub region_id: Option<u32>,
    pub constellation_id: Option<u32>,
    pub faction_id: Option<u32>,
}

/// A coordinate of a stored system, zero where it is missing.
pub open spec fn coordinate_or_zero(c: Option<RealBits>) -> RealBits {
    match c {
        Some(bits) => bits,
        None => 0,
    }
}

/// A coordinate of a stored system, zero where it is missing.
fn or_zero(c: Option<RealBits>) -> (bits: RealBits)
    ensures
        bits == coordinate_or_zero(c),
{
    match c {
        Some(bits) => bits,
        None => 0,
    }
}

/// Turns a stored system into a reported one, at no distance from anything.
pub fn system_info_from_row(row: SystemInfoRow) -> (info: SystemInfo)
    ensures
        info.id == row.id,
        opt_text(info.name) == opt_text(row.name),
        info.center == (Point3D {
            x: coordinate_or_zero(row.x),
            y: coordinate_or_zero(row.y),
            z: coordinate_or_zero(row.z),
        }),
        info.region_id == row.region_id,
        info.constellation_id == row.constellation_id,
        info.faction_id == row.faction_id,
        info.distance is None,
{
    SystemInfo {
        id: row.id,
        name: row.name,
        center: Point3D { x: or_zero(row.x), y: or_zero(row.y), z: or_zero(row.z) },
        region_id: row.region_id,
        constellation_id: row.constellation_id,
        faction_id: row.faction_id,
        distance: None,
    }
}

/// Turns a joined row into a system with its constellation and region. The
/// constellation is reported if the system names one and the store knows its
/// name; so is the region.
pub fn hierarchy_from_row(row: HierarchyRow) -> (h: SystemHierarchy)
    ensures
        h.system.id == row.id,
        opt_text(h.system.name) == opt_text(row.system_name),
        h.system.center == (Point3D {
            x: coordinate_or_zero(row.x),
            y: coordinate_or_zero(row.y),
            z: coordinate_or_zero(row.z),
        }),
        h.system.region_id == row.region_id,
        h.system.constellation_id == row.constellation_id,
        h.system.faction_id == row.faction_id,
        h.system.distance is None,
        h.constellation is Some <==> row.constellation_id is Some && row.constellation_name
            is Some,
        h.constellation matches Some(c) ==> c.id == row.constellation_id->Some_0 && c.name@
            == row.constellation_name->Some_0@ && c.region_id == (match row.constellation_region_id {
            Some(r) => r,
            None => 0,
        }),
        h.region is Some <==> row.region_id is Some && row.region_name is Some,
        h.region matches Some(r) ==> r.id == row.region_id->Some_0 && r.name@
            == row.region_name->Some_0@,
{
    let system = system_info_from_row(
        SystemInfoRow {
            id: row.id,
            name: row.system_name,
            x: row.x,
            y: row.y,
            z: row.z,
            region_id: row.region_id,
            constellation_id: row.constellation_id,
            faction_id: row.faction_id,
        },
    );
    let constellation = match (row.constellation_id, row.constellation_name) {
        (Some(id), Some(name)) => Some(
            ConstellationInfo {
                id,
                name,
                region_id: match row.constellation_region_id {
                    Some(r) => r,
                    None => 0,
                },
            },
        ),
        _ => None,
    };
    let region = match (row.region_id, row.region_name) {
        (Some(id), Some(name)) => Some(RegionInfo { id, name }),
        _ => None,
    };
    SystemHierarchy { system, constellation, region }
}

/// The name under which a region is stored: its label, or a name made of its
/// id where it has none.
pub open spec fn region_name_spec(label: Option<&str>, id: u32) -> Seq<char> {
    match label {
        Some(text) => text@,
        None => "Region_"@ + decimal(id as nat),
    }
}

/// The name under which a region is stored.
pub fn region_name(label: Option<&str>, id: u32) -> (name: String)
    ensures
        name@ == region_name_spec(label, id),
{
    match label {
        Some(text) => text.to_owned(),
        None => {
            let number = u32_to_string(id);
            String::from_str("Region_").concat(number.as_str())
        },
    }
}

/// The name under which a system or constellation is stored: its label, or
/// the name that the source data gives it where it has none.
pub fn catalogue_name(label: Option<&str>, given: &str) -> (name: String)
    ensures
        name@ == (match label {
            Some(text) => text@,
            None => given@,
        }),
{
    match label {
        Some(text) => text.to_owned(),
        None => given.to_owned(),
    }
}

/// A gate connection as plain values.
pub struct ConnectionView {
    pub id: u32,
    pub from_system_id: u32,
    pub to_system_id: u32,
    pub connection_type: Seq<char>,
}

impl View for GateConnection {
    type V = ConnectionView;

    open spec fn view(&self) -> ConnectionView {
        ConnectionView {
            id: self.id,
            from_system_id: self.from_system_id,
            to_system_id: self.to_system_id,
            connection_type: self.connection_type@,
        }
    }
}

/// A list of connections as plain values.
pub open spec fn connection_rows(list: Seq<GateConnection>) -> Seq<ConnectionView> {
    list.map_values(|c: GateConnection| c@)
}

/// The test for the connections that touch a system.
pub open spec fn touches(system: u32) -> spec_fn(ConnectionView) -> bool {
    |c: ConnectionView| c.from_system_id == system || c.to_system_id == system
}

/// `system` is asked for before position `at` of `asked` already.
pub open spec fn asked_before(asked: Seq<u32>, at: int) -> bool {
    exists|j: int| 0 <= j < at && #[trigger] asked[j] == asked[at]
}

/// The connections listed for the system at position `at` of a bulk request:
/// all that touch it, in the order of the store. A system that is asked for
/// twice gets its connections the first time and none after that.
pub open spec fn grouped_at(asked: Seq<u32>, connections: Seq<ConnectionView>, at: int) -> Seq<
    ConnectionView,
> {
    if asked_before(asked, at) {
        Seq::empty()
    } else {
        connections.filter(touches(asked[at]))
    }
}

/// Whether `system` is among the first `n` of `asked`.
fn seen_before(asked: &Vec<u32>, n: usize) -> (seen: bool)
    requires
        n < asked.len(),
    ensures
        seen == asked_before(asked@, n as int),
{
    let mut j: usize = 0;
    while j < n
        invariant
            j <= n < asked.len(),
            forall|k: int| 0 <= k < j ==> asked@[k] != asked@[n as int],
        decreases n - j,
    {
        if asked[j] == asked[n] {
            return true;
        }
        j = j + 1;
    }
    false
}

/// The connections of `connections` that touch `system`, copied.
fn connections_of(connections: &Vec<GateConnection>, system: u32) -> (found: Vec<GateConnection>)
    ensures
        connection_rows(found@) == connection_rows(connections@).filter(touches(system)),
{
    let mut out: Vec<GateConnection> = Vec::new();
    let ghost all = connection_rows(connections@);
    let ghost keep = touches(system);
    let mut i: usize = 0;
    proof {
        lemma_filter_none(all, keep);
        assert(connection_rows(out@) =~= all.take(0).filter(keep));
    }
    while i < connections.len()
        invariant
            i <= connections.len(),
            all == connection_rows(connections@),
            keep == touches(system),
            connection_rows(out@) == all.take(i as int).filter(keep),
        decreases connections.len() - i,
    {
        let c = &connections[i];
        let ghost shown = out@;
        proof {
            lemma_filter_next(all, i as int, keep);
            assert(all[i as int] == connections@[i as int]@);
        }
        if c.from_system_id == system || c.to_system_id == system {
            out.push(
                GateConnection {
                    id: c.id,
                    from_system_id: c.from_system_id,
                    to_system_id: c.to_system_id,
                    connection_type: c.connection_type.clone(),
                },
            );
            assert(connection_rows(out@) =~= connection_rows(shown).push(all[i as int]));
        }
        i = i + 1;
    }
    assert(all.take(connections.len() as int) =~= all);
    out
}

/// Groups the connections that the store returned for a bulk request by the
/// systems that were asked for: one entry per system asked for, in the order
/// asked.
pub fn group_connections(asked: &Vec<u32>, connections: &Vec<GateConnection>) -> (groups: Vec<
    SystemConnections,
>)
    ensures
        groups@.len() == asked@.len(),
        forall|i: int|
            0 <= i < asked@.len() ==> (#[trigger] groups@[i]).system_id == asked@[i]
                && connection_rows(groups@[i].connections@) == grouped_at(
                asked@,
                connection_rows(connections@),
                i,
            ),
{
    let mut out: Vec<SystemConnections> = Vec::new();
    let mut i: usize = 0;
    while i < asked.len()
        invariant
            i <= asked.len(),
            out@.len() == i,
            forall|k: int|
                0 <= k < i ==> (#[trigger] out@[k]).system_id == asked@[k] && connection_rows(
                    out@[k].connections@,
                ) == grouped_at(asked@, connection_rows(connections@), k),
        decreases asked.len() - i,
    {
        let system_id = asked[i];
        let found = if seen_before(asked, i) {
            let none: Vec<GateConnection> = Vec::new();
            assert(connection_rows(none@) =~= Seq::<ConnectionView>::empty());
            none
        } else {
            connections_of(connections, system_id)
        };
        out.push(SystemConnections { system_id, connections: found });
        i = i + 1;
    }
    out
}

/// The limit that the store searches type names with: at least one, at most
/// [`MAX_TYPE_NAMES`].
pub fn clamp_search_limit(limit: usize) -> (bounded: usize)
    ensures
        1 <= bounded <= MAX_TYPE_NAMES,
        1 <= limit <= MAX_TYPE_NAMES ==> bounded == limit,
        limit == 0 ==> bounded == 1,
        limit > MAX_TYPE_NAMES ==> bounded == MAX_TYPE_NAMES,
{
    if limit > MAX_TYPE_NAMES {
        MAX_TYPE_NAMES
    } else if limit < 1 {
        1
    } else {
        limit
    }
}

/// The response to a search for type names: what was found, the query, and
/// how many were found.
pub fn search_type_names(type_names: Vec<TypeName>, query: &str) -> (response: TypeNameResponse)
    ensures
        response.type_names == type_names,
        response.query@ == query@,
        response.total_found == type_names@.len(),
{
    let total_found = type_names.len();
    TypeNameResponse { type_names, query: query.to_owned(), total_found }
}

/// The connections that the store keeps on behalf of one system, namely one
/// to each neighbour whose id is not below its own, so that a connection
/// between two systems is kept once.
pub fn stargate_links(from: u32, neighbours: &Vec<u32>) -> (links: Vec<(u32, u32)>)
    ensures
        links@ == neighbours@.filter(|to: u32| from <= to).map_values(|to: u32| (from, to)),
{
    let mut out: Vec<(u32, u32)> = Vec::new();
    let ghost keep = |to: u32| from <= to;
    let ghost pair = |to: u32| (from, to);
    let mut i: usize = 0;
    proof {
        lemma_filter_none(neighbours@, keep);
        assert(out@ =~= neighbours@.take(0).filter(keep).map_values(pair));
    }
    while i < neighbours.len()
        invariant
            i <= neighbours.len(),
            keep == (|to: u32| from <= to),
            pair == (|to: u32| (from, to)),
            out@ == neighbours@.take(i as int).filter(keep).map_values(pair),
        decreases neighbours.len() - i,
    {
        let to = neighbours[i];
        proof {
            lemma_filter_next(neighbours@, i as int, keep);
        }
        if from <= to {
            out.push((from, to));
            assert(out@ =~= neighbours@.take(i + 1).filter(keep).map_values(pair));
        }
        i = i + 1;
    }
    assert(neighbours@.take(neighbours.len() as int) =~= neighbours@);
    out
}

/// `t` lies after the full second `seconds`.
pub open spec fn is_after(t: Timestamp, seconds: u64) -> bool {
    t.seconds > seconds || (t.seconds == seconds && t.nanos > 0)
}

/// Whether the store is out of date: it is empty; or both source files exist
/// and either no time of a last update is recorded, or one of the files was
/// modified after it. A store that is not empty is left alone when a source
/// file is missing.
pub open spec fn update_due_spec(
    is_empty: bool,
    files: Option<(Timestamp, Timestamp)>,
    last_update: Option<i64>,
) -> bool {
    if is_empty {
        true
    } else {
        match files {
            None => false,
            Some((cartography, labels)) => match last_update {
                None => true,
                Some(t) => is_after(cartography, t as u64) || is_after(labels, t as u64),
            },
        }
    }
}

/// Decides whether the store is out of date. `files` holds the modification
/// times of the two source files if both exist; `last_update` is the time of
/// the last update in seconds since the epoch, if one is recorded.
pub fn update_due(is_empty: bool, files: Option<(Timestamp, Timestamp)>, last_update: Option<i64>) -> (due:
    bool)
    requires
        last_update matches Some(t) ==> t >= 0,
    ensures
        due == update_due_spec(is_empty, files, last_update),
{
    if is_empty {
        return true;
    }
    match files {
        None => false,
        Some((cartography, labels)) => match last_update {
            None => true,
            Some(t) => {
                let seconds = t as u64;
                cartography.seconds > seconds || (cartography.seconds == seconds
                    && cartography.nanos > 0) || labels.seconds > seconds || (labels.seconds
                    == seconds && labels.nanos > 0)
            },
        },
    }
}

/// The time of the last update that a stored text records, if it records one.
pub open spec fn recorded_update(text: Option<&str>) -> Option<i64> {
    match text {
        Some(t) => parsed_i64(t@),
        None => None,
    }
}

/// The decision with a recorded time that may lie before the epoch: there is
/// no answer where the decision comes down to such a time.
pub open spec fn needs_update_spec(
    is_empty: bool,
    files: Option<(Timestamp, Timestamp)>,
    last_update: Option<i64>,
) -> Option<bool> {
    if !is_empty && files is Some && last_update is Some && last_update->Some_0 < 0 {
        None
    } else {
        Some(update_due_spec(is_empty, files, last_update))
    }
}

/// Decides whether the store is out of date from the text that records the
/// last update. A text that is no number counts as no record. There is no
/// answer where the decision comes down to a recorded time before the epoch.
pub fn needs_update(
    is_empty: bool,
    files: Option<(Timestamp, Timestamp)>,
    last_update: Option<&str>,
) -> (due: Option<bool>)
    ensures
        due == needs_update_spec(is_empty, files, recorded_update(last_update)),
{
    if is_empty {
        return Some(true);
    }
    if files.is_none() {
        return Some(false);
    }
    let recorded = match last_update {
        Some(text) => parse_i64(text),
        None => None,
    };
    match recorded {
        Some(t) => {
            if t < 0 {
                None
            } else {
                Some(update_due(is_empty, files, recorded))
            }
        },
        None => Some(update_due(is_empty, files, recorded)),
    }
}

} // verus!
