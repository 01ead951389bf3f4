//! Plain data carried by the index and by the request layer.
//!
//! Positions and distances are real-valued quantities. This library never does
//! arithmetic on them: it stores each one as the 64-bit pattern of its IEEE 754
//! double-precision value and hands it back unchanged. Callers convert at the
//! boundary.

use std::collections::HashMap;
use vstd::prelude::*;

verus! {

/// Identifier of a catalogued solar system.
pub type SystemId = u32;

/// A real number held as the bit pattern of its double-precision value.
pub type RealBits = u64;

/// A position in metres from the galactic centre, one bit pattern per axis.
#[derive(Debug, Clone, Copy, PartialEq, Eq, Structural)]
pub struct Point3D {
    pub x: RealBits,
    pub y: RealBits,
    pub z: RealBits,
}

impl Point3D {
    /// The origin: positive zero on every axis.
    pub fn origin() -> (p: Point3D)
        ensures
            p == (Point3D { x: 0, y: 0, z: 0 }),
    {
        Point3D { x: 0, y: 0, z: 0 }
    }
}

#[derive(Debug, Clone)]
pub struct SecurityInfo {
    pub class: Option<String>,
    pub status: Option<String>,
}

#[derive(Debug, Clone)]
pub struct CelestialInfo {
    pub star_id: Option<u32>,
    pub planet_ids: Vec<u32>,
    pub planet_count_by_type: HashMap<String, u32>,
}

#[derive(Debug, Clone)]
pub struct NavigationInfo {
    pub neighbours: Vec<u32>,
    pub stargates: Vec<u32>,
}

#[derive(Debug, Clone)]
pub struct SystemMetadata {
    pub faction_id: Option<u32>,
    pub sovereignty: Option<String>,
    pub disallowed_anchor_categories: Vec<String>,
    pub disallowed_anchor_groups: Vec<String>,
}

/// One catalogued solar system. The index stores the auxiliary attributes
/// without interpreting them.
#[derive(Debug, Clone)]
pub struct SolarSystem {
    pub id: u32,
    pub name: String,
    pub center: Point3D,
    pub region_id: Option<u32>,
    pub constellation_id: Option<u32>,
    pub security: SecurityInfo,
    pub celestials: CelestialInfo,
    pub navigation: NavigationInfo,
    pub metadata: SystemMetadata,
}

#[derive(Debug, Clone)]
pub struct ConstellationMetadata {
    pub faction_id: Option<u32>,
    pub sovereignty: Option<String>,
}

/// A group of solar systems, belonging to exactly one region.
#[derive(Debug, Clone)]
pub struct Constellation {
    pub id: u32,
    pub name: String,
    pub region_id: u32,
    pub solar_system_ids: Vec<u32>,
    pub metadata: ConstellationMetadata,
}

/// A group of constellations.
#[derive(Debug, Clone)]
pub struct Region {
    pub solar_system_ids: Vec<u32>,
    pub neighbours: Vec<u32>,
    pub center: Point3D,
    pub constellation_ids: Vec<u32>,
}

/// A solar system as a response reports it. `distance` is in the unit the
/// caller handed in.
#[derive(Debug)]
pub struct SystemInfo {
    pub id: u32,
    pub name: Option<String>,
    pub center: Point3D,
    pub region_id: Option<u32>,
    pub constellation_id: Option<u32>,
    pub faction_id: Option<u32>,
    pub distance: Option<RealBits>,
}

#[derive(Debug)]
pub struct RegionInfo {
    pub id: u32,
    pub name: String,
}

#[derive(Debug)]
pub struct ConstellationInfo {
    pub id: u32,
    pub name: String,
    pub region_id: u32,
}

#[derive(Debug)]
pub struct SystemHierarchy {
    pub system: SystemInfo,
    pub constellation: Option<ConstellationInfo>,
    pub region: Option<RegionInfo>,
}

#[derive(Debug)]
pub struct ConstellationWithSystems {
    pub id: u32,
    pub name: String,
    pub region_id: u32,
    pub systems: Vec<SystemInfo>,
}

#[derive(Debug)]
pub struct RegionWithConstellations {
    pub id: u32,
    pub name: String,
    pub constellations: Vec<ConstellationWithSystems>,
}

#[derive(Debug)]
pub struct CompleteSystemHierarchy {
    pub target_system: SystemInfo,
    pub target_constellation: Option<ConstellationWithSystems>,
    pub target_region: Option<RegionWithConstellations>,
}

#[derive(Debug, Clone)]
pub struct GateConnection {
    pub id: u32,
    pub from_system_id: u32,
    pub to_system_id: u32,
    pub connection_type: String,
}

#[derive(Debug)]
pub struct SystemConnections {
    pub system_id: u32,
    pub connections: Vec<GateConnection>,
}

#[derive(Debug)]
pub struct BulkConnectionsResponse {
    pub connections: Vec<GateConnection>,
    pub total_count: usize,
    pub offset: usize,
    pub limit: usize,
}

#[derive(Debug)]
pub struct SystemMapData {
    pub id: u32,
    pub name: String,
    pub center: Point3D,
}

#[derive(Debug)]
pub struct BulkSystemsResponse {
    pub systems: Vec<SystemMapData>,
    pub total_count: usize,
    pub offset: usize,
    pub limit: usize,
}

#[derive(Debug)]
pub struct NearbySystemsResponse {
    pub center_system: SystemInfo,
    pub nearby_systems: Vec<SystemInfo>,
    pub radius: RealBits,
    pub total_found: usize,
}

#[derive(Debug)]
pub struct NearestSystemsResponse {
    pub center_system: SystemInfo,
    pub nearest_systems: Vec<SystemInfo>,
    pub k: usize,
}

#[derive(Debug)]
pub struct AutocompleteResponse {
    pub suggestions: Vec<SystemSuggestion>,
    pub query: String,
}

#[derive(Debug)]
pub struct SystemSuggestion {
    pub id: u32,
    pub name: String,
    pub region_name: Option<String>,
    pub constellation_name: Option<String>,
}

#[derive(Debug)]
pub struct NearbyQuery {
    pub name: String,
    pub radius: RealBits,
}

#[derive(Debug)]
pub struct NearestQuery {
    pub name: String,
    pub k: usize,
}

#[derive(Debug)]
pub struct AutocompleteQuery {
    pub q: String,
    pub limit: Option<usize>,
}

#[derive(Debug)]
pub struct SystemLookupQuery {
    pub id: u32,
}

#[derive(Debug)]
pub struct BulkSystemsQuery {
    pub limit: Option<usize>,
    pub offset: Option<usize>,
}

#[derive(Debug)]
pub struct SystemHierarchyQuery {
    pub id: u32,
}

#[derive(Debug)]
pub struct BulkConnectionsQuery {
    pub limit: Option<usize>,
    pub offset: Option<usize>,
    pub connection_type: Option<String>,
}

/// The answer to a health check.
#[derive(Debug)]
pub struct HealthResponse {
    pub status: String,
    pub service: String,
    pub version: String,
}

#[derive(Debug, Clone)]
pub struct TypeName {
    pub type_id: u32,
    pub name: String,
}

#[derive(Debug)]
pub struct TypeNameQuery {
    pub q: String,
    pub limit: Option<usize>,
}

#[derive(Debug, Clone)]
pub struct TypeNameResponse {
    pub type_names: Vec<TypeName>,
    pub query: String,
    pub total_found: usize,
}

} // verus!
