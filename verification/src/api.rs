//! The typed statistics document returned by the remote endpoint.
//!
//! The cache and arbitration layers treat the payload as opaque raw text;
//! these types exist for the caller, which decodes the text after arbitration
//! and hands the result to the presenter. The application performs the
//! decoding itself and converts into these plain types.

use vstd::prelude::*;

verus! {

/// The top-level statistics document.
#[derive(Default, Debug, Clone, PartialEq)]
pub struct Statistics {
    /// Human-readable status message from the endpoint.
    pub message: String,
    /// The document body.
    pub data: Data,
}

/// The body of the statistics document: the reporting date and the two
/// counter groups.
#[derive(Default, Debug, Clone, PartialEq)]
pub struct Data {
    /// Reporting date as written by the endpoint.
    pub date: String,
    /// Day number of the reporting period.
    pub day: i64,
    /// The named resource the counters are scoped under.
    pub resource: String,
    /// Cumulative counters.
    pub stats: Stats,
    /// Increase of each counter since the previous period.
    pub increase: Increase,
}

/// Cumulative counters, one per equipment category.
#[derive(Default, Debug, Clone, PartialEq)]
pub struct Stats {
    /// Personnel count; the one counter the presenter renders.
    pub personnel_units: i64,
    /// Tanks.
    pub tanks: i64,
    /// Armoured fighting vehicles.
    pub armoured_fighting_vehicles: i64,
    /// Artillery systems.
    pub artillery_systems: i64,
    /// Multiple-launch rocket systems.
    pub mlrs: i64,
    /// Anti-aircraft warfare systems.
    pub aa_warfare_systems: i64,
    /// Planes.
    pub planes: i64,
    /// Helicopters.
    pub helicopters: i64,
    /// Vehicles and fuel tanks.
    pub vehicles_fuel_tanks: i64,
    /// Warships and cutters.
    pub warships_cutters: i64,
    /// Cruise missiles.
    pub cruise_missiles: i64,
    /// Unmanned aerial vehicle systems.
    pub uav_systems: i64,
    /// Special military equipment.
    pub special_military_equip: i64,
    /// Anti-tank guided missile and short-range ballistic missile systems.
    pub atgm_srbm_systems: i64,
}

/// Per-period increases, one per equipment category.
#[derive(Default, Debug, Clone, PartialEq)]
pub struct Increase {
    /// Personnel increase; the one counter the presenter renders.
    pub personnel_units: i64,
    /// Tanks.
    pub tanks: i64,
    /// Armoured fighting vehicles.
    pub armoured_fighting_vehicles: i64,
    /// Artillery systems.
    pub artillery_systems: i64,
    /// Multiple-launch rocket systems.
    pub mlrs: i64,
    /// Anti-aircraft warfare systems.
    pub aa_warfare_systems: i64,
    /// Planes.
    pub planes: i64,
    /// Helicopters.
    pub helicopters: i64,
    /// Vehicles and fuel tanks.
    pub vehicles_fuel_tanks: i64,
    /// Warships and cutters.
    pub warships_cutters: i64,
    /// Cruise missiles.
    pub cruise_missiles: i64,
    /// Unmanned aerial vehicle systems.
    pub uav_systems: i64,
    /// Special military equipment.
    pub special_military_equip: i64,
    /// Anti-tank guided missile and short-range ballistic missile systems.
    pub atgm_srbm_systems: i64,
}

} // verus!
