//! Per-kind identifiers for the domain entities the editor can address.
//!
//! Each identifier is a small copyable value. It carries no lifecycle: the
//! entity it names may or may not currently exist in the collaborating
//! stores.

use vstd::prelude::*;

verus! {

/// Identifier of a road: an index into the map's road store.
#[derive(Clone, Copy, PartialEq, Eq, Structural, Hash, Debug, PartialOrd, Ord)]
pub struct RoadID(pub usize);

/// Identifier of a lane: an index into the map's lane store.
#[derive(Clone, Copy, PartialEq, Eq, Structural, Hash, Debug, PartialOrd, Ord)]
pub struct LaneID(pub usize);

/// Identifier of an intersection: an index into the map's intersection store.
#[derive(Clone, Copy, PartialEq, Eq, Structural, Hash, Debug, PartialOrd, Ord)]
pub struct IntersectionID(pub usize);

/// Identifier of a turn through an intersection. A turn has no independent
/// anchor of its own; it is located through its parent intersection.
#[derive(Clone, Copy, PartialEq, Eq, Structural, Hash, Debug, PartialOrd, Ord)]
pub struct TurnID {
    /// The intersection the turn goes through.
    pub parent: IntersectionID,
    /// Distinguishes the turns of one intersection.
    pub idx: usize,
}

/// Identifier of a building: an index into the map's building store.
#[derive(Clone, Copy, PartialEq, Eq, Structural, Hash, Debug, PartialOrd, Ord)]
pub struct BuildingID(pub usize);

/// Identifier of a car tracked by the simulation.
#[derive(Clone, Copy, PartialEq, Eq, Structural, Hash, Debug, PartialOrd, Ord)]
pub struct CarID(pub usize);

/// Identifier of a pedestrian tracked by the simulation.
#[derive(Clone, Copy, PartialEq, Eq, Structural, Hash, Debug, PartialOrd, Ord)]
pub struct PedestrianID(pub usize);

/// Identifier of an auxiliary shape held by the render cache.
#[derive(Clone, Copy, PartialEq, Eq, Structural, Hash, Debug, PartialOrd, Ord)]
pub struct ExtraShapeID(pub usize);

/// Identifier of a parcel: an index into the map's parcel store.
#[derive(Clone, Copy, PartialEq, Eq, Structural, Hash, Debug, PartialOrd, Ord)]
pub struct ParcelID(pub usize);

/// Identifier of a bus stop: an index into the map's bus-stop store.
#[derive(Clone, Copy, PartialEq, Eq, Structural, Hash, Debug, PartialOrd, Ord)]
pub struct BusStopID(pub usize);

/// Identifier of an area: an index into the map's area store.
#[derive(Clone, Copy, PartialEq, Eq, Structural, Hash, Debug, PartialOrd, Ord)]
pub struct AreaID(pub usize);

/// Identifier of a trip tracked by the simulation.
#[derive(Clone, Copy, PartialEq, Eq, Structural, Hash, Debug, PartialOrd, Ord)]
pub struct TripID(pub usize);

/// The narrower identifier space of movable agents: every entity identifier
/// of kind car or pedestrian maps to exactly one of these; all other kinds
/// map to none.
#[derive(Clone, Copy, PartialEq, Eq, Structural, Hash, Debug, PartialOrd, Ord)]
pub enum AgentID {
    Car(CarID),
    Pedestrian(PedestrianID),
}

} // verus!
