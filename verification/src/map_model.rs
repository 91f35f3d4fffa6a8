//! A model of the static map topology store, as seen through the narrow
//! interface this core consumes: validity queries and enough geometry per
//! entity to produce an anchor point.
//!
//! Static map entities are not expected to disappear during a session, but an
//! identifier may still be held after a map reload; every lookup therefore
//! comes in a fail-soft form alongside the validity query.

use vstd::prelude::*;

use crate::geometry::center_of;
use crate::geometry::Pt2D;
use crate::ids::AreaID;
use crate::ids::BuildingID;
use crate::ids::BusStopID;
use crate::ids::IntersectionID;
use crate::ids::LaneID;
use crate::ids::ParcelID;
use crate::ids::RoadID;
use crate::ids::TurnID;

verus! {

/// A road: its anchor is the first point of its original center line.
pub struct Road {
    pub original_center_pts: Vec<Pt2D>,
}

/// A lane: its anchor is the first point of its center line.
pub struct Lane {
    pub lane_center_pts: Vec<Pt2D>,
}

/// An intersection: a single representative point.
pub struct Intersection {
    pub point: Pt2D,
}

/// A building: its anchor is the centroid of its footprint polygon.
pub struct Building {
    pub points: Vec<Pt2D>,
}

/// A parcel: its anchor is the centroid of its polygon.
pub struct Parcel {
    pub points: Vec<Pt2D>,
}

/// An area: its anchor is the centroid of its polygon.
pub struct Area {
    pub points: Vec<Pt2D>,
}

/// A bus stop: its anchor is its position projected onto its sidewalk lane,
/// precomputed by the geometry collaborator when the stop was laid out.
pub struct BusStop {
    pub sidewalk: LaneID,
    pub sidewalk_pt: Pt2D,
}

/// The map topology store. Entities of each kind are held in a vector and
/// addressed by index; turns are addressed by their own compound identifier.
pub struct MapModel {
    pub roads: Vec<Road>,
    pub lanes: Vec<Lane>,
    pub intersections: Vec<Intersection>,
    pub turns: Vec<TurnID>,
    pub buildings: Vec<Building>,
    pub parcels: Vec<Parcel>,
    pub bus_stops: Vec<BusStop>,
    pub areas: Vec<Area>,
}

impl MapModel {
    /// Every polyline and polygon in the store is nonempty, so each valid
    /// entity yields an anchor point.
    pub open spec fn wf(self) -> bool {
        &&& forall|i: int|
            0 <= i < self.roads@.len() ==> (#[trigger] self.roads@[i]).original_center_pts@.len()
                > 0
        &&& forall|i: int|
            0 <= i < self.lanes@.len() ==> (#[trigger] self.lanes@[i]).lane_center_pts@.len() > 0
        &&& forall|i: int|
            0 <= i < self.buildings@.len() ==> (#[trigger] self.buildings@[i]).points@.len() > 0
        &&& forall|i: int|
            0 <= i < self.parcels@.len() ==> (#[trigger] self.parcels@[i]).points@.len() > 0
        &&& forall|i: int|
            0 <= i < self.areas@.len() ==> (#[trigger] self.areas@[i]).points@.len() > 0
    }

    pub open spec fn has_road(self, id: RoadID) -> bool {
        id.0 < self.roads@.len()
    }

    pub open spec fn has_lane(self, id: LaneID) -> bool {
        id.0 < self.lanes@.len()
    }

    pub open spec fn has_intersection(self, id: IntersectionID) -> bool {
        id.0 < self.intersections@.len()
    }

    pub open spec fn has_turn(self, id: TurnID) -> bool {
        self.turns@.contains(id)
    }

    pub open spec fn has_building(self, id: BuildingID) -> bool {
        id.0 < self.buildings@.len()
    }

    pub open spec fn has_parcel(self, id: ParcelID) -> bool {
        id.0 < self.parcels@.len()
    }

    pub open spec fn has_bus_stop(self, id: BusStopID) -> bool {
        id.0 < self.bus_stops@.len()
    }

    pub open spec fn has_area(self, id: AreaID) -> bool {
        id.0 < self.areas@.len()
    }

    /// The anchor of a valid road: the first point of its original center
    /// line.
    pub open spec fn road_point(self, id: RoadID) -> Pt2D
        recommends
            self.has_road(id),
    {
        self.roads@[id.0 as int].original_center_pts@[0]
    }

    /// The anchor of a valid lane: the first point of its center line.
    pub open spec fn lane_point(self, id: LaneID) -> Pt2D
        recommends
            self.has_lane(id),
    {
        self.lanes@[id.0 as int].lane_center_pts@[0]
    }

    /// The anchor of a valid intersection.
    pub open spec fn intersection_point(self, id: IntersectionID) -> Pt2D
        recommends
            self.has_intersection(id),
    {
        self.intersections@[id.0 as int].point
    }

    /// The anchor of a valid building: the centroid of its footprint.
    pub open spec fn building_point(self, id: BuildingID) -> Pt2D
        recommends
            self.has_building(id),
    {
        center_of(self.buildings@[id.0 as int].points@)
    }

    /// The anchor of a valid parcel: the centroid of its polygon.
    pub open spec fn parcel_point(self, id: ParcelID) -> Pt2D
        recommends
            self.has_parcel(id),
    {
        center_of(self.parcels@[id.0 as int].points@)
    }

    /// The anchor of a valid bus stop: its position projected onto its
    /// sidewalk.
    pub open spec fn bus_stop_point(self, id: BusStopID) -> Pt2D
        recommends
            self.has_bus_stop(id),
    {
        self.bus_stops@[id.0 as int].sidewalk_pt
    }

    /// The anchor of a valid area: the centroid of its polygon.
    pub open spec fn area_point(self, id: AreaID) -> Pt2D
        recommends
            self.has_area(id),
    {
        center_of(self.areas@[id.0 as int].points@)
    }

    /// Fail-soft road lookup: the road's anchor point, or absence when no
    /// such road exists.
    pub fn maybe_road_point(&self, id: RoadID) -> (r: Option<Pt2D>)
        requires
            self.wf(),
        ensures
            r == if self.has_road(id) {
                Some(self.road_point(id))
            } else {
                Option::<Pt2D>::None
            },
    {
        if id.0 < self.roads.len() {
            Some(self.roads[id.0].original_center_pts[0])
        } else {
            None
        }
    }

    /// Fail-soft lane lookup: the lane's anchor point, or absence.
    pub fn maybe_lane_point(&self, id: LaneID) -> (r: Option<Pt2D>)
        requires
            self.wf(),
        ensures
            r == if self.has_lane(id) {
                Some(self.lane_point(id))
            } else {
                Option::<Pt2D>::None
            },
    {
        if id.0 < self.lanes.len() {
            Some(self.lanes[id.0].lane_center_pts[0])
        } else {
            None
        }
    }

    /// Fail-soft intersection lookup: the intersection's point, or absence.
    pub fn maybe_intersection_point(&self, id: IntersectionID) -> (r: Option<Pt2D>)
        ensures
            r == if self.has_intersection(id) {
                Some(self.intersection_point(id))
            } else {
                Option::<Pt2D>::None
            },
    {
        if id.0 < self.intersections.len() {
            Some(self.intersections[id.0].point)
        } else {
            None
        }
    }

    /// Fail-soft building lookup: the centroid of the building's footprint,
    /// or absence.
    pub fn maybe_building_point(&self, id: BuildingID) -> (r: Option<Pt2D>)
        requires
            self.wf(),
        ensures
            r == if self.has_building(id) {
                Some(self.building_point(id))
            } else {
                Option::<Pt2D>::None
            },
    {
        if id.0 < self.buildings.len() {
            Some(Pt2D::center(&self.buildings[id.0].points))
        } else {
            None
        }
    }

    /// Fail-soft parcel lookup: the centroid of the parcel's polygon, or
    /// absence.
    pub fn maybe_parcel_point(&self, id: ParcelID) -> (r: Option<Pt2D>)
        requires
            self.wf(),
        ensures
            r == if self.has_parcel(id) {
                Some(self.parcel_point(id))
            } else {
                Option::<Pt2D>::None
            },
    {
        if id.0 < self.parcels.len() {
            Some(Pt2D::center(&self.parcels[id.0].points))
        } else {
            None
        }
    }

    /// Fail-soft bus-stop lookup: the stop's projected position, or absence.
    pub fn maybe_bus_stop_point(&self, id: BusStopID) -> (r: Option<Pt2D>)
        ensures
            r == if self.has_bus_stop(id) {
                Some(self.bus_stop_point(id))
            } else {
                Option::<Pt2D>::None
            },
    {
        if id.0 < self.bus_stops.len() {
            Some(self.bus_stops[id.0].sidewalk_pt)
        } else {
            None
        }
    }

    /// Fail-soft area lookup: the centroid of the area's polygon, or absence.
    pub fn maybe_area_point(&self, id: AreaID) -> (r: Option<Pt2D>)
        requires
            self.wf(),
        ensures
            r == if self.has_area(id) {
                Some(self.area_point(id))
            } else {
                Option::<Pt2D>::None
            },
    {
        if id.0 < self.areas.len() {
            Some(Pt2D::center(&self.areas[id.0].points))
        } else {
            None
        }
    }

    /// Whether the map currently holds this turn.
    pub fn contains_turn(&self, id: TurnID) -> (r: bool)
        ensures
            r == self.has_turn(id),
    {
        let mut i: usize = 0;
        while i < self.turns.len()
            invariant
                i <= self.turns@.len(),
                forall|k: int| 0 <= k < i ==> self.turns@[k] != id,
            decreases self.turns@.len() - i,
        {
            if self.turns[i].parent.0 == id.parent.0 && self.turns[i].idx == id.idx {
                assert(self.turns@[i as int] == id);
                return true;
            }
            i = i + 1;
        }
        false
    }
}

} // verus!
