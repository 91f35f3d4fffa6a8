//! The unified entity identifier and its per-variant dispatchers.
//!
//! `ID` is a closed sum over the twelve entity kinds the editor can address.
//! Every operation over it handles all twelve cases; adding a kind means
//! updating every dispatcher, which the exhaustive matches enforce at
//! compile time.
//!
//! Two failure policies coexist by design. The debug path assumes the
//! identifier is currently valid and its contract demands that of the
//! caller. The resolution path tolerates staleness and reports absence
//! instead.

use core::cmp::Ordering;
use vstd::prelude::*;

use crate::geometry::Pt2D;
use crate::ids::AgentID;
use crate::ids::AreaID;
use crate::ids::BuildingID;
use crate::ids::BusStopID;
use crate::ids::CarID;
use crate::ids::ExtraShapeID;
use crate::ids::IntersectionID;
use crate::ids::LaneID;
use crate::ids::ParcelID;
use crate::ids::PedestrianID;
use crate::ids::RoadID;
use crate::ids::TripID;
use crate::ids::TurnID;
use crate::map_model::MapModel;
use crate::render::DrawMap;
use crate::sim::car_ids_of;
use crate::sim::owned_car_ids;
use crate::sim::Sim;

verus! {

/// The unified identifier: one closed, copyable, hashable, totally ordered
/// key over every kind of entity the editor can select, inspect or follow.
#[derive(Clone, Copy, PartialEq, Eq, Structural, Hash, Debug, Ord)]
pub enum ID {
    Road(RoadID),
    Lane(LaneID),
    Intersection(IntersectionID),
    Turn(TurnID),
    Building(BuildingID),
    Car(CarID),
    Pedestrian(PedestrianID),
    ExtraShape(ExtraShapeID),
    Parcel(ParcelID),
    BusStop(BusStopID),
    Area(AreaID),
    Trip(TripID),
}

/// The position of an identifier's variant in the declared variant order.
pub open spec fn variant_rank(id: ID) -> int {
    match id {
        ID::Road(_) => 0,
        ID::Lane(_) => 1,
        ID::Intersection(_) => 2,
        ID::Turn(_) => 3,
        ID::Building(_) => 4,
        ID::Car(_) => 5,
        ID::Pedestrian(_) => 6,
        ID::ExtraShape(_) => 7,
        ID::Parcel(_) => 8,
        ID::BusStop(_) => 9,
        ID::Area(_) => 10,
        ID::Trip(_) => 11,
    }
}

/// The first component of an identifier's inner id.
pub open spec fn primary_key(id: ID) -> int {
    match id {
        ID::Road(r) => r.0 as int,
        ID::Lane(l) => l.0 as int,
        ID::Intersection(i) => i.0 as int,
        ID::Turn(t) => t.parent.0 as int,
        ID::Building(b) => b.0 as int,
        ID::Car(c) => c.0 as int,
        ID::Pedestrian(p) => p.0 as int,
        ID::ExtraShape(e) => e.0 as int,
        ID::Parcel(p) => p.0 as int,
        ID::BusStop(b) => b.0 as int,
        ID::Area(a) => a.0 as int,
        ID::Trip(t) => t.0 as int,
    }
}

/// The second component of an identifier's inner id; only a turn has one.
pub open spec fn secondary_key(id: ID) -> int {
    match id {
        ID::Turn(t) => t.idx as int,
        _ => 0,
    }
}

/// The total order on identifiers: variant order first, then the inner id,
/// lexicographically.
pub open spec fn id_cmp(a: ID, b: ID) -> Ordering {
    if variant_rank(a) != variant_rank(b) {
        if variant_rank(a) < variant_rank(b) {
            Ordering::Less
        } else {
            Ordering::Greater
        }
    } else if primary_key(a) != primary_key(b) {
        if primary_key(a) < primary_key(b) {
            Ordering::Less
        } else {
            Ordering::Greater
        }
    } else if secondary_key(a) != secondary_key(b) {
        if secondary_key(a) < secondary_key(b) {
            Ordering::Less
        } else {
            Ordering::Greater
        }
    } else {
        Ordering::Equal
    }
}

/// The agent projection: the movable-agent identifier an entity identifier
/// corresponds to, where only agents are relevant.
pub open spec fn agent_id_of(id: ID) -> Option<AgentID> {
    match id {
        ID::Car(c) => Some(AgentID::Car(c)),
        ID::Pedestrian(p) => Some(AgentID::Pedestrian(p)),
        _ => None,
    }
}

/// What the debug dispatcher assumes of its identifier: the entity is
/// currently valid in its owning store. Debug output is a developer-facing
/// side channel, so demanding validity of the caller is the intended
/// contract; only currently-selected, hence currently-valid, ids are dumped.
pub open spec fn debug_valid(id: ID, map: MapModel, sim: Sim, draw_map: DrawMap) -> bool {
    match id {
        ID::Road(r) => map.has_road(r),
        ID::Lane(l) => map.has_lane(l),
        ID::Intersection(i) => map.has_intersection(i),
        ID::Turn(t) => map.has_turn(t),
        ID::Building(b) => map.has_building(b),
        ID::Car(c) => sim.car_pt(c) is Some,
        ID::Pedestrian(p) => sim.ped_pt(p) is Some,
        ID::ExtraShape(e) => draw_map.has_extra_shape(e),
        ID::Parcel(p) => map.has_parcel(p),
        ID::BusStop(b) => map.has_bus_stop(b),
        ID::Area(a) => map.has_area(a),
        ID::Trip(t) => sim.trip_pt(t) is Some,
    }
}

/// A diagnostic report: which collaborator-provided dump the identifier
/// delegates to, together with the dynamic state the dump mixes in.
#[derive(PartialEq, Eq, Debug)]
pub enum DebugReport {
    /// An unconditional map lookup-and-dump of a static entity.
    MapEntity { id: ID },
    /// The map dump of an intersection plus the simulation's per-intersection
    /// debug hook, for its dynamic signal and queue state.
    Intersection { id: IntersectionID },
    /// The map dump of a building plus every simulation-tracked parked
    /// vehicle it owns: the count and the owning-agent identifiers, in the
    /// order the simulation returns them.
    Building { id: BuildingID, parked_count: usize, parked_cars: Vec<CarID> },
    /// The simulation's per-agent debug hook; agents have no static-map
    /// representation.
    Agent { id: AgentID },
    /// The render cache's auxiliary-shape dump: every attached key/value
    /// attribute and the shape's associated road, which may be absent.
    ExtraShape { attributes: Vec<(String, String)>, road: Option<RoadID> },
    /// The simulation's per-trip debug hook.
    Trip { id: TripID },
}

/// What the debug dispatcher reports for a valid identifier.
pub open spec fn debug_report_matches(
    id: ID,
    map: MapModel,
    sim: Sim,
    draw_map: DrawMap,
    r: DebugReport,
) -> bool {
    match id {
        ID::Intersection(i) => r == DebugReport::Intersection { id: i },
        ID::Building(b) => r matches DebugReport::Building { id: rid, parked_count, parked_cars }
            && rid == b && parked_cars@ == owned_car_ids(sim.parked_cars@, b) && parked_count
            == parked_cars@.len(),
        ID::Car(c) => r == DebugReport::Agent { id: AgentID::Car(c) },
        ID::Pedestrian(p) => r == DebugReport::Agent { id: AgentID::Pedestrian(p) },
        ID::ExtraShape(e) => r matches DebugReport::ExtraShape { attributes, road } && attributes@
            == draw_map.extra_shape_at(e).attributes@ && road == draw_map.extra_shape_at(e).road,
        ID::Trip(t) => r == DebugReport::Trip { id: t },
        ID::Road(_) | ID::Lane(_) | ID::Turn(_) | ID::Parcel(_) | ID::BusStop(_) | ID::Area(_) => r
            == DebugReport::MapEntity { id },
    }
}

/// Where each kind of entity resolves to a representative anchor point, for
/// camera-follow on a possibly stale selection. Every variant but the extra
/// shape reports absence once the entity is gone from its owning store.
pub open spec fn canonical_point_of(
    id: ID,
    map: MapModel,
    sim: Sim,
    draw_map: DrawMap,
) -> Option<Pt2D> {
    match id {
        ID::Road(r) => if map.has_road(r) {
            Some(map.road_point(r))
        } else {
            None
        },
        ID::Lane(l) => if map.has_lane(l) {
            Some(map.lane_point(l))
        } else {
            None
        },
        ID::Intersection(i) => if map.has_intersection(i) {
            Some(map.intersection_point(i))
        } else {
            None
        },
        ID::Turn(t) => if map.has_intersection(t.parent) {
            Some(map.intersection_point(t.parent))
        } else {
            None
        },
        ID::Building(b) => if map.has_building(b) {
            Some(map.building_point(b))
        } else {
            None
        },
        ID::Car(c) => sim.car_pt(c),
        ID::Pedestrian(p) => sim.ped_pt(p),
        ID::ExtraShape(e) => Some(draw_map.extra_shape_at(e).center),
        ID::Parcel(p) => if map.has_parcel(p) {
            Some(map.parcel_point(p))
        } else {
            None
        },
        ID::BusStop(b) => if map.has_bus_stop(b) {
            Some(map.bus_stop_point(b))
        } else {
            None
        },
        ID::Area(a) => if map.has_area(a) {
            Some(map.area_point(a))
        } else {
            None
        },
        ID::Trip(t) => sim.trip_pt(t),
    }
}

impl ID {
    /// The agent projection: the corresponding movable-agent identifier for
    /// the car and pedestrian variants, none for every other variant. Pure
    /// and total.
    pub fn agent_id(&self) -> (r: Option<AgentID>)
        ensures
            r == agent_id_of(*self),
    {
        match *self {
            ID::Car(id) => Some(AgentID::Car(id)),
            ID::Pedestrian(id) => Some(AgentID::Pedestrian(id)),
            _ => None,
        }
    }

    /// The debug dispatcher: delegates the identifier to the dump operation
    /// of its owning collaborator and reports what was dumped. Assumes the
    /// entity is currently valid; the simulation reference is mutable
    /// because its debug hooks may compute and cache internally, but the
    /// observable snapshot is left unchanged.
    pub fn debug(&self, map: &MapModel, sim: &mut Sim, draw_map: &DrawMap) -> (r: DebugReport)
        requires
            debug_valid(*self, *map, *old(sim), *draw_map),
        ensures
            *final(sim) == *old(sim),
            debug_report_matches(*self, *map, *old(sim), *draw_map, r),
    {
        match *self {
            ID::Road(_) | ID::Lane(_) | ID::Turn(_) | ID::Parcel(_) | ID::BusStop(_)
                | ID::Area(_) => DebugReport::MapEntity { id: *self },
            ID::Intersection(id) => DebugReport::Intersection { id },
            ID::Building(id) => {
                let parked = sim.get_parked_cars_by_owner(id);
                let cars = car_ids_of(&parked);
                let count = cars.len();
                DebugReport::Building { id, parked_count: count, parked_cars: cars }
            },
            ID::Car(id) => DebugReport::Agent { id: AgentID::Car(id) },
            ID::Pedestrian(id) => DebugReport::Agent { id: AgentID::Pedestrian(id) },
            ID::ExtraShape(id) => DebugReport::ExtraShape {
                attributes: draw_map.get_es_attributes(id),
                road: draw_map.get_es_road(id),
            },
            ID::Trip(id) => DebugReport::Trip { id },
        }
    }

    /// The canonical-point resolver: a representative anchor point when the
    /// entity still exists in its owning store, absence otherwise. Read-only
    /// and fail-soft, so a stale selection (say, a despawned car) skips a
    /// frame's camera action instead of aborting.
    pub fn canonical_point(&self, map: &MapModel, sim: &Sim, draw_map: &DrawMap) -> (r: Option<
        Pt2D,
    >)
        requires
            map.wf(),
            *self matches ID::ExtraShape(e) ==> draw_map.has_extra_shape(e),
        ensures
            r == canonical_point_of(*self, *map, *sim, *draw_map),
    {
        match *self {
            ID::Road(id) => map.maybe_road_point(id),
            ID::Lane(id) => map.maybe_lane_point(id),
            ID::Intersection(id) => map.maybe_intersection_point(id),
            ID::Turn(id) => map.maybe_intersection_point(id.parent),
            ID::Building(id) => map.maybe_building_point(id),
            ID::Car(id) => sim.get_draw_car_pt(id),
            ID::Pedestrian(id) => sim.get_draw_ped_pt(id),
            ID::ExtraShape(id) => Some(draw_map.get_es_center(id)),
            ID::Parcel(id) => map.maybe_parcel_point(id),
            ID::BusStop(id) => map.maybe_bus_stop_point(id),
            ID::Area(id) => map.maybe_area_point(id),
            ID::Trip(id) => sim.get_canonical_pt_per_trip(id),
        }
    }

    fn rank(&self) -> (r: u8)
        ensures
            r as int == variant_rank(*self),
    {
        match *self {
            ID::Road(_) => 0,
            ID::Lane(_) => 1,
            ID::Intersection(_) => 2,
            ID::Turn(_) => 3,
            ID::Building(_) => 4,
            ID::Car(_) => 5,
            ID::Pedestrian(_) => 6,
            ID::ExtraShape(_) => 7,
            ID::Parcel(_) => 8,
            ID::BusStop(_) => 9,
            ID::Area(_) => 10,
            ID::Trip(_) => 11,
        }
    }

    fn key1(&self) -> (r: usize)
        ensures
            r as int == primary_key(*self),
    {
        match *self {
            ID::Road(r) => r.0,
            ID::Lane(l) => l.0,
            ID::Intersection(i) => i.0,
            ID::Turn(t) => t.parent.0,
            ID::Building(b) => b.0,
            ID::Car(c) => c.0,
            ID::Pedestrian(p) => p.0,
            ID::ExtraShape(e) => e.0,
            ID::Parcel(p) => p.0,
            ID::BusStop(b) => b.0,
            ID::Area(a) => a.0,
            ID::Trip(t) => t.0,
        }
    }

    fn key2(&self) -> (r: usize)
        ensures
            r as int == secondary_key(*self),
    {
        match *self {
            ID::Turn(t) => t.idx,
            _ => 0,
        }
    }
}

impl PartialOrd for ID {
    /// Compares by variant order, then by the inner id.
    fn partial_cmp(&self, other: &ID) -> (r: Option<Ordering>) {
        let ra = self.rank();
        let rb = other.rank();
        if ra < rb {
            Some(Ordering::Less)
        } else if rb < ra {
            Some(Ordering::Greater)
        } else {
            let ka = self.key1();
            let kb = other.key1();
            if ka < kb {
                Some(Ordering::Less)
            } else if kb < ka {
                Some(Ordering::Greater)
            } else {
                let sa = self.key2();
                let sb = other.key2();
                if sa < sb {
                    Some(Ordering::Less)
                } else if sb < sa {
                    Some(Ordering::Greater)
                } else {
                    Some(Ordering::Equal)
                }
            }
        }
    }
}

impl vstd::std_specs::cmp::PartialOrdSpecImpl for ID {
    open spec fn obeys_partial_cmp_spec() -> bool {
        true
    }

    open spec fn partial_cmp_spec(&self, other: &ID) -> Option<Ordering> {
        Some(id_cmp(*self, *other))
    }
}

/// The projection to agents is exact: an identifier projects to an agent id
/// exactly when its variant is a car or a pedestrian, and the wrapped
/// identifier round-trips unchanged.
pub proof fn lemma_agent_id_projection(id: ID)
    ensures
        agent_id_of(id) is Some <==> (id is Car || id is Pedestrian),
        id matches ID::Car(c) ==> agent_id_of(id) == Some(AgentID::Car(c)),
        id matches ID::Pedestrian(p) ==> agent_id_of(id) == Some(AgentID::Pedestrian(p)),
{
}

/// The order is consistent with equality: two identifiers compare equal
/// exactly when they are the same identifier. In particular the strict order
/// is irreflexive.
pub proof fn lemma_id_cmp_equality(a: ID, b: ID)
    ensures
        id_cmp(a, b) == Ordering::Equal <==> a == b,
{
}

/// The order is antisymmetric: swapping the arguments swaps strictly-below
/// and strictly-above.
pub proof fn lemma_id_cmp_antisymmetric(a: ID, b: ID)
    ensures
        id_cmp(a, b) == Ordering::Less <==> id_cmp(b, a) == Ordering::Greater,
{
}

/// The order is transitive.
pub proof fn lemma_id_cmp_transitive(a: ID, b: ID, c: ID)
    requires
        id_cmp(a, b) == Ordering::Less,
        id_cmp(b, c) == Ordering::Less,
    ensures
        id_cmp(a, c) == Ordering::Less,
{
}

/// The order is total: any two distinct identifiers are strictly ordered one
/// way or the other.
pub proof fn lemma_id_cmp_trichotomy(a: ID, b: ID)
    ensures
        a != b ==> id_cmp(a, b) == Ordering::Less || id_cmp(a, b) == Ordering::Greater,
{
    lemma_id_cmp_equality(a, b);
}

/// A stale agent identifier resolves to absence, never a failure: once the
/// simulation no longer tracks the car or pedestrian, the canonical point is
/// absent.
pub proof fn lemma_removed_agent_resolves_to_absence(
    id: ID,
    map: MapModel,
    sim: Sim,
    draw_map: DrawMap,
)
    requires
        agent_id_of(id) is Some,
        id matches ID::Car(c) ==> sim.car_pt(c) is None,
        id matches ID::Pedestrian(p) ==> sim.ped_pt(p) is None,
    ensures
        canonical_point_of(id, map, sim, draw_map) is None,
{
}

/// A turn has no independent anchor: its canonical point equals the
/// canonical point computed for its parent intersection.
pub proof fn lemma_turn_resolves_via_parent(t: TurnID, map: MapModel, sim: Sim, draw_map: DrawMap)
    ensures
        canonical_point_of(ID::Turn(t), map, sim, draw_map) == canonical_point_of(
            ID::Intersection(t.parent),
            map,
            sim,
            draw_map,
        ),
{
}

/// An extra shape held by the render cache always resolves to a point, even
/// when its associated road no longer exists in the map: the shape store
/// does not track staleness, unlike every other variant's owning store.
pub proof fn lemma_extra_shape_always_resolves(
    e: ExtraShapeID,
    map: MapModel,
    sim: Sim,
    draw_map: DrawMap,
)
    requires
        draw_map.has_extra_shape(e),
    ensures
        canonical_point_of(ID::ExtraShape(e), map, sim, draw_map) is Some,
{
}

} // verus!
