//! A model of the simulation engine, as seen through the narrow interface
//! this core consumes: live agent render snapshots, per-trip canonical
//! points, and the parked vehicles owned by a building.
//!
//! Agents come and go as the simulation runs, so every per-agent query is
//! fail-soft: an identifier whose agent has despawned resolves to absence.

use vstd::prelude::*;

use crate::geometry::Pt2D;
use crate::ids::BuildingID;
use crate::ids::CarID;
use crate::ids::PedestrianID;
use crate::ids::TripID;

verus! {

/// A vehicle parked somewhere in the world, owned by a building.
#[derive(Clone, Copy, PartialEq, Eq, Structural, Debug)]
pub struct ParkedCar {
    pub car: CarID,
    pub owner: BuildingID,
}

/// The first point associated with a key in a keyed sequence, scanning from
/// the front; absence when the key is not present.
pub open spec fn lookup_pt<K>(entries: Seq<(K, Pt2D)>, key: K) -> Option<Pt2D>
    decreases entries.len(),
{
    if entries.len() == 0 {
        None
    } else if entries.first().0 == key {
        Some(entries.first().1)
    } else {
        lookup_pt(entries.drop_first(), key)
    }
}

/// The parked vehicles owned by a building, in the order the simulation
/// holds them.
pub open spec fn parked_by_owner(parked: Seq<ParkedCar>, owner: BuildingID) -> Seq<ParkedCar>
    decreases parked.len(),
{
    if parked.len() == 0 {
        Seq::empty()
    } else {
        let rest = parked_by_owner(parked.drop_last(), owner);
        if parked.last().owner == owner {
            rest.push(parked.last())
        } else {
            rest
        }
    }
}

/// The identifiers of the parked vehicles owned by a building, in the order
/// the simulation holds them.
pub open spec fn owned_car_ids(parked: Seq<ParkedCar>, owner: BuildingID) -> Seq<CarID> {
    parked_by_owner(parked, owner).map_values(|p: ParkedCar| p.car)
}

/// The identifier of each parked vehicle in a list, in order.
pub fn car_ids_of(parked: &Vec<ParkedCar>) -> (r: Vec<CarID>)
    ensures
        r@ == parked@.map_values(|p: ParkedCar| p.car),
{
    let mut r: Vec<CarID> = Vec::new();
    let mut i: usize = 0;
    proof {
        assert(r@ =~= parked@.take(0).map_values(|p: ParkedCar| p.car));
    }
    while i < parked.len()
        invariant
            i <= parked@.len(),
            r@ == parked@.take(i as int).map_values(|p: ParkedCar| p.car),
        decreases parked@.len() - i,
    {
        r.push(parked[i].car);
        proof {
            assert(r@ =~= parked@.take(i + 1).map_values(|p: ParkedCar| p.car));
        }
        i = i + 1;
    }
    proof {
        assert(parked@.take(parked@.len() as int) =~= parked@);
    }
    r
}

/// The simulation snapshot. Live agents are keyed by identifier with their
/// current drawn position; parked vehicles are held in the simulation's own
/// order; trips that currently admit a canonical point are keyed likewise.
pub struct Sim {
    pub active_cars: Vec<(CarID, Pt2D)>,
    pub active_peds: Vec<(PedestrianID, Pt2D)>,
    pub parked_cars: Vec<ParkedCar>,
    pub trip_pts: Vec<(TripID, Pt2D)>,
}

impl Sim {
    /// The drawn position of a live car, or absence once it has despawned.
    pub open spec fn car_pt(self, id: CarID) -> Option<Pt2D> {
        lookup_pt(self.active_cars@, id)
    }

    /// The drawn position of a live pedestrian, or absence once it has
    /// despawned.
    pub open spec fn ped_pt(self, id: PedestrianID) -> Option<Pt2D> {
        lookup_pt(self.active_peds@, id)
    }

    /// The canonical point of a trip, or absence when the simulation cannot
    /// place the trip.
    pub open spec fn trip_pt(self, id: TripID) -> Option<Pt2D> {
        lookup_pt(self.trip_pts@, id)
    }

    /// A live render snapshot of a car: its drawn position, or absence when
    /// the car is not currently active.
    pub fn get_draw_car_pt(&self, id: CarID) -> (r: Option<Pt2D>)
        ensures
            r == self.car_pt(id),
    {
        let mut i: usize = 0;
        proof {
            assert(self.active_cars@.skip(0) =~= self.active_cars@);
        }
        while i < self.active_cars.len()
            invariant
                i <= self.active_cars@.len(),
                lookup_pt(self.active_cars@, id) == lookup_pt(self.active_cars@.skip(i as int), id),
            decreases self.active_cars@.len() - i,
        {
            proof {
                assert(self.active_cars@.skip(i as int).first() == self.active_cars@[i as int]);
                assert(self.active_cars@.skip(i as int).drop_first() =~= self.active_cars@.skip(
                    i + 1,
                ));
            }
            if self.active_cars[i].0 .0 == id.0 {
                return Some(self.active_cars[i].1);
            }
            i = i + 1;
        }
        proof {
            assert(self.active_cars@.skip(self.active_cars@.len() as int) =~= Seq::<(
                CarID,
                Pt2D,
            )>::empty());
        }
        None
    }

    /// A live render snapshot of a pedestrian: its drawn position, or
    /// absence when the pedestrian is not currently active.
    pub fn get_draw_ped_pt(&self, id: PedestrianID) -> (r: Option<Pt2D>)
        ensures
            r == self.ped_pt(id),
    {
        let mut i: usize = 0;
        proof {
            assert(self.active_peds@.skip(0) =~= self.active_peds@);
        }
        while i < self.active_peds.len()
            invariant
                i <= self.active_peds@.len(),
                lookup_pt(self.active_peds@, id) == lookup_pt(self.active_peds@.skip(i as int), id),
            decreases self.active_peds@.len() - i,
        {
            proof {
                assert(self.active_peds@.skip(i as int).first() == self.active_peds@[i as int]);
                assert(self.active_peds@.skip(i as int).drop_first() =~= self.active_peds@.skip(
                    i + 1,
                ));
            }
            if self.active_peds[i].0 .0 == id.0 {
                return Some(self.active_peds[i].1);
            }
            i = i + 1;
        }
        proof {
            assert(self.active_peds@.skip(self.active_peds@.len() as int) =~= Seq::<(
                PedestrianID,
                Pt2D,
            )>::empty());
        }
        None
    }

    /// The canonical point the simulation computes for a trip, or absence
    /// when the trip cannot be placed.
    pub fn get_canonical_pt_per_trip(&self, id: TripID) -> (r: Option<Pt2D>)
        ensures
            r == self.trip_pt(id),
    {
        let mut i: usize = 0;
        proof {
            assert(self.trip_pts@.skip(0) =~= self.trip_pts@);
        }
        while i < self.trip_pts.len()
            invariant
                i <= self.trip_pts@.len(),
                lookup_pt(self.trip_pts@, id) == lookup_pt(self.trip_pts@.skip(i as int), id),
            decreases self.trip_pts@.len() - i,
        {
            proof {
                assert(self.trip_pts@.skip(i as int).first() == self.trip_pts@[i as int]);
                assert(self.trip_pts@.skip(i as int).drop_first() =~= self.trip_pts@.skip(i + 1));
            }
            if self.trip_pts[i].0 .0 == id.0 {
                return Some(self.trip_pts[i].1);
            }
            i = i + 1;
        }
        proof {
            assert(self.trip_pts@.skip(self.trip_pts@.len() as int) =~= Seq::<(
                TripID,
                Pt2D,
            )>::empty());
        }
        None
    }

    /// Every parked vehicle owned by the given building, in the order the
    /// simulation holds them.
    pub fn get_parked_cars_by_owner(&self, owner: BuildingID) -> (r: Vec<ParkedCar>)
        ensures
            r@ == parked_by_owner(self.parked_cars@, owner),
    {
        let mut r: Vec<ParkedCar> = Vec::new();
        let mut i: usize = 0;
        while i < self.parked_cars.len()
            invariant
                i <= self.parked_cars@.len(),
                r@ == parked_by_owner(self.parked_cars@.take(i as int), owner),
            decreases self.parked_cars@.len() - i,
        {
            proof {
                assert(self.parked_cars@.take(i + 1).drop_last() =~= self.parked_cars@.take(
                    i as int,
                ));
                assert(self.parked_cars@.take(i + 1).last() == self.parked_cars@[i as int]);
            }
            if self.parked_cars[i].owner.0 == owner.0 {
                r.push(self.parked_cars[i]);
            }
            i = i + 1;
        }
        proof {
            assert(self.parked_cars@.take(self.parked_cars@.len() as int) =~= self.parked_cars@);
        }
        r
    }
}

} // verus!
