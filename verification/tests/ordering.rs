//! Equality, ordering and hashing of the unified identifier are mutually
//! consistent, and the order follows variant order then inner-id order.

use std::cmp::Ordering;
use std::collections::hash_map::DefaultHasher;
use std::collections::BTreeSet;
use std::collections::HashSet;
use std::hash::Hash;
use std::hash::Hasher;

use editor_objects::ids::AreaID;
use editor_objects::ids::BuildingID;
use editor_objects::ids::BusStopID;
use editor_objects::ids::CarID;
use editor_objects::ids::ExtraShapeID;
use editor_objects::ids::IntersectionID;
use editor_objects::ids::LaneID;
use editor_objects::ids::ParcelID;
use editor_objects::ids::PedestrianID;
use editor_objects::ids::RoadID;
use editor_objects::ids::TripID;
use editor_objects::ids::TurnID;
use editor_objects::objects::ID;

fn one_of_each() -> Vec<ID> {
    vec![
        ID::Road(RoadID(1)),
        ID::Lane(LaneID(1)),
        ID::Intersection(IntersectionID(1)),
        ID::Turn(TurnID { parent: IntersectionID(1), idx: 1 }),
        ID::Building(BuildingID(1)),
        ID::Car(CarID(1)),
        ID::Pedestrian(PedestrianID(1)),
        ID::ExtraShape(ExtraShapeID(1)),
        ID::Parcel(ParcelID(1)),
        ID::BusStop(BusStopID(1)),
        ID::Area(AreaID(1)),
        ID::Trip(TripID(1)),
    ]
}

fn hash_of(id: ID) -> u64 {
    let mut h = DefaultHasher::new();
    id.hash(&mut h);
    h.finish()
}

#[test]
fn equal_ids_hash_equal() {
    for id in one_of_each() {
        let copy = id;
        assert_eq!(id, copy);
        assert_eq!(hash_of(id), hash_of(copy));
    }
    let a = ID::Turn(TurnID { parent: IntersectionID(5), idx: 2 });
    let b = ID::Turn(TurnID { parent: IntersectionID(5), idx: 2 });
    assert_eq!(a, b);
    assert_eq!(hash_of(a), hash_of(b));
}

#[test]
fn partial_cmp_is_total_and_matches_equality() {
    let ids = one_of_each();
    for &a in &ids {
        for &b in &ids {
            let c = a.partial_cmp(&b).expect("every pair of ids is comparable");
            assert_eq!(c == Ordering::Equal, a == b);
            assert_eq!(
                a.partial_cmp(&b) == Some(Ordering::Less),
                b.partial_cmp(&a) == Some(Ordering::Greater)
            );
        }
    }
}

#[test]
fn order_is_variant_order_then_inner_id() {
    // Sorting by the derived total order groups variants in declaration
    // order and orders inner ids within a variant.
    let mut v = vec![
        ID::Trip(TripID(0)),
        ID::Car(CarID(4)),
        ID::Car(CarID(2)),
        ID::Road(RoadID(9)),
        ID::Road(RoadID(3)),
        ID::Turn(TurnID { parent: IntersectionID(2), idx: 0 }),
        ID::Turn(TurnID { parent: IntersectionID(1), idx: 7 }),
    ];
    v.sort();
    assert_eq!(
        v,
        vec![
            ID::Road(RoadID(3)),
            ID::Road(RoadID(9)),
            ID::Turn(TurnID { parent: IntersectionID(1), idx: 7 }),
            ID::Turn(TurnID { parent: IntersectionID(2), idx: 0 }),
            ID::Car(CarID(2)),
            ID::Car(CarID(4)),
            ID::Trip(TripID(0)),
        ]
    );
}

#[test]
fn derived_cmp_agrees_with_partial_cmp() {
    let mut ids = one_of_each();
    ids.push(ID::Road(RoadID(7)));
    ids.push(ID::Turn(TurnID { parent: IntersectionID(1), idx: 9 }));
    for &a in &ids {
        for &b in &ids {
            assert_eq!(a.partial_cmp(&b), Some(a.cmp(&b)));
        }
    }
}

#[test]
fn usable_as_sorted_and_hashed_set_key() {
    let mut sorted: BTreeSet<ID> = BTreeSet::new();
    let mut hashed: HashSet<ID> = HashSet::new();
    for id in one_of_each() {
        sorted.insert(id);
        sorted.insert(id);
        hashed.insert(id);
        hashed.insert(id);
    }
    assert_eq!(sorted.len(), 12);
    assert_eq!(hashed.len(), 12);
    assert!(hashed.contains(&ID::Car(CarID(1))));
    assert!(!hashed.contains(&ID::Car(CarID(2))));
}
