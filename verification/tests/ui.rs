//! Per-frame rendering hints and the frame context bundle.

use editor_objects::geometry::Pt2D;
use editor_objects::ids::IntersectionID;
use editor_objects::ids::TurnID;
use editor_objects::map_model::MapModel;
use editor_objects::objects::ID;
use editor_objects::render::DrawMap;
use editor_objects::sim::Sim;
use editor_objects::ui::Color;
use editor_objects::ui::ColorScheme;
use editor_objects::ui::DrawCtx;
use editor_objects::ui::EventLoopMode;
use editor_objects::ui::RenderingHints;

fn empty_map() -> MapModel {
    MapModel {
        roads: vec![],
        lanes: vec![],
        intersections: vec![],
        turns: vec![],
        buildings: vec![],
        parcels: vec![],
        bus_stops: vec![],
        areas: vec![],
    }
}

fn empty_sim() -> Sim {
    Sim { active_cars: vec![], active_peds: vec![], parked_cars: vec![], trip_pts: vec![] }
}

fn plain_hints() -> RenderingHints {
    RenderingHints {
        mode: EventLoopMode::InputOnly,
        osd: String::new(),
        suppress_traffic_signal_details: None,
        hide_turn_icons: vec![],
    }
}

#[test]
fn hints_are_rebuilt_per_frame_so_hiding_does_not_leak() {
    let t5 = TurnID { parent: IntersectionID(0), idx: 5 };
    // This frame's interaction logic hides the icon of turn 5.
    let this_frame = RenderingHints {
        mode: EventLoopMode::Animation,
        osd: "following car".to_string(),
        suppress_traffic_signal_details: None,
        hide_turn_icons: vec![t5],
    };
    assert!(this_frame.hides_turn_icon(t5));
    // The next frame's logic rebuilds the hints from scratch and does not
    // re-add the turn: nothing is hidden any more.
    let next_frame = plain_hints();
    assert!(!next_frame.hides_turn_icon(t5));
    // Unless it re-adds the turn.
    let mut re_added = plain_hints();
    re_added.hide_turn_icons.push(t5);
    assert!(re_added.hides_turn_icon(t5));
}

#[test]
fn hides_turn_icon_distinguishes_turns() {
    let t = TurnID { parent: IntersectionID(2), idx: 1 };
    let other_idx = TurnID { parent: IntersectionID(2), idx: 2 };
    let other_parent = TurnID { parent: IntersectionID(3), idx: 1 };
    let hints = RenderingHints {
        mode: EventLoopMode::InputOnly,
        osd: String::new(),
        suppress_traffic_signal_details: None,
        hide_turn_icons: vec![t],
    };
    assert!(hints.hides_turn_icon(t));
    assert!(!hints.hides_turn_icon(other_idx));
    assert!(!hints.hides_turn_icon(other_parent));
}

#[test]
fn suppresses_signal_details_only_for_the_named_intersection() {
    let mut hints = plain_hints();
    assert!(!hints.suppresses_signal_details(IntersectionID(4)));
    hints.suppress_traffic_signal_details = Some(IntersectionID(4));
    assert!(hints.suppresses_signal_details(IntersectionID(4)));
    assert!(!hints.suppresses_signal_details(IntersectionID(5)));
}

#[test]
fn draw_ctx_bundles_borrowed_collaborators() {
    let cs = ColorScheme {
        colors: vec![("road".to_string(), Color { red: 10, green: 20, blue: 30, alpha: 255 })],
    };
    let map = empty_map();
    let draw_map = DrawMap { extra_shapes: vec![] };
    let sim = empty_sim();
    let hints = plain_hints();
    let ctx = DrawCtx { cs: &cs, map: &map, draw_map: &draw_map, sim: &sim, hints: &hints };
    // The bundle is usable for one inspection pass over its borrows.
    assert_eq!(ctx.cs.colors.len(), 1);
    assert_eq!(
        ID::Road(editor_objects::ids::RoadID(0)).canonical_point(ctx.map, ctx.sim, ctx.draw_map),
        None::<Pt2D>
    );
    assert_eq!(ctx.hints.mode, EventLoopMode::InputOnly);
}
