//! Per-frame rendering directives and the read-only context bundle handed
//! to rendering and inspection code.

use vstd::prelude::*;

use crate::ids::IntersectionID;
use crate::ids::TurnID;
use crate::map_model::MapModel;
use crate::render::DrawMap;
use crate::sim::Sim;

verus! {

/// What the host event loop should do after this frame.
#[derive(Clone, Copy, PartialEq, Eq, Structural, Debug)]
pub enum EventLoopMode {
    /// Keep redrawing: something is animating.
    Animation,
    /// Wait for input before drawing again.
    InputOnly,
}

/// A color as the color scheme hands it out.
#[derive(Clone, Copy, PartialEq, Eq, Structural, Debug)]
pub struct Color {
    pub red: u8,
    pub green: u8,
    pub blue: u8,
    pub alpha: u8,
}

/// The color scheme collaborator: named colors for the renderer. This core
/// only carries it through to rendering code.
pub struct ColorScheme {
    pub colors: Vec<(String, Color)>,
}

/// Per-frame rendering and event-loop directives, produced by whichever
/// plugin or interaction logic is active and consumed by the renderer.
///
/// A value of this type describes one frame only: it is reconstructed each
/// frame rather than mutated across frames, so stale suppression or hiding
/// state never leaks into a frame where it no longer applies.
pub struct RenderingHints {
    /// The event-loop directive for this frame.
    pub mode: EventLoopMode,
    /// The status-line text for this frame.
    pub osd: String,
    /// An intersection whose traffic-signal rendering detail should be
    /// suppressed this frame, if any.
    pub suppress_traffic_signal_details: Option<IntersectionID>,
    /// The turns whose icons should be hidden this frame.
    pub hide_turn_icons: Vec<TurnID>,
}

impl RenderingHints {
    /// Whether this frame hides the icon of the given turn.
    pub fn hides_turn_icon(&self, t: TurnID) -> (r: bool)
        ensures
            r == self.hide_turn_icons@.contains(t),
    {
        let mut i: usize = 0;
        while i < self.hide_turn_icons.len()
            invariant
                i <= self.hide_turn_icons@.len(),
                forall|k: int| 0 <= k < i ==> self.hide_turn_icons@[k] != t,
            decreases self.hide_turn_icons@.len() - i,
        {
            if self.hide_turn_icons[i].parent.0 == t.parent.0 && self.hide_turn_icons[i].idx
                == t.idx {
                assert(self.hide_turn_icons@[i as int] == t);
                return true;
            }
            i = i + 1;
        }
        false
    }

    /// Whether this frame suppresses the traffic-signal detail of the given
    /// intersection.
    pub fn suppresses_signal_details(&self, i: IntersectionID) -> (r: bool)
        ensures
            r == (self.suppress_traffic_signal_details == Some(i)),
    {
        match self.suppress_traffic_signal_details {
            Some(s) => s.0 == i.0,
            None => false,
        }
    }
}

/// An ephemeral, non-owning bundle of the read-only collaborators a
/// rendering or inspection pass needs: the color scheme, the map, the render
/// cache, the simulation snapshot and this frame's hints. It exists to avoid
/// threading five parameters through every call; its borrows enforce that no
/// collaborator is mutated while a pass holds them, and no component may
/// retain it past the pass.
pub struct DrawCtx<'a> {
    pub cs: &'a ColorScheme,
    pub map: &'a MapModel,
    pub draw_map: &'a DrawMap,
    pub sim: &'a Sim,
    pub hints: &'a RenderingHints,
}

} // verus!
