//! A model of the render cache, as seen through the narrow interface this
//! core consumes: lookup of an auxiliary shape by identifier.
//!
//! The shape store does not track staleness: a shape identifier handed out
//! during a session is assumed to stay valid, so lookups here assume
//! validity instead of offering a fail-soft form.

use vstd::prelude::*;

use crate::geometry::Pt2D;
use crate::ids::ExtraShapeID;
use crate::ids::RoadID;

verus! {

/// An auxiliary drawable shape: key/value attributes, an optional associated
/// road (which may no longer resolve), and a geometric center.
pub struct ExtraShape {
    pub attributes: Vec<(String, String)>,
    pub road: Option<RoadID>,
    pub center: Pt2D,
}

/// The render cache: auxiliary shapes addressed by index.
pub struct DrawMap {
    pub extra_shapes: Vec<ExtraShape>,
}

impl DrawMap {
    pub open spec fn has_extra_shape(self, id: ExtraShapeID) -> bool {
        id.0 < self.extra_shapes@.len()
    }

    /// The shape a valid identifier denotes.
    pub open spec fn extra_shape_at(self, id: ExtraShapeID) -> ExtraShape
        recommends
            self.has_extra_shape(id),
    {
        self.extra_shapes@[id.0 as int]
    }

    /// The geometric center of a shape; assumes the identifier is valid.
    pub fn get_es_center(&self, id: ExtraShapeID) -> (r: Pt2D)
        requires
            self.has_extra_shape(id),
        ensures
            r == self.extra_shape_at(id).center,
    {
        self.extra_shapes[id.0].center
    }

    /// The road associated with a shape, if any; assumes the identifier is
    /// valid.
    pub fn get_es_road(&self, id: ExtraShapeID) -> (r: Option<RoadID>)
        requires
            self.has_extra_shape(id),
        ensures
            r == self.extra_shape_at(id).road,
    {
        self.extra_shapes[id.0].road
    }

    /// A copy of every key/value attribute attached to a shape, in store
    /// order; assumes the identifier is valid.
    pub fn get_es_attributes(&self, id: ExtraShapeID) -> (r: Vec<(String, String)>)
        requires
            self.has_extra_shape(id),
        ensures
            r@ == self.extra_shape_at(id).attributes@,
    {
        let attrs = &self.extra_shapes[id.0].attributes;
        let mut r: Vec<(String, String)> = Vec::new();
        let mut i: usize = 0;
        while i < attrs.len()
            invariant
                i <= attrs@.len(),
                r@ == attrs@.take(i as int),
            decreases attrs@.len() - i,
        {
            let pair = &attrs[i];
            r.push((pair.0.clone(), pair.1.clone()));
            proof {
                assert(r@ =~= attrs@.take(i + 1));
            }
            i = i + 1;
        }
        proof {
            assert(attrs@.take(attrs@.len() as int) =~= attrs@);
        }
        r
    }
}

} // verus!
