//! Builder for surfaces.

use vstd::prelude::*;
use crate::geometry::path::Path;
use crate::geometry::surface::SweptCurve;
use crate::math::point::{coords_sub, Point};

verus! {

/// Builder API for surfaces
pub struct SurfaceBuilder {}

impl SurfaceBuilder {
    /// Create a plane from the provided points: the plane through `a`, `b`
    /// and `c` in which `a` is the origin, `b` lies at `u = 1` and `c` at
    /// `v = 1`.
    pub fn plane_from_points(points: [Point<3>; 3]) -> (r: SweptCurve)
        ensures
            r.u is Line,
            r.u->Line_0.origin == points[0],
            r.u->Line_0.direction@ == coords_sub(points[1]@, points[0]@),
            r.v@ == coords_sub(points[2]@, points[0]@),
    {
        let a = points[0];
        let b = points[1];
        let c = points[2];
        SweptCurve { u: Path::line_from_points(a, b), v: c.sub_point(a) }
    }
}

} // verus!
