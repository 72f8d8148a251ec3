//! Boxes that hold an object.

use vstd::prelude::*;
use crate::geometry::path::{surface_point_on, Path};
use crate::geometry::store::{Geometry, HalfEdgeGeom};
use crate::math::point::{coords_add, coords_sub, Vector};
use crate::math::scalar::Scalar;
use crate::math::triangle::{coords_max, coords_min, Aabb};
use crate::storage::Handle;
use crate::topology::HalfEdge;

verus! {

/// The corners of the box around a half-edge with the definition
/// `geometry`, the smaller one first. For a half-edge on a circle it is the
/// box around the whole circle; for one on a line, the box around its two
/// ends.
pub open spec fn half_edge_box(geometry: &HalfEdgeGeom) -> (Seq<Scalar>, Seq<Scalar>) {
    match geometry.path {
        Path::Circle(circle) => {
            let reach = seq![circle.radius(), circle.radius()];
            (coords_sub(circle.center@, reach), coords_add(circle.center@, reach))
        },
        Path::Line(_) => {
            let start = surface_point_on(&geometry.path, geometry.boundary.inner[0]);
            let end = surface_point_on(&geometry.path, geometry.boundary.inner[1]);
            (coords_min(start@, end@), coords_max(start@, end@))
        },
    }
}

/// An object that a box can be put around.
pub trait BoundingVolume<const D: usize> {
    /// The corners of the box, the smaller one first, where there is one.
    spec fn bounds(&self, geometry: &Geometry) -> Option<(Seq<Scalar>, Seq<Scalar>)>;

    /// A box with sides along the axes that holds the object; none where
    /// the object has no geometry.
    fn aabb(&self, geometry: &Geometry) -> (r: Option<Aabb<D>>)
        ensures
            match r {
                Some(aabb) => self.bounds(geometry) == Some((aabb.min@, aabb.max@)),
                None => self.bounds(geometry) is None,
            },
    ;
}

impl BoundingVolume<2> for Handle<HalfEdge> {
    open spec fn bounds(&self, geometry: &Geometry) -> Option<(Seq<Scalar>, Seq<Scalar>)> {
        if geometry.half_edges().contains_key(self.id()) {
            Some(half_edge_box(&geometry.half_edges()[self.id()]))
        } else {
            None
        }
    }

    fn aabb(&self, geometry: &Geometry) -> (r: Option<Aabb<2>>) {
        match geometry.of_half_edge(self) {
            None => None,
            Some(geom) => match geom.path {
                Path::Circle(circle) => {
                    // Just the box around the whole circle. This is not the
                    // tightest one, but it holds the half-edge.
                    let center_to_min_max = Vector {
                        components: [circle.radius(), circle.radius()],
                    };
                    assert(center_to_min_max@ =~= seq![circle.radius(), circle.radius()]);
                    let center = circle.center();
                    Some(
                        Aabb {
                            min: center.to_vector().sub(center_to_min_max).to_point(),
                            max: center.add_vector(center_to_min_max),
                        },
                    )
                },
                Path::Line(_) => {
                    let start = geom.path.surface_point(geom.boundary.inner[0]);
                    let end = geom.path.surface_point(geom.boundary.inner[1]);
                    Some(Aabb::from_two_points(start, end))
                },
            },
        }
    }
}

} // verus!
