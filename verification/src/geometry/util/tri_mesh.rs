//! From surface coordinates to space, by way of the triangle mesh.

use vstd::prelude::*;
use crate::geometry::surface::GenTriMesh;
use crate::geometry::tolerance::Tolerance;
use crate::math::point::{coords_sub, Point, Vector};
use crate::math::scalar::Scalar;
use crate::math::triangle::barycentric_point;

verus! {

/// The coordinates in space of the surface point `point`: the triangle that
/// stands for the surface there, taken at the weights that belong to it.
pub open spec fn surface_point<S: GenTriMesh>(
    surface: &S,
    point: Point<2>,
    tolerance: Tolerance,
) -> Seq<Scalar> {
    let corners = surface.triangle_corners(point, tolerance);
    let weights = surface.triangle_weights(point, tolerance);
    barycentric_point(corners.0, corners.1, corners.2, weights)
}

/// The point in space that stands for the surface point `point`.
pub fn convert_point_surface_to_global<S: GenTriMesh>(
    surface: &S,
    point: Point<2>,
    tolerance: Tolerance,
) -> (r: Point<3>)
    ensures
        r@ == surface_point(surface, point, tolerance),
{
    let (triangle, barycentric_coords) = surface.triangle_at(point, tolerance);
    triangle.point_from_barycentric_coords(barycentric_coords)
}

/// The vector in space that stands for the surface vector `vector`: where
/// the surface point with its components lies, seen from the origin of the
/// surface.
pub fn convert_vector_surface_to_global<S: GenTriMesh>(
    surface: &S,
    vector: Vector<2>,
    tolerance: Tolerance,
) -> (r: Vector<3>)
    ensures
        r@ == coords_sub(
            surface_point(surface, vector.to_point(), tolerance),
            surface.origin_coords(),
        ),
{
    let point = convert_point_surface_to_global(surface, vector.to_point(), tolerance);
    point.sub_point(surface.origin())
}

} // verus!
