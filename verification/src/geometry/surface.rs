//! Surfaces that a curve sweeps out along a straight path.

use vstd::prelude::*;
use crate::geometry::boundary::CurveBoundary;
use crate::geometry::curve::GenPolyline;
use crate::geometry::path::Path;
use crate::geometry::tolerance::Tolerance;
use crate::geometry::util::tri_mesh::{
    convert_point_surface_to_global,
    convert_vector_surface_to_global,
    surface_point,
};
use crate::math::point::{
    coords_add,
    coords_half,
    coords_magnitude,
    coords_scale,
    coords_sub,
    Point,
    Vector,
};
use crate::math::scalar::Scalar;
use crate::math::transform::Transform;
use crate::math::triangle::{weights_valid, Aabb, Triangle};

verus! {

/// Raw value of the weight one third, rounded down.
pub const THIRD_RAW: i64 = 333_333_333;

/// A surface that can be replaced by a mesh of triangles.
pub trait GenTriMesh {
    /// The coordinates of the origin of the surface.
    spec fn origin_coords(&self) -> Seq<Scalar>;

    /// The origin of the surface, a point that callers measure from.
    fn origin(&self) -> (r: Point<3>)
        ensures
            r@ == self.origin_coords(),
    ;

    /// The coordinates of the three corners of the triangle that stands for
    /// the surface at `point_surface`.
    spec fn triangle_corners(&self, point_surface: Point<2>, tolerance: Tolerance) -> (
        Seq<Scalar>,
        Seq<Scalar>,
        Seq<Scalar>,
    );

    /// The weights of the three corners at which the triangle meets
    /// `point_surface`. Only their proportions count.
    spec fn triangle_weights(&self, point_surface: Point<2>, tolerance: Tolerance) -> Seq<
        Scalar,
    >;

    /// The triangle that stands for the surface at `point_surface`, and the
    /// weights of its corners that give the place of `point_surface` in it.
    /// The triangle is good near that point only.
    fn triangle_at(&self, point_surface: Point<2>, tolerance: Tolerance) -> (r: (
        Triangle<3>,
        [Scalar; 3],
    ))
        ensures
            (r.0.points[0]@, r.0.points[1]@, r.0.points[2]@) == self.triangle_corners(
                point_surface,
                tolerance,
            ),
            r.1@ == self.triangle_weights(point_surface, tolerance),
            weights_valid(r.1@),
    ;

    /// The surface points of the mesh inside `boundary`.
    spec fn tri_mesh(&self, boundary: Aabb<2>, tolerance: Tolerance) -> Seq<Point<2>>;

    /// The surface points from which a mesh inside `boundary` is built.
    fn generate_tri_mesh(&self, boundary: Aabb<2>, tolerance: Tolerance) -> (r: Vec<Point<2>>)
        ensures
            r@ == self.tri_mesh(boundary, tolerance),
    ;
}

/// A surface: the curve `u`, swept along the vector `v`. The surface point
/// `(s, t)` is the point of `u` at `s`, moved by `t` times `v`.
#[derive(Clone, Copy, Debug, PartialEq, Eq, Hash, PartialOrd, Ord)]
pub struct SweptCurve {
    /// The u-axis of the surface
    pub u: Path<3>,
    /// The v-axis of the surface
    pub v: Vector<3>,
}

/// The two rows of surface points that a swept surface puts over the curve
/// parameters `params`: one at `v = 0`, one at `v = height`.
pub open spec fn mesh_rows(params: Seq<Point<1>>, height: Scalar) -> Seq<Point<2>> {
    Seq::new(
        2 * params.len(),
        |k: int|
            if k < params.len() {
                Point::<2>::from_uv(params[k].t(), Scalar::zero())
            } else {
                Point::<2>::from_uv(params[k - params.len()].t(), height)
            },
    )
}

impl GenTriMesh for SweptCurve {
    open spec fn origin_coords(&self) -> Seq<Scalar> {
        self.u.origin_coords()
    }

    fn origin(&self) -> (r: Point<3>) {
        self.u.origin()
    }

    open spec fn triangle_corners(&self, point_surface: Point<2>, tolerance: Tolerance) -> (
        Seq<Scalar>,
        Seq<Scalar>,
        Seq<Scalar>,
    ) {
        let piece = self.u.segment_coords(Point::<1>::from_t(point_surface.u()), tolerance);
        let lift = coords_scale(self.v@, point_surface.v());
        let a = coords_add(piece.0, lift);
        let b = coords_add(piece.1, lift);
        (a, b, coords_add(a, coords_half(coords_sub(b, a))))
    }

    open spec fn triangle_weights(&self, point_surface: Point<2>, tolerance: Tolerance) -> Seq<
        Scalar,
    > {
        seq![Scalar { raw: THIRD_RAW }, Scalar { raw: THIRD_RAW }, Scalar { raw: THIRD_RAW }]
    }

    fn triangle_at(&self, point_surface: Point<2>, tolerance: Tolerance) -> (r: (
        Triangle<3>,
        [Scalar; 3],
    )) {
        let piece = self.u.line_segment_at(Point::from_t(point_surface.u()), tolerance);
        let lift = self.v.scale(point_surface.v());
        let a = piece[0].add_vector(lift);
        let b = piece[1].add_vector(lift);
        // The third corner lies between the other two, so the triangle has
        // no area.
        let c = a.add_vector(b.sub_point(a).half());
        let third = Scalar { raw: THIRD_RAW };
        let weights = [third, third, third];
        assert(weights@ =~= self.triangle_weights(point_surface, tolerance));
        (Triangle::from_points(a, b, c), weights)
    }

    open spec fn tri_mesh(&self, boundary: Aabb<2>, tolerance: Tolerance) -> Seq<Point<2>> {
        mesh_rows(
            self.u.polyline(
                CurveBoundary::from_points(
                    Point::<1>::from_t(boundary.min.u()),
                    Point::<1>::from_t(boundary.max.u()),
                ),
                tolerance,
            ),
            coords_magnitude(self.v@),
        )
    }

    fn generate_tri_mesh(&self, boundary: Aabb<2>, tolerance: Tolerance) -> (r: Vec<Point<2>>) {
        let boundary_curve = CurveBoundary::from_points(
            Point::from_t(boundary.min.u()),
            Point::from_t(boundary.max.u()),
        );
        let points_curve = self.u.generate_polyline(boundary_curve, tolerance);
        let height = self.v.magnitude();
        let n = points_curve.len();
        let ghost want = mesh_rows(points_curve@, height);
        let mut out: Vec<Point<2>> = Vec::new();
        let mut i: usize = 0;
        while i < n
            invariant
                n == points_curve.len(),
                i <= n,
                want == mesh_rows(points_curve@, height),
                out@ == want.take(i as int),
            decreases n - i,
        {
            out.push(Point::from_uv(points_curve[i].t(), Scalar::zero()));
            assert(want.take(i + 1) =~= want.take(i as int).push(want[i as int]));
            i += 1;
        }
        let mut j: usize = 0;
        while j < n
            invariant
                n == points_curve.len(),
                j <= n,
                want == mesh_rows(points_curve@, height),
                out@ == want.take(n + j),
            decreases n - j,
        {
            out.push(Point::from_uv(points_curve[j].t(), height));
            assert(want.take(n + j + 1) =~= want.take(n + j).push(want[n + j]));
            j += 1;
        }
        assert(want.take(n + n) =~= want);
        out
    }
}

/// On a surface that a line sweeps out, the point in space that stands for a
/// surface point is the point of the line at the first coordinate, moved by
/// the second coordinate times the sweep: the triangle there collapses into
/// that point.
pub proof fn lemma_plane_point(surface: SweptCurve, point: Point<2>, tolerance: Tolerance)
    requires
        surface.u is Line,
    ensures
        surface_point(&surface, point, tolerance) == coords_add(
            surface.u->Line_0.point_coords(point.u()),
            coords_scale(surface.v@, point.v()),
        ),
{
    let corners = surface.triangle_corners(point, tolerance);
    let weights = surface.triangle_weights(point, tolerance);
    let a = corners.0;
    assert(corners.1 == a);
    assert(corners.2 =~= a);
    assert forall|i: int| 0 <= i < a.len() implies crate::math::triangle::weighted_mean(
        a[i],
        a[i],
        a[i],
        weights,
    ) == a[i] by {
        crate::math::triangle::lemma_mean_of_equal(a[i], weights);
    }
    assert(surface_point(&surface, point, tolerance) =~= a);
}

impl SweptCurve {
    /// The point in space that stands for the surface point `point`.
    pub fn point_from_surface_coords(&self, point: Point<2>, tolerance: Tolerance) -> (r: Point<
        3,
    >)
        ensures
            r@ == surface_point(self, point, tolerance),
    {
        convert_point_surface_to_global(self, point, tolerance)
    }

    /// The vector in space that stands for the surface vector `vector`.
    pub fn vector_from_surface_coords(&self, vector: Vector<2>, tolerance: Tolerance) -> (r:
        Vector<3>)
        ensures
            r@ == coords_sub(
                surface_point(self, vector.to_point(), tolerance),
                self.origin_coords(),
            ),
    {
        convert_vector_surface_to_global(self, vector, tolerance)
    }

    /// The image of the surface under `transform`: both axes are mapped.
    #[must_use]
    pub fn transform(self, transform: &Transform) -> (r: Self)
        ensures
            r.u is Circle <==> self.u is Circle,
            r.u.definition() == self.u.image(transform),
            r.v@ == transform.vector_image(self.v@),
    {
        let u = self.u.transform(transform);
        let v = transform.transform_vector(&self.v);
        SweptCurve { u, v }
    }
}

} // verus!
