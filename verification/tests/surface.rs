use brep_approx::builder::surface::SurfaceBuilder;
use brep_approx::geometry::path::Path;
use brep_approx::geometry::surface::{GenTriMesh, SweptCurve};
use brep_approx::geometry::tolerance::Tolerance;
use brep_approx::geometry::util::tri_mesh::{
    convert_point_surface_to_global, convert_vector_surface_to_global,
};
use brep_approx::math::circle::Circle;
use brep_approx::math::line::Line;
use brep_approx::math::point::{Point, Vector};
use brep_approx::math::scalar::Scalar;
use brep_approx::math::transform::Transform;
use brep_approx::math::triangle::{Aabb, Triangle};

fn s(x: f64) -> Scalar {
    Scalar::from_raw((x * 1e9).round() as i64)
}

fn point(x: f64, y: f64, z: f64) -> Point<3> {
    Point::from_xyz(s(x), s(y), s(z))
}

fn vector(x: f64, y: f64, z: f64) -> Vector<3> {
    Vector::from_array([s(x), s(y), s(z)])
}

fn tolerance(x: f64) -> Tolerance {
    Tolerance::from_scalar(s(x)).unwrap()
}

fn third() -> Scalar {
    Scalar::from_raw(333_333_333)
}

/// The plane at z = 1 with u along x and v along y.
fn plane() -> SweptCurve {
    SweptCurve {
        u: Path::Line(Line::from_origin_and_direction(point(0., 0., 1.), vector(1., 0., 0.))),
        v: vector(0., 1., 0.),
    }
}

/// The cylinder of radius 1 around the z-axis, from z = 0 to z = 2.
fn cylinder() -> SweptCurve {
    SweptCurve {
        u: Path::Circle(Circle::new(point(0., 0., 0.), vector(1., 0., 0.), vector(0., 1., 0.))),
        v: vector(0., 0., 2.),
    }
}

#[test]
fn origin_of_a_swept_curve_is_the_origin_of_its_curve() {
    assert_eq!(plane().origin(), point(0., 0., 1.));
    assert_eq!(cylinder().origin(), point(1., 0., 0.));
}

#[test]
fn triangle_on_a_plane_collapses_into_the_point() {
    let (triangle, weights) = plane().triangle_at(Point::from_uv(s(2.), s(3.)), tolerance(0.1));
    let at = point(2., 3., 1.);
    assert_eq!(triangle, Triangle::from_points(at, at, at));
    assert_eq!(weights, [third(), third(), third()]);
}

#[test]
fn triangle_on_a_cylinder_spans_a_chord() {
    // 4 vertices: the corners are at the quarter turns
    let (triangle, weights) =
        cylinder().triangle_at(Point::from_uv(s(0.5), s(0.5)), tolerance(0.375));
    let a = point(1., 0., 1.);
    let b = point(0., 1., 1.);
    let c = point(0.5, 0.5, 1.);
    assert_eq!(triangle, Triangle::from_points(a, b, c));
    assert_eq!(weights, [third(), third(), third()]);
    assert_eq!(triangle.point_from_barycentric_coords(weights), c);
}

#[test]
fn barycentric_weights_count_by_their_proportions() {
    let triangle = Triangle::from_points(point(0., 0., 0.), point(3., 0., 0.), point(0., 6., 0.));
    assert_eq!(
        triangle.point_from_barycentric_coords([third(), third(), third()]),
        point(1., 2., 0.)
    );
    assert_eq!(
        triangle.point_from_barycentric_coords([s(1.), s(1.), s(1.)]),
        point(1., 2., 0.)
    );
    assert_eq!(
        triangle.point_from_barycentric_coords([s(1.), s(0.), s(0.)]),
        point(0., 0., 0.)
    );
    assert_eq!(
        triangle.point_from_barycentric_coords([s(0.), s(0.5), s(0.5)]),
        point(1.5, 3., 0.)
    );
}

#[test]
fn surface_point_on_a_plane_is_exact() {
    let surface = plane();
    let tolerance = tolerance(0.001);
    assert_eq!(
        convert_point_surface_to_global(&surface, Point::from_uv(s(2.), s(3.)), tolerance),
        point(2., 3., 1.)
    );
    assert_eq!(
        surface.point_from_surface_coords(Point::from_uv(s(-0.25), s(0.125)), tolerance),
        point(-0.25, 0.125, 1.)
    );
    assert_eq!(
        convert_vector_surface_to_global(
            &surface,
            Vector::from_array([s(2.), s(3.)]),
            tolerance
        ),
        vector(2., 3., 0.)
    );
    assert_eq!(
        surface.vector_from_surface_coords(Vector::from_array([s(0.), s(0.)]), tolerance),
        vector(0., 0., 0.)
    );
}

#[test]
fn surface_point_on_a_cylinder_lies_on_the_chord() {
    let surface = cylinder();
    let tolerance = tolerance(0.375);
    // at a corner of the polyline the chord collapses into the corner
    assert_eq!(
        surface.point_from_surface_coords(
            Point::from_uv(Scalar::from_raw(1_570_796_327), s(1.)),
            tolerance
        ),
        point(0., 1., 2.)
    );
    // between two corners it is the middle of the chord
    assert_eq!(
        surface.point_from_surface_coords(Point::from_uv(s(1.), s(0.5)), tolerance),
        point(0.5, 0.5, 1.)
    );
    assert_eq!(
        surface.vector_from_surface_coords(Vector::from_array([s(1.), s(0.5)]), tolerance),
        vector(-0.5, 0.5, 1.)
    );
}

#[test]
fn tri_mesh_of_a_cylinder_has_two_rows() {
    let surface = cylinder();
    let quarter = Scalar::from_raw(1_570_796_327);
    let boundary = Aabb::from_corners(
        Point::from_uv(s(0.), s(0.)),
        Point::from_uv(Scalar::tau(), s(1.)),
    );
    let mesh = surface.generate_tri_mesh(boundary, tolerance(0.375));
    let us = [quarter, Scalar::from_raw(2 * quarter.raw), Scalar::from_raw(3 * quarter.raw)];
    assert_eq!(
        mesh,
        vec![
            Point::from_uv(us[0], s(0.)),
            Point::from_uv(us[1], s(0.)),
            Point::from_uv(us[2], s(0.)),
            Point::from_uv(us[0], s(2.)),
            Point::from_uv(us[1], s(2.)),
            Point::from_uv(us[2], s(2.)),
        ]
    );
}

#[test]
fn tri_mesh_of_a_plane_has_no_points() {
    let boundary = Aabb::from_corners(
        Point::from_uv(s(-10.), s(-10.)),
        Point::from_uv(s(10.), s(10.)),
    );
    assert_eq!(plane().generate_tri_mesh(boundary, tolerance(0.001)), vec![]);
}

#[test]
fn transform_moves_both_axes() {
    let moved = cylinder().transform(&Transform::translation(vector(1., 2., 3.)));
    assert_eq!(
        moved,
        SweptCurve {
            u: Path::Circle(Circle::new(
                point(1., 2., 3.),
                vector(1., 0., 0.),
                vector(0., 1., 0.)
            )),
            v: vector(0., 0., 2.),
        }
    );
    assert_eq!(plane().transform(&Transform::identity()), plane());

    // a quarter turn about the z-axis, then up by one
    let mut turn = Transform::identity();
    turn.rows = [[s(0.), s(-1.), s(0.)], [s(1.), s(0.), s(0.)], [s(0.), s(0.), s(1.)]];
    turn.offset = vector(0., 0., 1.);
    assert_eq!(turn.transform_point(&point(1., 2., 3.)), point(-2., 1., 4.));
    assert_eq!(turn.transform_vector(&vector(1., 2., 3.)), vector(-2., 1., 3.));
    assert_eq!(
        plane().transform(&turn),
        SweptCurve {
            u: Path::Line(Line::from_origin_and_direction(point(0., 0., 2.), vector(0., 1., 0.))),
            v: vector(-1., 0., 0.),
        }
    );
}

#[test]
fn plane_from_three_points() {
    let surface = SurfaceBuilder::plane_from_points([
        point(1., 1., 1.),
        point(2., 1., 1.),
        point(1., 1., 3.),
    ]);
    assert_eq!(
        surface,
        SweptCurve {
            u: Path::Line(Line::from_origin_and_direction(point(1., 1., 1.), vector(1., 0., 0.))),
            v: vector(0., 0., 2.),
        }
    );
    assert_eq!(
        surface.point_from_surface_coords(Point::from_uv(s(1.), s(1.)), tolerance(0.1)),
        point(2., 1., 3.)
    );
}

#[test]
fn path_points() {
    let line = Path::line_from_points(point(0., 0., 0.), point(1., 2., 3.));
    assert_eq!(line.point_from_path_coords(Point::from_t(s(0.5))), point(0.5, 1., 1.5));
    let circle = Path::Circle(Circle::from_center_and_radius(
        Point::from_uv(s(1.), s(1.)),
        s(2.),
    ));
    assert_eq!(
        circle.point_from_path_coords(Point::from_t(Scalar::pi())),
        Point::from_uv(s(-1.), s(1.))
    );
}

#[test]
fn line_through_two_points_with_their_parameters() {
    let line = Line::from_points_with_line_coords(
        Point::from_t(s(1.)),
        Point::from_uv(s(0.), s(0.)),
        Point::from_t(s(3.)),
        Point::from_uv(s(4.), s(2.)),
    )
    .unwrap();
    assert_eq!(line.direction(), Vector::from_array([s(2.), s(1.)]));
    assert_eq!(line.origin(), Point::from_uv(s(-2.), s(-1.)));
    assert_eq!(line.point_from_line_coords(Point::from_t(s(3.))), Point::from_uv(s(4.), s(2.)));

    let same_parameter = Line::from_points_with_line_coords(
        Point::from_t(s(1.)),
        Point::from_uv(s(0.), s(0.)),
        Point::from_t(s(1.)),
        Point::from_uv(s(4.), s(2.)),
    );
    assert_eq!(same_parameter, None);
}
