use brep_approx::geometry::boundary::CurveBoundary;
use brep_approx::geometry::curve::GenPolyline;
use brep_approx::geometry::curves::circle::CircleApproxParams;
use brep_approx::geometry::tolerance::Tolerance;
use brep_approx::math::circle::Circle;
use brep_approx::math::point::Point;
use brep_approx::geometry::curves::circle::MAX_VERTICES;
use brep_approx::geometry::path::Path;
use brep_approx::geometry::tolerance::InvalidTolerance;
use brep_approx::math::line::Line;
use brep_approx::math::point::Vector;
use brep_approx::math::scalar::Scalar;

const TAU: f64 = 6.283185308;

fn s(x: f64) -> Scalar {
    Scalar::from_raw((x * 1e9).round() as i64)
}

fn tolerance(x: f64) -> Tolerance {
    Tolerance::from_scalar(s(x)).unwrap()
}

fn unit_circle(radius: f64) -> Circle<2> {
    Circle::from_center_and_radius(Point::from_uv(s(0.), s(0.)), s(radius))
}

#[test]
fn increment_for_circle() {
    test_increment(1., 0.5, 3.);
    test_increment(1., 0.1, 7.);
    test_increment(1., 0.01, 23.);

    fn test_increment(radius: f64, tolerance_value: f64, expected_num_vertices: f64) {
        let circle = unit_circle(radius);
        let params = CircleApproxParams::new(&circle, tolerance(tolerance_value));

        let expected_increment = Scalar::tau().checked_div(s(expected_num_vertices)).unwrap();
        assert_eq!(params.increment(), expected_increment);
    }
}

#[test]
fn points_for_circle() {
    // At the chosen values for radius and tolerance (see below), the
    // increment is a quarter turn, so ~1.57.

    // Empty range
    test_path([0., 0.], &[]);

    // Ranges contain all generated points. Start is before the first
    // increment and after the last one in each case.
    test_path([0., TAU], &[1., 2., 3.]);
    test_path([1., TAU], &[1., 2., 3.]);
    test_path([0., TAU - 1.], &[1., 2., 3.]);

    // Here the range is restricted to cut of the first or last increment.
    test_path([2., TAU], &[2., 3.]);
    test_path([0., TAU - 2.], &[1., 2.]);

    // And everything again, but in reverse.
    test_path([TAU, 0.], &[3., 2., 1.]);
    test_path([TAU, 1.], &[3., 2., 1.]);
    test_path([TAU - 1., 0.], &[3., 2., 1.]);
    test_path([TAU, 2.], &[3., 2.]);
    test_path([TAU - 2., 0.], &[2., 1.]);

    fn test_path(boundary: [f64; 2], expected_coords: &[f64]) {
        // Choose radius and tolerance such, that we need 4 vertices to
        // approximate a full circle. This is the lowest number that we can
        // still cover all the edge cases with
        let radius = 1.;
        let tolerance_value = 0.375;

        let circle = unit_circle(radius);
        let params = CircleApproxParams::new(&circle, tolerance(tolerance_value));

        let boundary =
            CurveBoundary::from_points(Point::from_t(s(boundary[0])), Point::from_t(s(boundary[1])));
        let points = params.approx_circle(boundary);

        let expected_points = expected_coords
            .iter()
            .map(|i| Point::from_t(params.increment().mul(s(*i))))
            .collect::<Vec<_>>();
        assert_eq!(points, expected_points);
    }
}

#[test]
fn circle_curve_representation_must_be_deterministic() {
    let circle = unit_circle(1.);

    // Deliberately choose a very coarse tolerance, so the circle
    // representation degenerates to a predictable triangle.
    let tolerance = tolerance(1.);

    // Sample the circle at two points that are close together, relative to
    // our tolerance, so that both fall on the same triangle edge.
    let a = circle.line_segment_at(Point::from_t(s(0.2)), tolerance);
    let b = circle.line_segment_at(Point::from_t(s(0.3)), tolerance);

    assert_eq!(
        a, b,
        "Expecting representation of the curve to be deterministic; it \
        must not depend on the specific points that were sampled.",
    );
}

#[test]
fn curve_curve_representation_must_be_deterministic() {
    let circle = Path::Circle(unit_circle(1.));

    // Deliberately choose a very coarse tolerance, so the circle
    // representation degenerates to a predictable triangle.
    let tolerance = tolerance(1.);

    // Sample the circle at two points that are close together, relative to
    // our tolerance, so that both fall on the same triangle edge.
    let a = circle.line_segment_at(Point::from_t(s(0.2)), tolerance);
    let b = circle.line_segment_at(Point::from_t(s(0.3)), tolerance);

    assert_eq!(
        a, b,
        "Expecting representation of the curve to be deterministic; it \
        must not depend on the specific points that were sampled.",
    );
}

#[test]
fn tolerance_must_be_greater_than_zero() {
    assert_eq!(Tolerance::from_scalar(s(0.5)).unwrap().inner(), s(0.5));
    assert_eq!(Tolerance::from_scalar(Scalar::from_raw(1)).unwrap().inner(), Scalar::from_raw(1));
    assert_eq!(Tolerance::from_scalar(s(0.)), Err(InvalidTolerance(s(0.))));
    assert_eq!(Tolerance::from_scalar(s(-1.)), Err(InvalidTolerance(s(-1.))));
}

#[test]
fn smaller_tolerance_never_yields_fewer_vertices() {
    let radius = s(1.);
    assert_eq!(CircleApproxParams::num_vertices(radius, tolerance(0.5)), 3);
    assert_eq!(CircleApproxParams::num_vertices(radius, tolerance(0.1)), 7);
    assert_eq!(CircleApproxParams::num_vertices(radius, tolerance(0.01)), 23);

    let mut previous = 3;
    let mut raw = 1_000_000_000i64;
    while raw > 0 {
        let n = CircleApproxParams::num_vertices(
            radius,
            Tolerance::from_scalar(Scalar::from_raw(raw)).unwrap(),
        );
        assert!(n >= previous);
        previous = n;
        raw = raw * 7 / 10;
    }
}

#[test]
fn coarse_tolerance_gives_a_triangle() {
    assert_eq!(CircleApproxParams::num_vertices(s(1.), tolerance(1.)), 3);
    assert_eq!(CircleApproxParams::num_vertices(s(1.), tolerance(1000.)), 3);
    assert_eq!(CircleApproxParams::num_vertices(s(0.), tolerance(0.001)), 3);
}

#[test]
fn finest_tolerance_stays_within_the_largest_vertex_count() {
    let finest = Tolerance::from_scalar(Scalar::from_raw(1)).unwrap();
    let n = CircleApproxParams::num_vertices(s(1.), finest);
    // The deviation of a polygon of n corners is about (pi / n)^2 / 2. It
    // rounds to one raw unit from 54772 raw units of angle down, which is
    // pi / 57357.
    assert_eq!(n, 57_357);
    assert!(n <= MAX_VERTICES);
}

#[test]
fn polyline_leaves_out_the_ends_of_the_boundary() {
    // 8 vertices: the increment is an eighth of a turn
    let circle = unit_circle(1.);
    let tolerance = tolerance(0.08);
    let params = CircleApproxParams::new(&circle, tolerance);
    let increment = params.increment();
    assert_eq!(increment, Scalar::from_raw(785_398_163));

    // both ends are corners themselves
    let boundary = CurveBoundary::from_points(
        Point::from_t(increment),
        Point::from_t(Scalar::from_raw(increment.raw * 4)),
    );
    let points = circle.generate_polyline(boundary, tolerance);
    assert_eq!(
        points,
        vec![
            Point::from_t(Scalar::from_raw(increment.raw * 2)),
            Point::from_t(Scalar::from_raw(increment.raw * 3)),
        ]
    );
    for point in &points {
        assert!(boundary.start().lt(point.t()));
        assert!(point.t().lt(boundary.end()));
    }
}

#[test]
fn polyline_on_negative_parameters() {
    let circle = unit_circle(1.);
    let tolerance = tolerance(0.375);
    let params = CircleApproxParams::new(&circle, tolerance);
    let increment = params.increment().raw;

    let boundary = CurveBoundary::from_points(Point::from_t(s(-4.)), Point::from_t(s(2.)));
    let points = params.approx_circle(boundary);
    assert_eq!(
        points,
        vec![
            Point::from_t(Scalar::from_raw(-2 * increment)),
            Point::from_t(Scalar::from_raw(-increment)),
            Point::from_t(Scalar::from_raw(0)),
            Point::from_t(Scalar::from_raw(increment)),
        ]
    );
}

#[test]
fn reversed_boundary_reverses_the_polyline() {
    let circle = unit_circle(2.5);
    let tolerance = tolerance(0.01);
    let boundary = CurveBoundary::from_points(Point::from_t(s(-1.)), Point::from_t(s(5.)));

    let forward = circle.generate_polyline(boundary, tolerance);
    let mut backward = circle.generate_polyline(boundary.reverse(), tolerance);
    backward.reverse();

    assert!(forward.len() > 10);
    assert_eq!(forward, backward);
    assert!(forward.windows(2).all(|pair| pair[0].t().lt(pair[1].t())));
}

#[test]
fn zero_length_boundary_yields_no_points() {
    let circle = unit_circle(1.);
    let tolerance = tolerance(0.01);
    for at in [0., 1., -1., TAU] {
        let boundary = CurveBoundary::from_points(Point::from_t(s(at)), Point::from_t(s(at)));
        assert!(boundary.is_empty());
        assert_eq!(circle.generate_polyline(boundary, tolerance), vec![]);
    }
}

#[test]
fn boundary_within_one_increment_yields_no_points() {
    let circle = unit_circle(1.);
    let tolerance = tolerance(0.375);
    let boundary = CurveBoundary::from_points(Point::from_t(s(0.1)), Point::from_t(s(1.5)));
    assert_eq!(circle.generate_polyline(boundary, tolerance), vec![]);
    assert_eq!(circle.generate_polyline(boundary.reverse(), tolerance), vec![]);
}

#[test]
fn line_needs_no_approximation() {

    let line = Line::from_origin_and_direction(
        Point::from_uv(s(1.), s(2.)),
        Vector::from_array([s(0.5), s(-1.)]),
    );
    let on_line = Point::from_uv(s(2.5), s(-1.));

    for tolerance_value in [0.001, 1., 1000.] {
        let tolerance = tolerance(tolerance_value);
        assert_eq!(line.line_segment_at(Point::from_t(s(3.)), tolerance), [on_line, on_line]);
        let boundary = CurveBoundary::from_points(Point::from_t(s(-100.)), Point::from_t(s(100.)));
        assert_eq!(line.generate_polyline(boundary, tolerance), vec![]);
    }
    assert_eq!(line.point_from_line_coords(Point::from_t(s(3.))), on_line);
    assert_eq!(GenPolyline::origin(&line), Point::from_uv(s(1.), s(2.)));
}

#[test]
fn circle_segment_lies_between_two_corners() {
    // 4 vertices: the corners are at the quarter turns
    let circle = unit_circle(1.);
    let tolerance = tolerance(0.375);

    let [a, b] = circle.line_segment_at(Point::from_t(s(0.5)), tolerance);
    assert_eq!(a, Point::from_uv(s(1.), s(0.)));
    assert_eq!(b, Point::from_uv(s(0.), s(1.)));

    // at a corner, both ends are that corner
    let quarter = Scalar::from_raw(1_570_796_327);
    let [a, b] = circle.line_segment_at(Point::from_t(quarter), tolerance);
    assert_eq!(a, Point::from_uv(s(0.), s(1.)));
    assert_eq!(b, a);

    // below zero the corners go on
    let [a, b] = circle.line_segment_at(Point::from_t(s(-0.5)), tolerance);
    assert_eq!(a, Point::from_uv(s(0.), s(-1.)));
    assert_eq!(b, Point::from_uv(s(1.), s(0.)));
}

#[test]
fn origin_of_a_circle_is_its_point_at_zero() {
    let circle = Circle::new(
        Point::from_xyz(s(1.), s(2.), s(3.)),
        Vector::from_array([s(0.), s(2.), s(0.)]),
        Vector::from_array([s(0.), s(0.), s(2.)]),
    );
    assert_eq!(GenPolyline::origin(&circle), Point::from_xyz(s(1.), s(4.), s(3.)));
    assert_eq!(circle.point_from_circle_coords(Point::from_t(s(0.))), GenPolyline::origin(&circle));
    assert_eq!(circle.radius(), s(2.));
    assert_eq!(circle.center(), Point::from_xyz(s(1.), s(2.), s(3.)));
    assert_eq!(
        circle.point_from_circle_coords(Point::from_t(Scalar::pi())),
        Point::from_xyz(s(1.), s(0.), s(3.))
    );
}
