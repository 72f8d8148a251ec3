use brep_approx::geometry::tolerance::Tolerance;
use brep_approx::kernel::approximation::{Approximation, Segment};
use brep_approx::kernel::edges::{Curve, Edge};
use brep_approx::math::circle::Circle;
use brep_approx::math::line::Line;
use brep_approx::math::point::{Point, Vector};
use brep_approx::math::scalar::Scalar;

fn s(x: f64) -> Scalar {
    Scalar::from_raw((x * 1e9).round() as i64)
}

fn point(x: f64, y: f64, z: f64) -> Point<3> {
    Point::from_xyz(s(x), s(y), s(z))
}

fn tolerance(x: f64) -> Tolerance {
    Tolerance::from_scalar(s(x)).unwrap()
}

#[test]
fn test_for_edge() {
    let tolerance = tolerance(1.);

    let a = point(1., 2., 3.);
    let b = point(3., 5., 8.);

    let curve = Curve::Mock { approx: vec![a, b] };

    let edge_regular = Edge {
        curve: curve.clone(),
        vertices: Some([(), ()]),
        reverse: false,
    };
    assert_eq!(
        Approximation::for_edge(&edge_regular, tolerance),
        Approximation {
            points: vec![a, b],
            segments: vec![Segment { a, b }],
        }
    );

    let edge_self_connected = Edge {
        curve: curve.clone(),
        vertices: None,
        reverse: false,
    };
    assert_eq!(
        Approximation::for_edge(&edge_self_connected, tolerance),
        Approximation {
            points: vec![a, b],
            segments: vec![Segment { a, b }, Segment { a: b, b: a }],
        }
    );

    let edge_reversed = Edge {
        curve: curve.clone(),
        vertices: Some([(), ()]),
        reverse: true,
    };
    assert_eq!(
        Approximation::for_edge(&edge_reversed, tolerance),
        Approximation {
            points: vec![b, a],
            segments: vec![Segment { a: b, b: a }],
        }
    );
}

#[test]
fn test_validate() {
    let a = point(0., 1., 2.);
    let b = point(1., 2., 3.);
    let c = point(3., 5., 8.);

    let valid = Approximation {
        points: vec![a, b, c],
        segments: vec![Segment { a, b }],
    };
    assert!(valid.validate().is_ok());

    let duplicate_points = Approximation {
        points: vec![a, b, c, b],
        segments: vec![Segment { a, b }],
    };
    assert!(duplicate_points.validate().is_err());

    let duplicate_segments = Approximation {
        points: vec![a, b, c],
        segments: vec![Segment { a, b }, Segment { a, b }],
    };
    assert!(duplicate_segments.validate().is_err());

    let duplicate_segments_inverted = Approximation {
        points: vec![a, b, c],
        segments: vec![Segment { a, b }, Segment { a: b, b: a }],
    };
    assert!(duplicate_segments_inverted.validate().is_err());

    let invalid_segment = Approximation {
        points: vec![a, b, c],
        segments: vec![Segment { a, b: a }],
    };
    assert!(invalid_segment.validate().is_err());

    let segment_with_invalid_point = Approximation {
        points: vec![a, c],
        segments: vec![Segment { a, b }],
    };
    assert!(segment_with_invalid_point.validate().is_err());
}

#[test]
fn validation_error_names_what_is_at_fault() {
    let a = point(0., 1., 2.);
    let b = point(1., 2., 3.);
    let c = point(3., 5., 8.);
    let d = point(9., 9., 9.);

    let approximation = Approximation {
        points: vec![a, b, c, b, a, b],
        segments: vec![
            Segment { a, b },
            Segment { a: c, b: c },
            Segment { a: b, b: a },
            Segment { a: c, b: d },
            Segment { a: c, b: c },
        ],
    };
    let error = approximation.validate().unwrap_err();
    assert_eq!(error.duplicate_points, vec![b, a, b]);
    assert_eq!(
        error.duplicate_segments,
        vec![Segment { a: b, b: a }, Segment { a: c, b: c }]
    );
    assert_eq!(
        error.invalid_segments,
        vec![Segment { a: c, b: c }, Segment { a: c, b: c }]
    );
    assert_eq!(error.segments_with_invalid_points, vec![Segment { a: c, b: d }]);
}

#[test]
fn approximation_without_points_is_valid() {
    let empty = Approximation {
        points: vec![],
        segments: vec![],
    };
    assert!(empty.validate().is_ok());
}

#[test]
fn closed_edge_on_a_circle_comes_back_to_its_start() {
    // 4 vertices: the corners are at the quarter turns
    let circle = Circle::new(
        point(0., 0., 1.),
        Vector::from_array([s(1.), s(0.), s(0.)]),
        Vector::from_array([s(0.), s(1.), s(0.)]),
    );
    let edge = Edge {
        curve: Curve::Circle(circle),
        vertices: None,
        reverse: false,
    };
    let approximation = Approximation::for_edge(&edge, tolerance(0.375));

    let east = point(1., 0., 1.);
    let north = point(0., 1., 1.);
    let west = point(-1., 0., 1.);
    let south = point(0., -1., 1.);
    assert_eq!(approximation.points, vec![east, north, west, south]);
    assert_eq!(
        approximation.segments,
        vec![
            Segment { a: east, b: north },
            Segment { a: north, b: west },
            Segment { a: west, b: south },
            Segment { a: south, b: east },
        ]
    );
    assert!(approximation.validate().is_ok());

    let reversed = Edge {
        curve: Curve::Circle(circle),
        vertices: None,
        reverse: true,
    };
    let approximation = Approximation::for_edge(&reversed, tolerance(0.375));
    assert_eq!(approximation.points, vec![south, west, north, east]);
    assert_eq!(approximation.segments.len(), 4);
    assert_eq!(approximation.segments[3], Segment { a: east, b: south });
}

#[test]
fn edge_on_a_line_has_no_points_of_its_own() {
    let line = Line::from_points(point(0., 0., 0.), point(1., 1., 1.));
    let edge = Edge {
        curve: Curve::Line(line),
        vertices: Some([(), ()]),
        reverse: false,
    };
    let approximation = Approximation::for_edge(&edge, tolerance(0.1));
    assert_eq!(approximation.points, vec![]);
    assert_eq!(approximation.segments, vec![]);

    let closed = Edge {
        curve: Curve::Line(line),
        vertices: None,
        reverse: true,
    };
    let approximation = Approximation::for_edge(&closed, tolerance(0.1));
    assert_eq!(approximation.points, vec![]);
    assert_eq!(approximation.segments, vec![]);
}

#[test]
fn closed_edge_with_one_point() {
    let a = point(1., 2., 3.);
    let edge = Edge {
        curve: Curve::Mock { approx: vec![a] },
        vertices: None,
        reverse: false,
    };
    let approximation = Approximation::for_edge(&edge, tolerance(1.));
    assert_eq!(approximation.points, vec![a]);
    assert_eq!(approximation.segments, vec![Segment { a, b: a }]);
    assert!(approximation.validate().is_err());
}
