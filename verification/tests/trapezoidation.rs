use brep_approx::math::scalar::Scalar;
use brep_approx::triangulation::trapezoidation::find_region_for_point::find_region_for_point;
use brep_approx::triangulation::trapezoidation::graph::{Graph as SearchGraph, Node, X, Y};
use brep_approx::triangulation::trapezoidation::point::{Point, Relation as PointRelation};
use brep_approx::triangulation::trapezoidation::segment::{Relation as SegmentRelation, Segment};

type Graph = SearchGraph<X, Y, Region>;

#[derive(Debug, Default)]
struct Region(u64);

fn point(x: f64, y: f64) -> Point {
    Point::new(
        Scalar::from_raw((x * 1e9).round() as i64),
        Scalar::from_raw((y * 1e9).round() as i64),
    )
}

#[test]
fn find_region_for_point_find_root_region_if_none_other_exist() {
    let graph = Graph::new();

    let region = find_region_for_point(&point(0.0, 0.0), &graph);
    assert_eq!(region, Some(graph.source()));
}

#[test]
fn find_region_for_point_determine_if_point_is_left_or_right_of_x_node() {
    let mut graph = Graph::new();

    let left = graph.insert_sink(Region(1));
    let right = graph.insert_sink(Region(2));

    let node = Node::X(X {
        segment: Segment::new(point(1.0, 0.0), point(1.0, 2.0)).unwrap(),
        left,
        right,
    });

    graph.replace(graph.source(), node);

    assert_eq!(find_region_for_point(&point(0.0, 1.0), &graph), Some(left));
    assert_eq!(find_region_for_point(&point(2.0, 1.0), &graph), Some(right));
}

#[test]
fn find_region_for_point_determine_if_point_is_below_or_above_a_y_node() {
    let mut graph = Graph::new();

    let below = graph.insert_sink(Region(1));
    let above = graph.insert_sink(Region(2));

    let node = Node::Y(Y {
        point: point(0.0, 1.0),
        below,
        above,
    });

    graph.replace(graph.source(), node);

    assert_eq!(find_region_for_point(&point(0.0, 0.0), &graph), Some(below));
    assert_eq!(find_region_for_point(&point(0.0, 2.0), &graph), Some(above));
}

#[test]
fn find_region_for_point_return_id_of_point_if_already_present() {
    let mut graph = Graph::new();

    let below = graph.insert_sink(Region(1));
    let above = graph.insert_sink(Region(2));

    let point = point(0.0, 1.0);
    let node = Node::Y(Y {
        point,
        below,
        above,
    });

    graph.replace(graph.source(), node);

    assert_eq!(find_region_for_point(&point, &graph), None);
}

#[test]
fn points_are_ordered_by_height_then_from_left_to_right() {
    assert_eq!(point(0., 0.).relation_to(&point(5., 1.)), Some(PointRelation::Below));
    assert_eq!(point(5., 1.).relation_to(&point(0., 0.)), Some(PointRelation::Above));
    assert_eq!(point(0., 1.).relation_to(&point(5., 1.)), Some(PointRelation::Below));
    assert_eq!(point(5., 1.).relation_to(&point(0., 1.)), Some(PointRelation::Above));
    assert_eq!(point(5., 1.).relation_to(&point(5., 1.)), None);
}

#[test]
fn segment_between_the_same_point_twice_is_none() {
    assert_eq!(Segment::new(point(1., 1.), point(1., 1.)), None);
    let segment = Segment::new(point(3., 2.), point(1., 0.)).unwrap();
    assert_eq!(segment.lower(), point(1., 0.));
    assert_eq!(segment.upper(), point(3., 2.));
}

#[test]
fn side_of_a_slanted_segment() {
    let segment = Segment::new(point(0., 0.), point(2., 2.)).unwrap();
    assert_eq!(segment.relation_from_point(&point(0., 1.)), Some(SegmentRelation::Left));
    assert_eq!(segment.relation_from_point(&point(2., 1.)), Some(SegmentRelation::Right));
    // on the segment
    assert_eq!(segment.relation_from_point(&point(1., 1.)), None);
    // below and above the segment
    assert_eq!(segment.relation_from_point(&point(0., -1.)), None);
    assert_eq!(segment.relation_from_point(&point(0., 3.)), None);
    // the ends themselves
    assert_eq!(segment.relation_from_point(&point(0., 0.)), None);
    assert_eq!(segment.relation_from_point(&point(2., 2.)), None);
}

#[test]
fn side_of_a_segment_at_the_ends_of_the_raw_range() {
    let low = Scalar::from_raw(i64::MIN);
    let high = Scalar::from_raw(i64::MAX);
    let segment = Segment::new(Point::new(low, low), Point::new(high, high)).unwrap();
    assert_eq!(
        segment.relation_from_point(&Point::new(low, Scalar::from_raw(0))),
        Some(SegmentRelation::Left)
    );
    assert_eq!(
        segment.relation_from_point(&Point::new(high, Scalar::from_raw(0))),
        Some(SegmentRelation::Right)
    );
    assert_eq!(
        segment.relation_from_point(&Point::new(Scalar::from_raw(-1), Scalar::from_raw(-1))),
        None
    );
}

#[test]
fn find_region_for_point_follows_the_graph_to_a_sink() {
    let mut graph = Graph::new();

    let below = graph.insert_sink(Region(1));
    let above = graph.insert_sink(Region(2));
    let left = graph.insert_sink(Region(3));
    let right = graph.insert_sink(Region(4));

    graph.replace(
        graph.source(),
        Node::Y(Y {
            point: point(0.0, 1.0),
            below,
            above,
        }),
    );
    graph.replace(
        above,
        Node::X(X {
            segment: Segment::new(point(0.0, 1.0), point(1.0, 3.0)).unwrap(),
            left,
            right,
        }),
    );
    assert_eq!(graph.len(), 5);
    assert!(matches!(graph.get(right), Node::Sink(Region(4))));

    assert_eq!(find_region_for_point(&point(0.0, 0.0), &graph), Some(below));
    assert_eq!(find_region_for_point(&point(0.0, 2.0), &graph), Some(left));
    assert_eq!(find_region_for_point(&point(2.0, 2.0), &graph), Some(right));
    assert_eq!(find_region_for_point(&point(0.0, 1.0), &graph), None);
}
