use brep_approx::algorithms::approx::curve::points::CurveApproxPoints;
use brep_approx::algorithms::approx::curve::{approx_curve, CurveApproxCache};
use brep_approx::algorithms::approx::cycle::approx_with_cache as approx_cycle;
use brep_approx::algorithms::approx::edge::{
    approx_with_cache as approx_half_edge, HalfEdgeApprox, HalfEdgeApproxCache,
};
use brep_approx::algorithms::approx::face::approx_with_cache as approx_face;
use brep_approx::algorithms::approx::vertex::VertexApproxCache;
use brep_approx::algorithms::approx::ApproxPoint;
use brep_approx::geometry::boundary::CurveBoundary;
use brep_approx::geometry::curve::{CurveGeom, CurveGeom2, LocalCurveGeom};
use brep_approx::geometry::path::Path;
use brep_approx::geometry::store::{Geometry, HalfEdgeGeom};
use brep_approx::geometry::surface::SweptCurve;
use brep_approx::geometry::tolerance::Tolerance;
use brep_approx::layers::Layer;
use brep_approx::math::circle::Circle;
use brep_approx::math::line::Line;
use brep_approx::math::point::{Point, Vector};
use brep_approx::math::scalar::Scalar;
use brep_approx::storage::{Handle, Objects};
use brep_approx::topology::{Curve, Cycle, Face, HalfEdge, Region, Surface, Vertex};

fn s(x: f64) -> Scalar {
    Scalar::from_raw((x * 1e9).round() as i64)
}

fn point(x: f64, y: f64, z: f64) -> Point<3> {
    Point::from_xyz(s(x), s(y), s(z))
}

fn uv(u: f64, v: f64) -> Point<2> {
    Point::from_uv(s(u), s(v))
}

fn tolerance(x: f64) -> Tolerance {
    Tolerance::from_scalar(s(x)).unwrap()
}

fn boundary(start: Scalar, end: Scalar) -> CurveBoundary {
    CurveBoundary::from_points(Point::from_t(start), Point::from_t(end))
}

/// The plane at z = 1 with u along x and v along y.
fn plane() -> SweptCurve {
    SweptCurve {
        u: Path::Line(Line::from_origin_and_direction(
            point(0., 0., 1.),
            Vector::from_array([s(1.), s(0.), s(0.)]),
        )),
        v: Vector::from_array([s(0.), s(1.), s(0.)]),
    }
}

fn line(from: Point<2>, to: Point<2>) -> Path<2> {
    Path::line_from_points(from, to)
}

fn unit_circle() -> Path<2> {
    Path::Circle(Circle::from_center_and_radius(uv(0., 0.), s(1.)))
}

fn quarter() -> Scalar {
    Scalar::from_raw(1_570_796_327)
}

fn quarters(n: i64) -> Scalar {
    Scalar::from_raw(n * quarter().raw)
}

#[test]
fn curve_approx_points_reverse() {
    let a = ApproxPoint::new(Point::from_t(s(1.)), point(1., 0., 0.));
    let b = ApproxPoint::new(Point::from_t(s(2.)), point(2., 0., 0.));
    let c = ApproxPoint::new(Point::from_t(s(3.)), point(3., 0., 0.));

    let mut points = CurveApproxPoints::from_points(vec![a, b, c]);
    points.reverse();
    assert_eq!(points.inner, vec![c, b, a]);
    points.reverse().reverse();
    assert_eq!(points.inner, vec![c, b, a]);

    let mut empty = CurveApproxPoints::from_points(vec![]);
    empty.reverse();
    assert_eq!(empty.inner, vec![]);
    assert_eq!(points.duplicate(), points);
}

#[test]
fn vertex_cache_keeps_the_first_position() {
    let vertex = Handle::new(7, Vertex {});
    let other = Handle::new(8, Vertex {});
    let mut cache = VertexApproxCache::new();
    assert_eq!(cache.get(&vertex), None);
    assert_eq!(cache.insert(&vertex, point(1., 2., 3.)), point(1., 2., 3.));
    assert_eq!(cache.insert(&vertex, point(9., 9., 9.)), point(1., 2., 3.));
    assert_eq!(cache.get(&vertex), Some(point(1., 2., 3.)));
    assert_eq!(cache.get(&other), None);
    assert_eq!(cache.get_by_id(7), Some(point(1., 2., 3.)));
}

#[test]
fn curve_on_a_plane_is_approximated_at_the_corners_of_its_polyline() {
    // 4 vertices: the corners are at the quarter turns
    let approx = approx_curve(
        &unit_circle(),
        &plane(),
        boundary(s(0.), Scalar::tau()),
        tolerance(0.375),
    );
    assert_eq!(
        approx.inner,
        vec![
            ApproxPoint::new(Point::from_t(quarters(1)), point(0., 1., 1.)),
            ApproxPoint::new(Point::from_t(quarters(2)), point(-1., 0., 1.)),
            ApproxPoint::new(Point::from_t(quarters(3)), point(0., -1., 1.)),
        ]
    );
}

#[test]
fn curve_cache_answers_for_both_directions() {
    let curve = Handle::new(1, Curve {});
    let forward = boundary(s(0.), s(4.));
    let a = ApproxPoint::new(Point::from_t(s(1.)), point(1., 0., 0.));
    let b = ApproxPoint::new(Point::from_t(s(2.)), point(2., 0., 0.));

    let mut cache = CurveApproxCache::new();
    assert_eq!(cache.get(&curve, forward), None);

    let kept = cache.insert(&curve, forward, CurveApproxPoints::from_points(vec![a, b]));
    assert_eq!(kept.inner, vec![a, b]);
    assert_eq!(cache.get(&curve, forward).unwrap().inner, vec![a, b]);
    assert_eq!(cache.get(&curve, forward.reverse()).unwrap().inner, vec![b, a]);

    // what is held is never replaced
    let kept = cache.insert(&curve, forward, CurveApproxPoints::from_points(vec![b]));
    assert_eq!(kept.inner, vec![a, b]);
    let kept = cache.insert(&curve, forward.reverse(), CurveApproxPoints::from_points(vec![b]));
    assert_eq!(kept.inner, vec![b, a]);

    // other stretches and other curves have their own entries
    assert_eq!(cache.get(&curve, boundary(s(0.), s(3.))), None);
    assert_eq!(cache.get(&Handle::new(2, Curve {}), forward), None);
}

struct Shape {
    geometry: Layer<Geometry>,
    objects: Objects,
}

impl Shape {
    fn new() -> Self {
        Shape {
            geometry: Layer::new(Geometry::new()),
            objects: Objects::new(),
        }
    }

    fn vertex(&mut self) -> Handle<Vertex> {
        self.objects.insert(Vertex {})
    }

    fn curve(&mut self) -> Handle<Curve> {
        self.objects.insert(Curve {})
    }

    fn half_edge(
        &mut self,
        curve: Handle<Curve>,
        start_vertex: Handle<Vertex>,
        path: Path<2>,
        boundary: CurveBoundary,
    ) -> Handle<HalfEdge> {
        let half_edge = self.objects.insert(HalfEdge::new(curve, start_vertex));
        self.geometry
            .define_half_edge(half_edge, HalfEdgeGeom { path, boundary });
        half_edge
    }
}

#[test]
fn half_edge_on_a_line_is_its_start() {
    let mut shape = Shape::new();
    let curve = shape.curve();
    let start = shape.vertex();
    let half_edge = shape.half_edge(
        curve,
        start,
        line(uv(1., 1.), uv(3., 1.)),
        boundary(s(0.), s(1.)),
    );

    let mut cache = HalfEdgeApproxCache::new();
    let approx = approx_half_edge(
        &half_edge,
        &plane(),
        tolerance(0.001),
        &mut cache,
        shape.geometry.state(),
    );
    assert_eq!(
        approx,
        HalfEdgeApprox {
            points: vec![ApproxPoint::new(uv(1., 1.), point(1., 1., 1.))],
        }
    );
    assert_eq!(cache.start_position(start.id()), Some(point(1., 1., 1.)));
}

#[test]
fn half_edge_on_a_circle_is_its_start_and_the_corners_inside() {
    let mut shape = Shape::new();
    let curve = shape.curve();
    let start = shape.vertex();
    let half_edge = shape.half_edge(curve, start, unit_circle(), boundary(s(0.), Scalar::pi()));

    let mut cache = HalfEdgeApproxCache::new();
    let approx = approx_half_edge(
        &half_edge,
        &plane(),
        tolerance(0.375),
        &mut cache,
        shape.geometry.state(),
    );
    // the end of the half-edge, at half a turn, is left out
    assert_eq!(
        approx.points,
        vec![
            ApproxPoint::new(uv(1., 0.), point(1., 0., 1.)),
            ApproxPoint::new(uv(0., 1.), point(0., 1., 1.)),
        ]
    );
}

#[test]
fn half_edges_that_share_a_start_vertex_share_its_position() {
    let mut shape = Shape::new();
    let start = shape.vertex();
    let first_curve = shape.curve();
    let second_curve = shape.curve();
    let first = shape.half_edge(
        first_curve,
        start,
        line(uv(1., 1.), uv(3., 1.)),
        boundary(s(0.), s(1.)),
    );
    // the second half-edge lies on another surface, where the same vertex
    // has other coordinates; its own geometry would put the vertex elsewhere
    let second = shape.half_edge(
        second_curve,
        start,
        line(uv(5., 5.), uv(6., 6.)),
        boundary(s(0.), s(1.)),
    );
    let other_surface = SweptCurve {
        u: Path::Line(Line::from_origin_and_direction(
            point(-4., -4., 1.000000001),
            Vector::from_array([s(1.), s(0.), s(0.)]),
        )),
        v: Vector::from_array([s(0.), s(1.), s(0.)]),
    };

    let mut cache = HalfEdgeApproxCache::new();
    let geometry = shape.geometry.state();
    let a = approx_half_edge(&first, &plane(), tolerance(0.001), &mut cache, geometry);
    let b = approx_half_edge(&second, &other_surface, tolerance(0.001), &mut cache, geometry);
    assert_eq!(a.points[0].global_form, point(1., 1., 1.));
    assert_eq!(b.points[0].global_form, a.points[0].global_form);
    assert_eq!(b.points[0].local_form, uv(5., 5.));

    // without the shared cache the two positions differ
    let mut fresh = HalfEdgeApproxCache::new();
    let alone = approx_half_edge(&second, &other_surface, tolerance(0.001), &mut fresh, geometry);
    assert_eq!(alone.points[0].global_form, point(1., 1., 1.000000001));
}

#[test]
fn sibling_half_edges_share_the_points_of_their_curve() {
    let mut shape = Shape::new();
    let curve = shape.curve();
    let a_vertex = shape.vertex();
    let b_vertex = shape.vertex();
    let there = shape.half_edge(curve, a_vertex, unit_circle(), boundary(s(0.), s(6.)));
    // the sibling travels the same curve the other way, seen from a surface
    // whose circle is a little larger
    let larger = Path::Circle(Circle::from_center_and_radius(uv(0., 0.), s(1.000001)));
    let back = shape.half_edge(curve, b_vertex, larger, boundary(s(6.), s(0.)));

    let mut cache = HalfEdgeApproxCache::new();
    let geometry = shape.geometry.state();
    let tolerance = tolerance(0.375);
    let first = approx_half_edge(&there, &plane(), tolerance, &mut cache, geometry);
    let second = approx_half_edge(&back, &plane(), tolerance, &mut cache, geometry);

    let first_global: Vec<_> = first.points[1..].iter().map(|p| p.global_form).collect();
    let mut second_global: Vec<_> = second.points[1..].iter().map(|p| p.global_form).collect();
    second_global.reverse();
    assert_eq!(
        first_global,
        vec![point(0., 1., 1.), point(-1., 0., 1.), point(0., -1., 1.)]
    );
    assert_eq!(first_global, second_global);
}

#[test]
fn cycle_is_approximated_without_double_vertices() {
    let mut shape = Shape::new();
    let corners = [uv(0., 0.), uv(2., 0.), uv(2., 2.), uv(0., 2.)];
    let vertices = [shape.vertex(), shape.vertex(), shape.vertex(), shape.vertex()];
    let mut half_edges = Vec::new();
    for i in 0..4 {
        let curve = shape.curve();
        half_edges.push(shape.half_edge(
            curve,
            vertices[i],
            line(corners[i], corners[(i + 1) % 4]),
            boundary(s(0.), s(1.)),
        ));
    }
    let surface = shape.objects.insert(Surface {});
    let cycle = Cycle::new(surface, half_edges);

    let mut cache = HalfEdgeApproxCache::new();
    let approx = approx_cycle(
        &cycle,
        &plane(),
        tolerance(0.001),
        &mut cache,
        shape.geometry.state(),
    );
    assert_eq!(approx.half_edges.len(), 4);
    assert_eq!(
        approx.points(),
        vec![
            ApproxPoint::new(uv(0., 0.), point(0., 0., 1.)),
            ApproxPoint::new(uv(2., 0.), point(2., 0., 1.)),
            ApproxPoint::new(uv(2., 2.), point(2., 2., 1.)),
            ApproxPoint::new(uv(0., 2.), point(0., 2., 1.)),
        ]
    );
    for (vertex, corner) in vertices.iter().zip(approx.points()) {
        assert_eq!(cache.start_position(vertex.id()), Some(corner.global_form));
    }
}

#[test]
fn cycle_of_one_circle() {
    let mut shape = Shape::new();
    let curve = shape.curve();
    let start = shape.vertex();
    let half_edge = shape.half_edge(curve, start, unit_circle(), boundary(s(0.), Scalar::tau()));
    let surface = shape.objects.insert(Surface {});
    let cycle = Cycle::new(surface, vec![half_edge]);

    let mut cache = HalfEdgeApproxCache::new();
    let approx = approx_cycle(
        &cycle,
        &plane(),
        tolerance(0.375),
        &mut cache,
        shape.geometry.state(),
    );
    assert_eq!(
        approx.points(),
        vec![
            ApproxPoint::new(uv(1., 0.), point(1., 0., 1.)),
            ApproxPoint::new(uv(0., 1.), point(0., 1., 1.)),
            ApproxPoint::new(uv(-1., 0.), point(-1., 0., 1.)),
            ApproxPoint::new(uv(0., -1.), point(0., -1., 1.)),
        ]
    );
}

#[test]
fn layer_defines_geometry() {
    let mut objects = Objects::new();
    let surface = objects.insert(Surface {});
    let other_surface = objects.insert(Surface {});
    let curve = objects.insert(Curve {});
    let vertex = objects.insert(Vertex {});
    let half_edge = objects.insert(HalfEdge::new(curve, vertex));

    let mut layer = Layer::new(Geometry::new());
    assert!(layer.state().of_curve(&curve).is_none());
    assert_eq!(layer.state().of_half_edge(&half_edge), None);
    assert_eq!(layer.state().of_surface(&surface), None);

    let path = line(uv(0., 0.), uv(1., 0.));
    layer.define_curve(curve, CurveGeom::new().add_definition(&surface, path));
    layer.define_surface(surface, plane());
    let geom = HalfEdgeGeom {
        path,
        boundary: boundary(s(0.), s(1.)),
    };
    layer.define_half_edge(half_edge, geom);

    let defined = layer.state().of_curve(&curve).unwrap();
    assert_eq!(defined.local_on(&surface), Some(&LocalCurveGeom { path }));
    assert_eq!(defined.local_on(&other_surface), None);
    assert_eq!(defined.duplicate().local_on(&surface), Some(&LocalCurveGeom { path }));
    assert_eq!(layer.state().of_half_edge(&half_edge), Some(geom));
    assert_eq!(layer.state().of_surface(&surface), Some(plane()));
    assert_eq!(layer.state().of_surface(&other_surface), None);

    // a second definition replaces the first
    let moved = HalfEdgeGeom {
        path,
        boundary: boundary(s(1.), s(0.)),
    };
    layer.define_half_edge(half_edge, moved);
    assert_eq!(layer.state().of_half_edge(&half_edge), Some(moved));
}

#[test]
fn curve_geometry_is_local_or_global() {
    let surface = Handle::new(3, Surface {});
    let local = CurveGeom2::Surface {
        geometry: unit_circle(),
        surface,
    };
    let global = CurveGeom2::Global {
        geometry: Path::line_from_points(point(0., 0., 0.), point(1., 0., 0.)),
    };
    assert!(matches!(local, CurveGeom2::Surface { surface, .. } if surface.id() == 3));
    assert!(matches!(global, CurveGeom2::Global { .. }));
}

#[test]
fn handles_are_compared_by_identity() {
    let mut objects = Objects::new();
    let a = objects.insert(Vertex {});
    let b = objects.insert(Vertex {});
    assert_eq!(a.id(), 0);
    assert_eq!(b.id(), 1);
    assert_eq!(objects.next_id(), 2);
    assert!(a == a);
    assert!(a != b);
    assert!(a == Handle::new(0, Vertex {}));
}

#[test]
fn face_is_approximated_cycle_by_cycle() {
    let mut shape = Shape::new();
    let surface = shape.objects.insert(Surface {});
    shape.geometry.define_surface(surface, plane());

    let mut square = |shape: &mut Shape, corners: [Point<2>; 4]| {
        let mut half_edges = Vec::new();
        for i in 0..4 {
            let curve = shape.curve();
            let vertex = shape.vertex();
            half_edges.push(shape.half_edge(
                curve,
                vertex,
                line(corners[i], corners[(i + 1) % 4]),
                boundary(s(0.), s(1.)),
            ));
        }
        Cycle::new(surface, half_edges)
    };
    let exterior = square(&mut shape, [uv(0., 0.), uv(4., 0.), uv(4., 4.), uv(0., 4.)]);
    let interior = square(&mut shape, [uv(1., 1.), uv(1., 2.), uv(2., 2.), uv(2., 1.)]);
    let face = Face::new(surface, Region::new(exterior, vec![interior]));

    let mut cache = HalfEdgeApproxCache::new();
    let approx = approx_face(&face, tolerance(0.001), &mut cache, shape.geometry.state());
    assert_eq!(approx.cycles.len(), 2);
    assert_eq!(
        approx.cycles[0].points(),
        vec![
            ApproxPoint::new(uv(0., 0.), point(0., 0., 1.)),
            ApproxPoint::new(uv(4., 0.), point(4., 0., 1.)),
            ApproxPoint::new(uv(4., 4.), point(4., 4., 1.)),
            ApproxPoint::new(uv(0., 4.), point(0., 4., 1.)),
        ]
    );
    assert_eq!(
        approx.cycles[1].points(),
        vec![
            ApproxPoint::new(uv(1., 1.), point(1., 1., 1.)),
            ApproxPoint::new(uv(1., 2.), point(1., 2., 1.)),
            ApproxPoint::new(uv(2., 2.), point(2., 2., 1.)),
            ApproxPoint::new(uv(2., 1.), point(2., 1., 1.)),
        ]
    );

    // a second approximation through the same cache gives the same points
    let again = approx_face(&face, tolerance(0.001), &mut cache, shape.geometry.state());
    assert_eq!(again, approx);
}
