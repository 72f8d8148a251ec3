use brep_approx::algorithms::bounding_volume::BoundingVolume;
use brep_approx::builder::edge::HalfEdgeBuilder;
use brep_approx::geometry::boundary::CurveBoundary;
use brep_approx::geometry::path::Path;
use brep_approx::geometry::store::{Geometry, HalfEdgeGeom};
use brep_approx::math::circle::Circle;
use brep_approx::math::line::Line;
use brep_approx::math::point::{Point, Vector};
use brep_approx::math::scalar::Scalar;
use brep_approx::math::triangle::{Aabb, Winding};
use brep_approx::operations::geometry::{
    ClonedOperation, Operation, OperationInSequence, Operations, Vertex as MeshVertex,
};
use brep_approx::operations::model::model;
use brep_approx::operations::sweep::SweepCache;
use brep_approx::partial::{MaybeCurve, PartialGlobalEdge, PartialHalfEdge, PartialObject};
use brep_approx::queries::sibling_of_half_edge::SiblingOfHalfEdge;
use brep_approx::storage::{Handle, Objects};
use brep_approx::topology::{Curve, Cycle, Face, HalfEdge, Region, Shell, Surface, Vertex};
use brep_approx::validation::{
    validate, Config, StructuralIssues, ValidationConfig, ValidationError,
};

fn s(x: f64) -> Scalar {
    Scalar::from_raw((x * 1e9).round() as i64)
}

fn uv(u: f64, v: f64) -> Point<2> {
    Point::from_uv(s(u), s(v))
}

fn boundary(start: f64, end: f64) -> CurveBoundary {
    CurveBoundary::from_points(Point::from_t(s(start)), Point::from_t(s(end)))
}

fn line(from: Point<2>, to: Point<2>) -> Path<2> {
    Path::line_from_points(from, to)
}

/// A cycle through the given surface points, in their order, and the
/// geometry of its half-edges.
fn polygon(objects: &mut Objects, geometry: &mut Geometry, corners: &[Point<2>]) -> Cycle {
    let mut half_edges = Vec::new();
    for i in 0..corners.len() {
        let curve = objects.insert(Curve {});
        let vertex = objects.insert(Vertex {});
        let half_edge = objects.insert(HalfEdge::new(curve, vertex));
        geometry.define_half_edge_inner(
            &half_edge,
            HalfEdgeGeom {
                path: line(corners[i], corners[(i + 1) % corners.len()]),
                boundary: boundary(0., 1.),
            },
        );
        half_edges.push(half_edge);
    }
    Cycle::new(objects.insert(Surface {}), half_edges)
}

#[test]
fn winding_of_a_polygon() {
    let mut objects = Objects::new();
    let mut geometry = Geometry::new();

    let ccw = polygon(
        &mut objects,
        &mut geometry,
        &[uv(0., 0.), uv(2., 0.), uv(2., 2.), uv(0., 2.)],
    );
    assert_eq!(ccw.winding(&geometry), Winding::Ccw);

    let cw = polygon(
        &mut objects,
        &mut geometry,
        &[uv(0., 0.), uv(0., 2.), uv(2., 2.), uv(2., 0.)],
    );
    assert_eq!(cw.winding(&geometry), Winding::Cw);
}

#[test]
fn winding_of_a_circle() {
    let mut objects = Objects::new();
    let mut geometry = Geometry::new();
    let circle = Path::Circle(Circle::from_center_and_radius(uv(0., 0.), s(1.)));

    let mut cycle_along = |start: f64, end: f64| {
        let curve = objects.insert(Curve {});
        let vertex = objects.insert(Vertex {});
        let half_edge = objects.insert(HalfEdge::new(curve, vertex));
        geometry.define_half_edge_inner(
            &half_edge,
            HalfEdgeGeom {
                path: circle,
                boundary: boundary(start, end),
            },
        );
        let cycle = Cycle::new(objects.insert(Surface {}), vec![half_edge]);
        cycle.winding(&geometry)
    };
    assert_eq!(cycle_along(0., 6.), Winding::Ccw);
    assert_eq!(cycle_along(6., 0.), Winding::Cw);
}

#[test]
fn cycle_knows_its_surface_and_half_edges() {
    let surface = Handle::new(1, Surface {});
    let half_edge = Handle::new(4, HalfEdge::new(Handle::new(2, Curve {}), Handle::new(3, Vertex {})));
    let cycle = Cycle::new(surface, vec![half_edge]);
    assert_eq!(cycle.surface().id(), 1);
    assert_eq!(cycle.half_edges().len(), 1);
    assert_eq!(cycle.half_edges()[0].id(), 4);
    assert_eq!(cycle.half_edges()[0].get().curve().id(), 2);
    assert_eq!(cycle.half_edges()[0].get().start_vertex().id(), 3);
}

/// Two triangles that share the edge between the vertices 1 and 2.
fn two_triangles() -> (Shell, Vec<Handle<HalfEdge>>) {
    let surface = Handle::new(100, Surface {});
    let vertex = |id| Handle::new(id, Vertex {});
    let curve = |id| Handle::new(id, Curve {});
    // first triangle: 0 -> 1 -> 2 -> 0; second triangle: 2 -> 1 -> 3 -> 2
    let half_edges = vec![
        Handle::new(10, HalfEdge::new(curve(20), vertex(0))),
        Handle::new(11, HalfEdge::new(curve(21), vertex(1))),
        Handle::new(12, HalfEdge::new(curve(22), vertex(2))),
        Handle::new(13, HalfEdge::new(curve(21), vertex(2))),
        Handle::new(14, HalfEdge::new(curve(23), vertex(1))),
        Handle::new(15, HalfEdge::new(curve(24), vertex(3))),
    ];
    let first = Cycle::new(surface, half_edges[0..3].to_vec());
    let second = Cycle::new(surface, half_edges[3..6].to_vec());
    let shell = Shell::new(vec![
        Face::new(surface, Region::new(first, vec![])),
        Face::new(surface, Region::new(second, vec![])),
    ]);
    (shell, half_edges)
}

#[test]
fn siblings_share_a_curve_and_swap_their_vertices() {
    let (shell, half_edges) = two_triangles();
    let geometry = Geometry::new();

    assert!(shell.are_siblings(&half_edges[1], &half_edges[3], &geometry));
    assert!(shell.are_siblings(&half_edges[3], &half_edges[1], &geometry));
    // same vertices the other way round, but another curve
    assert!(!shell.are_siblings(&half_edges[1], &half_edges[4], &geometry));
    // a half-edge is not its own sibling
    assert!(!shell.are_siblings(&half_edges[1], &half_edges[1], &geometry));
    assert!(!shell.are_siblings(&half_edges[0], &half_edges[5], &geometry));

    // a half-edge that is not in the shell has no sibling there
    let stranger = Handle::new(
        99,
        HalfEdge::new(Handle::new(21, Curve {}), Handle::new(2, Vertex {})),
    );
    assert!(!shell.are_siblings(&half_edges[1], &stranger, &geometry));
}

#[test]
fn sibling_of_a_half_edge_is_found_in_the_shell() {
    let (shell, half_edges) = two_triangles();
    let geometry = Geometry::new();

    assert_eq!(shell.get_sibling_of(&half_edges[1], &geometry), Some(half_edges[3]));
    assert_eq!(shell.get_sibling_of(&half_edges[3], &geometry), Some(half_edges[1]));
    assert_eq!(shell.get_sibling_of(&half_edges[0], &geometry), None);

    let stranger = Handle::new(
        99,
        HalfEdge::new(Handle::new(21, Curve {}), Handle::new(2, Vertex {})),
    );
    assert_eq!(shell.get_sibling_of(&stranger, &geometry), None);

    assert_eq!(shell.all_half_edges(), half_edges);
    assert_eq!(shell.all_cycles().len(), 2);
    assert_eq!(shell.faces().len(), 2);
    assert_eq!(shell.faces()[0].surface().id(), 100);
    assert_eq!(shell.faces()[0].region().all_cycles().len(), 1);
}

#[test]
fn region_lists_its_outer_cycle_first() {
    let surface = Handle::new(100, Surface {});
    let cycle = |id| {
        Cycle::new(
            surface,
            vec![Handle::new(
                id,
                HalfEdge::new(Handle::new(id + 1, Curve {}), Handle::new(id + 2, Vertex {})),
            )],
        )
    };
    let region = Region::new(cycle(10), vec![cycle(20), cycle(30)]);
    let ids: Vec<_> = region
        .all_cycles()
        .iter()
        .map(|cycle| cycle.half_edges()[0].id())
        .collect();
    assert_eq!(ids, vec![10, 20, 30]);
}

#[test]
fn bounding_box_of_a_half_edge() {
    let mut geometry = Geometry::new();
    let half_edge = |id| {
        Handle::new(id, HalfEdge::new(Handle::new(0, Curve {}), Handle::new(0, Vertex {})))
    };

    let on_line = half_edge(1);
    geometry.define_half_edge_inner(
        &on_line,
        HalfEdgeGeom {
            path: line(uv(3., 1.), uv(1., 2.)),
            boundary: boundary(0., 1.),
        },
    );
    assert_eq!(
        on_line.aabb(&geometry),
        Some(Aabb::from_corners(uv(1., 1.), uv(3., 2.)))
    );

    let on_circle = half_edge(2);
    geometry.define_half_edge_inner(
        &on_circle,
        HalfEdgeGeom {
            path: Path::Circle(Circle::from_center_and_radius(uv(1., 2.), s(0.5))),
            boundary: boundary(0., 1.),
        },
    );
    assert_eq!(
        on_circle.aabb(&geometry),
        Some(Aabb::from_corners(uv(0.5, 1.5), uv(1.5, 2.5)))
    );

    assert_eq!(half_edge(3).aabb(&geometry), None);
    assert_eq!(
        Aabb::from_two_points(uv(3., 1.), uv(1., 2.)),
        Aabb::from_corners(uv(1., 1.), uv(3., 2.))
    );
}

#[test]
fn half_edge_builder_makes_what_was_not_named() {
    let mut objects = Objects::new();
    let (half_edge, geometry) =
        HalfEdgeBuilder::line_segment([uv(1., 1.), uv(3., 2.)], None).build(&mut objects);
    assert_eq!(half_edge.start_vertex().id(), 0);
    assert_eq!(half_edge.curve().id(), 1);
    assert_eq!(objects.next_id(), 2);
    assert_eq!(geometry.boundary, boundary(0., 1.));
    assert_eq!(
        geometry.path,
        Path::Line(Line::from_origin_and_direction(
            uv(1., 1.),
            Vector::from_array([s(2.), s(1.)])
        ))
    );
}

#[test]
fn half_edge_builder_uses_what_was_named() {
    let mut objects = Objects::new();
    let vertex = Handle::new(70, Vertex {});
    let curve = Handle::new(80, Curve {});
    let path = line(uv(0., 0.), uv(1., 0.));
    let (half_edge, geometry) =
        HalfEdgeBuilder::new(path, [Point::from_t(s(2.)), Point::from_t(s(5.))])
            .with_start_vertex(vertex)
            .with_global_form(curve)
            .build(&mut objects);
    assert_eq!(half_edge.start_vertex().id(), 70);
    assert_eq!(half_edge.curve().id(), 80);
    assert_eq!(objects.next_id(), 0);
    assert_eq!(geometry, HalfEdgeGeom { path, boundary: boundary(2., 5.) });

    let (half_edge, _) = HalfEdgeBuilder::new(path, [Point::from_t(s(2.)), Point::from_t(s(5.))])
        .with_global_form(curve)
        .build(&mut objects);
    assert_eq!(half_edge.start_vertex().id(), 0);
    assert_eq!(half_edge.curve().id(), 80);
    assert_eq!(objects.next_id(), 1);
}

#[test]
fn line_segment_with_a_boundary() {
    let mut objects = Objects::new();
    let (_, geometry) = HalfEdgeBuilder::line_segment(
        [uv(1., 1.), uv(3., 2.)],
        Some([Point::from_t(s(1.)), Point::from_t(s(5.))]),
    )
    .build(&mut objects);
    assert_eq!(geometry.boundary, boundary(1., 5.));
    assert_eq!(geometry.path.point_from_path_coords(Point::from_t(s(1.))), uv(1., 1.));
    assert_eq!(geometry.path.point_from_path_coords(Point::from_t(s(5.))), uv(3., 2.));
    assert_eq!(geometry.path.point_from_path_coords(Point::from_t(s(3.))), uv(2., 1.5));
}

#[test]
fn partial_half_edge_knows_its_start_if_it_knows_enough() {
    let path = line(uv(1., 1.), uv(3., 2.));
    let complete = PartialHalfEdge {
        curve: Some(MaybeCurve::Defined(path)),
        boundary: [Some(Point::from_t(s(0.5))), None],
        start_vertex: Handle::new(0, Vertex {}),
        global_form: Handle::new(1, Curve {}),
    };
    assert_eq!(complete.start_position(), Some(uv(2., 1.5)));

    let without_start = PartialHalfEdge {
        boundary: [None, Some(Point::from_t(s(0.5)))],
        ..complete
    };
    assert_eq!(without_start.start_position(), None);

    let without_curve = PartialHalfEdge {
        curve: None,
        ..complete
    };
    assert_eq!(without_curve.start_position(), None);

    let undefined_line = PartialHalfEdge {
        curve: Some(MaybeCurve::UndefinedLine),
        ..complete
    };
    assert_eq!(undefined_line.start_position(), None);

    let undefined_circle = PartialHalfEdge {
        curve: Some(MaybeCurve::UndefinedCircle { radius: s(1.) }),
        ..complete
    };
    assert_eq!(undefined_circle.start_position(), None);
}

#[test]
fn validation_hands_the_shape_back() {
    let config = Config::default();
    let validated = validate(vec![1, 2, 3], &config).unwrap();
    assert_eq!(validated.inner(), &vec![1, 2, 3]);
    assert_eq!(validated.into_inner(), vec![1, 2, 3]);

    let config = ValidationConfig::default();
    assert_eq!(config.distinct_min_distance, s(0.0000005));
    assert_eq!(config.identical_max_distance, s(0.));
}

#[test]
fn validation_error_tells_what_is_missing() {
    let error = ValidationError::Structure(StructuralIssues {
        missing_curve: Some(1),
        missing_vertices: vec![2, 3],
        missing_edges: vec![4],
        missing_surface: None,
        missing_cycles: vec![],
    });
    let surface = Handle::new(5, Surface {});
    let cycle = Cycle::new(
        surface,
        vec![Handle::new(4, HalfEdge::new(Handle::new(1, Curve {}), Handle::new(2, Vertex {})))],
    );
    assert!(error.missing_curve(&Handle::new(1, Curve {})));
    assert!(!error.missing_curve(&Handle::new(2, Curve {})));
    assert!(error.missing_vertex(&Handle::new(3, Vertex {})));
    assert!(!error.missing_vertex(&Handle::new(4, Vertex {})));
    assert!(error.missing_edge(&cycle.half_edges()[0]));
    assert!(!error.missing_surface(&surface));
    assert!(!error.missing_cycle(&Handle::new(6, cycle.clone())));

    let other = ValidationError::Structure(StructuralIssues {
        missing_curve: None,
        missing_vertices: vec![],
        missing_edges: vec![],
        missing_surface: Some(5),
        missing_cycles: vec![6],
    });
    assert!(!other.missing_curve(&Handle::new(1, Curve {})));
    assert!(other.missing_surface(&surface));
    assert!(other.missing_cycle(&Handle::new(6, cycle.clone())));
    assert!(!other.missing_edge(&cycle.half_edges()[0]));

    for error in [
        ValidationError::Coherence,
        ValidationError::Geometric,
        ValidationError::Uniqueness,
    ] {
        assert!(!error.missing_curve(&Handle::new(1, Curve {})));
        assert!(!error.missing_vertex(&Handle::new(3, Vertex {})));
        assert!(!error.missing_edge(&cycle.half_edges()[0]));
        assert!(!error.missing_surface(&surface));
        assert!(!error.missing_cycle(&Handle::new(6, cycle.clone())));
    }
}

fn mesh_vertex(x: f64, y: f64, z: f64) -> MeshVertex {
    MeshVertex {
        point: Point::from_xyz(s(x), s(y), s(z)),
    }
}

#[test]
fn operations_collect_vertices_and_triangles() {
    let a = mesh_vertex(0., 0., 0.);
    let b = mesh_vertex(1., 0., 0.);
    let c = mesh_vertex(0., 1., 0.);

    let mut operations = Operations::default();
    operations.vertex(a.point).vertex(b.point).vertex(c.point);
    operations.triangle([a, b, c]);
    assert_eq!(operations.vertices, vec![a, b, c]);
    assert_eq!(operations.triangles, vec![[a, b, c]]);

    let mut vertices = vec![c];
    let mut triangles = Vec::new();
    operations.vertices(&mut vertices);
    operations.triangles(&mut triangles);
    assert_eq!(vertices, vec![c, a, b, c]);
    assert_eq!(triangles, vec![[a, b, c]]);

    let mut vertices = Vec::new();
    let mut triangles = vec![[c, b, a]];
    a.vertices(&mut vertices);
    a.triangles(&mut triangles);
    assert_eq!(vertices, vec![a]);
    assert_eq!(triangles, vec![[c, b, a]]);
}

#[test]
fn operation_in_sequence_comes_after_the_previous_ones() {
    let a = mesh_vertex(0., 0., 0.);
    let b = mesh_vertex(1., 0., 0.);
    let c = mesh_vertex(0., 1., 0.);

    let in_sequence = OperationInSequence {
        operation: ClonedOperation {
            vertices: vec![c],
            triangles: vec![[a, b, c]],
        },
        previous: Some(ClonedOperation {
            vertices: vec![a, b],
            triangles: vec![[c, c, c]],
        }),
    };
    let mut vertices = Vec::new();
    let mut triangles = Vec::new();
    in_sequence.vertices(&mut vertices);
    in_sequence.triangles(&mut triangles);
    assert_eq!(vertices, vec![a, b, c]);
    assert_eq!(triangles, vec![[c, c, c], [a, b, c]]);

    let first = OperationInSequence {
        operation: ClonedOperation {
            vertices: vec![c],
            triangles: vec![],
        },
        previous: None,
    };
    let mut vertices = vec![a];
    let mut triangles = Vec::new();
    first.vertices(&mut vertices);
    first.triangles(&mut triangles);
    assert_eq!(vertices, vec![a, c]);
    assert_eq!(triangles, Vec::<[MeshVertex; 3]>::new());
}

#[test]
fn model_is_a_cube() {
    let mesh = model();
    assert_eq!(mesh.vertices.len(), 8);
    assert_eq!(mesh.triangles.len(), 12);
    assert_eq!(mesh.vertices[0], Point::from_xyz(s(-0.5), s(-0.5), s(-0.5)));
    assert_eq!(mesh.vertices[1], Point::from_xyz(s(0.5), s(-0.5), s(-0.5)));
    assert_eq!(mesh.vertices[6], Point::from_xyz(s(-0.5), s(0.5), s(0.5)));
    assert_eq!(mesh.vertices[7], Point::from_xyz(s(0.5), s(0.5), s(0.5)));
    assert_eq!(mesh.triangles[0], [0, 4, 6]);
    assert_eq!(mesh.triangles[11], [4, 7, 6]);
    // every edge of the mesh is used once in each direction
    let mut edges = Vec::new();
    for triangle in &mesh.triangles {
        for i in 0..3 {
            edges.push((triangle[i], triangle[(i + 1) % 3]));
        }
    }
    for &(a, b) in &edges {
        assert_eq!(edges.iter().filter(|&&edge| edge == (a, b)).count(), 1);
        assert_eq!(edges.iter().filter(|&&edge| edge == (b, a)).count(), 1);
    }
}

#[test]
fn sweep_cache_starts_empty() {
    let cache = SweepCache::default();
    assert!(cache.curves.is_empty());
    assert!(cache.vertices.is_empty());
}

#[test]
fn partial_half_edge_is_built_when_it_is_complete() {
    let mut objects = Objects::new();
    let mut partial = PartialHalfEdge::new(&mut objects);
    assert_eq!(partial.start_vertex.id(), 0);
    assert_eq!(partial.global_form.id(), 1);
    assert_eq!(objects.next_id(), 2);
    assert_eq!(partial.start_position(), None);

    let path = line(uv(1., 1.), uv(3., 2.));
    partial.curve = Some(MaybeCurve::Defined(path));
    partial.boundary = [Some(Point::from_t(s(0.))), Some(Point::from_t(s(1.)))];
    let (half_edge, geometry) = partial.build();
    assert_eq!(half_edge.start_vertex().id(), 0);
    assert_eq!(half_edge.curve().id(), 1);
    assert_eq!(geometry, HalfEdgeGeom { path, boundary: boundary(0., 1.) });

    let again = PartialHalfEdge::from_full(&(half_edge, geometry));
    assert_eq!(again.start_position(), Some(uv(1., 1.)));
    assert_eq!(again.build().1, geometry);
    let Curve {} = PartialGlobalEdge::from_full(&Curve {}).build();
}
