//! The model that the kernel is tried on: a cube.

use vstd::prelude::*;
use crate::math::point::Point;
use crate::math::scalar::Scalar;

verus! {

/// Raw value of one half, the distance of every face of the cube from its
/// centre.
pub const HALF_RAW: i64 = 500_000_000;

/// Raw value of minus one half.
pub const MINUS_HALF_RAW: i64 = -500_000_000;

/// A triangle mesh: corners, and triangles that name three corners each by
/// their place among the corners.
#[derive(Clone, Debug, PartialEq, Eq)]
pub struct Mesh {
    /// The corners
    pub vertices: Vec<Point<3>>,
    /// The triangles
    pub triangles: Vec<[u32; 3]>,
}

/// The corner of the cube on the given sides: `true` is the side with the
/// larger coordinate.
pub open spec fn spec_corner(right: bool, back: bool, top: bool) -> Point<3> {
    Point::<3>::from_xyz(
        Scalar { raw: if right { HALF_RAW } else { MINUS_HALF_RAW } },
        Scalar { raw: if back { HALF_RAW } else { MINUS_HALF_RAW } },
        Scalar { raw: if top { HALF_RAW } else { MINUS_HALF_RAW } },
    )
}

/// The corner of the cube on the given sides.
#[verifier::when_used_as_spec(spec_corner)]
pub fn corner(right: bool, back: bool, top: bool) -> (r: Point<3>)
    ensures
        r == spec_corner(right, back, top),
{
    Point::from_xyz(
        Scalar { raw: if right { HALF_RAW } else { MINUS_HALF_RAW } },
        Scalar { raw: if back { HALF_RAW } else { MINUS_HALF_RAW } },
        Scalar { raw: if top { HALF_RAW } else { MINUS_HALF_RAW } },
    )
}

/// The eight corners of the cube. The place of a corner is one for the
/// right side, plus two for the back, plus four for the top.
pub open spec fn cube_vertices() -> Seq<Point<3>> {
    seq![
        corner(false, false, false),
        corner(true, false, false),
        corner(false, true, false),
        corner(true, true, false),
        corner(false, false, true),
        corner(true, false, true),
        corner(false, true, true),
        corner(true, true, true),
    ]
}

/// The twelve triangles of the cube, two for each face: left, right, front,
/// back, bottom, top.
pub open spec fn cube_triangles() -> Seq<Seq<u32>> {
    seq![
        seq![0u32, 4, 6],
        seq![0u32, 6, 2],
        seq![1u32, 3, 7],
        seq![1u32, 7, 5],
        seq![0u32, 1, 5],
        seq![0u32, 5, 4],
        seq![2u32, 7, 3],
        seq![2u32, 6, 7],
        seq![0u32, 2, 1],
        seq![1u32, 2, 3],
        seq![4u32, 5, 7],
        seq![4u32, 7, 6],
    ]
}

/// The mesh of a cube with sides of length one around the origin.
pub fn model() -> (mesh: Mesh)
    ensures
        mesh.vertices@ == cube_vertices(),
        mesh.triangles@.len() == 12,
        forall|i: int| 0 <= i < 12 ==> (#[trigger] mesh.triangles@[i])@ == cube_triangles()[i],
        forall|i: int, j: int|
            0 <= i < 12 && 0 <= j < 3 ==> (#[trigger] mesh.triangles@[i][j]) < mesh.vertices@.len(),
{
    let mut vertices: Vec<Point<3>> = Vec::new();
    vertices.push(corner(false, false, false));
    vertices.push(corner(true, false, false));
    vertices.push(corner(false, true, false));
    vertices.push(corner(true, true, false));
    vertices.push(corner(false, false, true));
    vertices.push(corner(true, false, true));
    vertices.push(corner(false, true, true));
    vertices.push(corner(true, true, true));
    assert(vertices@ =~= cube_vertices());

    let mut triangles: Vec<[u32; 3]> = Vec::new();
    triangles.push([0, 4, 6]);  // left
    triangles.push([0, 6, 2]);
    triangles.push([1, 3, 7]);  // right
    triangles.push([1, 7, 5]);
    triangles.push([0, 1, 5]);  // front
    triangles.push([0, 5, 4]);
    triangles.push([2, 7, 3]);  // back
    triangles.push([2, 6, 7]);
    triangles.push([0, 2, 1]);  // bottom
    triangles.push([1, 2, 3]);
    triangles.push([4, 5, 7]);  // top
    triangles.push([4, 7, 6]);
    proof {
        assert forall|i: int| 0 <= i < 12 implies (#[trigger] triangles@[i])@
            == cube_triangles()[i] by {
            assert(triangles@[i]@ =~= cube_triangles()[i]);
        }
    }

    Mesh { vertices, triangles }
}

} // verus!
