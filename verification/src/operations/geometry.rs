//! The operations that build up a triangle mesh.

use vstd::prelude::*;
use crate::math::point::Point;

verus! {

/// A corner of a triangle.
#[derive(Clone, Copy, Debug, PartialEq, Eq, PartialOrd, Ord)]
pub struct Vertex {
    /// Where the corner lies
    pub point: Point<3>,
}

/// Three corners.
pub type Triangle = [Vertex; 3];

/// Something that adds vertices and triangles to a shape.
pub trait Operation {
    /// The vertices that the operation adds.
    spec fn own_vertices(&self) -> Seq<Vertex>;

    /// The triangles that the operation adds.
    spec fn own_triangles(&self) -> Seq<Triangle>;

    /// Adds the vertices of the operation at the end of `vertices`.
    fn vertices(&self, vertices: &mut Vec<Vertex>)
        ensures
            final(vertices)@ == old(vertices)@ + self.own_vertices(),
    ;

    /// Adds the triangles of the operation at the end of `triangles`.
    fn triangles(&self, triangles: &mut Vec<Triangle>)
        ensures
            final(triangles)@ == old(triangles)@ + self.own_triangles(),
    ;
}

/// Adds copies of the items of `items` at the end of `out`.
fn extend<T: Copy>(out: &mut Vec<T>, items: &Vec<T>)
    ensures
        final(out)@ == old(out)@ + items@,
{
    let n = items.len();
    let mut i: usize = 0;
    assert(old(out)@ + items@.take(0) =~= old(out)@);
    while i < n
        invariant
            n == items.len(),
            i <= n,
            out@ == old(out)@ + items@.take(i as int),
        decreases n - i,
    {
        out.push(items[i]);
        assert(old(out)@ + items@.take(i + 1) =~= (old(out)@ + items@.take(i as int)).push(
            items[i as int],
        ));
        i += 1;
    }
    assert(items@.take(n as int) =~= items@);
}

/// The vertices and triangles of a shape, in the order in which they were
/// added.
#[derive(Debug)]
pub struct Operations {
    /// The vertices that were added
    pub vertices: Vec<Vertex>,
    /// The triangles that were added
    pub triangles: Vec<Triangle>,
}

impl Default for Operations {
    fn default() -> (r: Self)
        ensures
            r.vertices@ == Seq::<Vertex>::empty(),
            r.triangles@ == Seq::<Triangle>::empty(),
    {
        Operations { vertices: Vec::new(), triangles: Vec::new() }
    }
}

impl Operations {
    /// Adds a vertex at `point`, and hands out the means to add more.
    pub fn vertex(&mut self, point: Point<3>) -> (r: OperationResult<'_>)
        ensures
            r.operations.vertices@ == old(self).vertices@.push(Vertex { point }),
            r.operations.triangles@ == old(self).triangles@,
            *final(self) == *final(r.operations),
    {
        let vertex = Vertex { point };
        self.vertices.push(vertex);
        OperationResult { operations: self }
    }

    /// Adds a triangle.
    pub fn triangle(&mut self, triangle: Triangle)
        ensures
            final(self).triangles@ == old(self).triangles@.push(triangle),
            final(self).vertices@ == old(self).vertices@,
    {
        self.triangles.push(triangle);
    }
}

impl Operation for Operations {
    open spec fn own_vertices(&self) -> Seq<Vertex> {
        self.vertices@
    }

    open spec fn own_triangles(&self) -> Seq<Triangle> {
        self.triangles@
    }

    fn vertices(&self, vertices: &mut Vec<Vertex>) {
        extend(vertices, &self.vertices);
    }

    fn triangles(&self, triangles: &mut Vec<Triangle>) {
        extend(triangles, &self.triangles);
    }
}

/// What adding a vertex hands out: the means to add another one.
pub struct OperationResult<'r> {
    /// The shape that the vertices are added to
    pub operations: &'r mut Operations,
}

impl<'r> OperationResult<'r> {
    /// Adds a further vertex at `point`.
    pub fn vertex(self, point: Point<3>) -> (r: OperationResult<'r>)
        ensures
            r.operations.vertices@ == old(self.operations).vertices@.push(Vertex { point }),
            r.operations.triangles@ == old(self.operations).triangles@,
            *final(self.operations) == *final(r.operations),
    {
        self.operations.vertices.push(Vertex { point });
        OperationResult { operations: self.operations }
    }
}

impl Operation for Vertex {
    open spec fn own_vertices(&self) -> Seq<Vertex> {
        seq![*self]
    }

    open spec fn own_triangles(&self) -> Seq<Triangle> {
        Seq::empty()
    }

    fn vertices(&self, vertices: &mut Vec<Vertex>) {
        vertices.push(*self);
        assert(vertices@ =~= old(vertices)@ + seq![*self]);
    }

    fn triangles(&self, triangles: &mut Vec<Triangle>) {
        assert(triangles@ =~= old(triangles)@ + Seq::<Triangle>::empty());
    }
}

/// The vertices and triangles of an operation, copied out of it.
#[derive(Debug)]
pub struct ClonedOperation {
    /// The vertices of the operation
    pub vertices: Vec<Vertex>,
    /// The triangles of the operation
    pub triangles: Vec<Triangle>,
}

impl Operation for ClonedOperation {
    open spec fn own_vertices(&self) -> Seq<Vertex> {
        self.vertices@
    }

    open spec fn own_triangles(&self) -> Seq<Triangle> {
        self.triangles@
    }

    fn vertices(&self, vertices: &mut Vec<Vertex>) {
        extend(vertices, &self.vertices);
    }

    fn triangles(&self, triangles: &mut Vec<Triangle>) {
        extend(triangles, &self.triangles);
    }
}

/// An operation together with all that came before it.
#[derive(Debug)]
pub struct OperationInSequence {
    /// The operation itself
    pub operation: ClonedOperation,
    /// All the operations before it, as one
    pub previous: Option<ClonedOperation>,
}

impl Operation for OperationInSequence {
    open spec fn own_vertices(&self) -> Seq<Vertex> {
        match self.previous {
            Some(previous) => previous.vertices@ + self.operation.vertices@,
            None => self.operation.vertices@,
        }
    }

    open spec fn own_triangles(&self) -> Seq<Triangle> {
        match self.previous {
            Some(previous) => previous.triangles@ + self.operation.triangles@,
            None => self.operation.triangles@,
        }
    }

    fn vertices(&self, vertices: &mut Vec<Vertex>) {
        if let Some(op) = &self.previous {
            op.vertices(vertices);
        }
        self.operation.vertices(vertices);
        assert(vertices@ =~= old(vertices)@ + self.own_vertices());
    }

    fn triangles(&self, triangles: &mut Vec<Triangle>) {
        if let Some(op) = &self.previous {
            op.triangles(triangles);
        }
        self.operation.triangles(triangles);
        assert(triangles@ =~= old(triangles)@ + self.own_triangles());
    }
}

} // verus!
