//! The search graph: inner nodes that ask a question about a point, and
//! sinks that stand for regions of the plane.

use vstd::prelude::*;
use super::ids::Id;
use super::point::Point;
use super::segment::Segment;

verus! {

/// An inner node that asks on which side of a segment a point lies.
#[derive(Clone, Copy, Debug, PartialEq, Eq)]
pub struct X {
    /// The segment that is asked about
    pub segment: Segment,
    /// Where to go on for a point to the left of the segment
    pub left: Id,
    /// Where to go on for a point to the right of the segment
    pub right: Id,
}

/// An inner node that asks whether a point lies below or above another one.
#[derive(Clone, Copy, Debug, PartialEq, Eq)]
pub struct Y {
    /// The point that is asked about
    pub point: Point,
    /// Where to go on for a point below it
    pub below: Id,
    /// Where to go on for a point above it
    pub above: Id,
}

/// A node of the search graph.
#[derive(Clone, Copy, Debug, PartialEq, Eq)]
pub enum Node<XNode, YNode, Sink> {
    /// An inner node that asks about a segment
    X(XNode),
    /// An inner node that asks about a point
    Y(YNode),
    /// A region of the plane
    Sink(Sink),
}

/// The search graph. Its nodes are kept in the order in which they were
/// inserted; the first one is the source, where every search starts.
#[derive(Debug)]
pub struct Graph<XNode, YNode, Sink> {
    nodes: Vec<Node<XNode, YNode, Sink>>,
}

impl<XNode, YNode, Sink> View for Graph<XNode, YNode, Sink> {
    type V = Seq<Node<XNode, YNode, Sink>>;

    closed spec fn view(&self) -> Seq<Node<XNode, YNode, Sink>> {
        self.nodes@
    }
}

impl<XNode, YNode, Sink> Graph<XNode, YNode, Sink> {
    /// The graph whose only node is the sink `root`.
    pub fn with_root(root: Sink) -> (r: Self)
        ensures
            r@ == seq![Node::<XNode, YNode, Sink>::Sink(root)],
    {
        let mut nodes = Vec::new();
        nodes.push(Node::Sink(root));
        assert(nodes@ =~= seq![Node::<XNode, YNode, Sink>::Sink(root)]);
        Graph { nodes }
    }

    /// The identity of the node at which every search starts.
    pub fn source(&self) -> (r: Id)
        ensures
            r == Id(0),
    {
        Id(0)
    }

    /// The number of nodes.
    pub fn len(&self) -> (r: usize)
        ensures
            r == self@.len(),
    {
        self.nodes.len()
    }

    /// The node with the identity `id`, which must be one of the graph.
    pub fn get(&self, id: Id) -> (r: &Node<XNode, YNode, Sink>)
        requires
            id.0 < self@.len(),
        ensures
            *r == self@[id.0 as int],
    {
        &self.nodes[id.0]
    }

    /// Adds a sink to the graph and returns its identity: the number of
    /// nodes that the graph had before.
    pub fn insert_sink(&mut self, sink: Sink) -> (r: Id)
        ensures
            r == Id(old(self)@.len() as usize),
            final(self)@ == old(self)@.push(Node::Sink(sink)),
    {
        let id = Id(self.nodes.len());
        self.nodes.push(Node::Sink(sink));
        id
    }

    /// Puts `node` in the place of the node with the identity `id`, which
    /// must be one of the graph.
    pub fn replace(&mut self, id: Id, node: Node<XNode, YNode, Sink>)
        requires
            id.0 < old(self)@.len(),
        ensures
            final(self)@ == old(self)@.update(id.0 as int, node),
    {
        self.nodes[id.0] = node;
    }
}

impl<XNode, YNode, Sink: Default> Graph<XNode, YNode, Sink> {
    /// The graph whose only node is a sink for the whole plane.
    pub fn new() -> (r: Self)
        ensures
            r@.len() == 1,
            r@[0] is Sink,
    {
        Self::with_root(Sink::default())
    }
}

} // verus!
