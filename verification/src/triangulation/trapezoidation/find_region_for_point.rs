//! The search for the region that a point is in.

use vstd::prelude::*;
use super::graph::{Graph, Node, X, Y};
use super::ids::Id;
use super::point;
use super::point::Point;
use super::segment;

verus! {

/// Whether every link of the graph leads to a node that was inserted after
/// the one that holds the link. No search in such a graph goes round in
/// circles.
pub open spec fn links_lead_on<Region>(nodes: Seq<Node<X, Y, Region>>) -> bool {
    forall|i: int|
        0 <= i < nodes.len() ==> match #[trigger] nodes[i] {
            Node::X(x) => i < x.left.0 < nodes.len() && i < x.right.0 < nodes.len(),
            Node::Y(y) => i < y.below.0 < nodes.len() && i < y.above.0 < nodes.len(),
            Node::Sink(_) => true,
        }
}

/// How a search ends.
pub enum Found {
    /// In the sink with this identity
    Region(Id),
    /// At a point of the graph that is the point searched for
    Present,
    /// At a segment that the point has no side of
    Stuck,
}

/// How the search for `point` ends that starts at the node `id`.
pub open spec fn search<Region>(nodes: Seq<Node<X, Y, Region>>, id: int, point: Point) -> Found
    decreases nodes.len() - id,
{
    if !(0 <= id < nodes.len() && links_lead_on(nodes)) {
        Found::Stuck
    } else {
        match nodes[id] {
            Node::X(x) => match x.segment.relation_from_point(&point) {
                Some(segment::Relation::Left) => search(nodes, x.left.0 as int, point),
                Some(segment::Relation::Right) => search(nodes, x.right.0 as int, point),
                None => Found::Stuck,
            },
            Node::Y(y) => match point.relation_to(&y.point) {
                Some(point::Relation::Below) => search(nodes, y.below.0 as int, point),
                Some(point::Relation::Above) => search(nodes, y.above.0 as int, point),
                None => Found::Present,
            },
            Node::Sink(_) => Found::Region(Id(id as usize)),
        }
    }
}

/// Find the region that the given point is in
///
/// Returns `None` if a region can't be found because the point is already in
/// the graph.
///
/// The links of the graph must lead on, and the search must not come to a
/// segment that the point has no side of.
pub fn find_region_for_point<Region>(point: &Point, graph: &Graph<X, Y, Region>) -> (r: Option<Id>)
    requires
        links_lead_on(graph@),
        !(search(graph@, 0, *point) is Stuck),
    ensures
        match search(graph@, 0, *point) {
            Found::Region(id) => r == Some(id) && id.0 < graph@.len() && graph@[id.0 as int]
                is Sink,
            Found::Present => r is None,
            Found::Stuck => false,
        },
{
    let mut current_id = graph.source();
    loop
        invariant
            links_lead_on(graph@),
            current_id.0 < graph@.len(),
            search(graph@, current_id.0 as int, *point) == search(graph@, 0, *point),
            !(search(graph@, 0, *point) is Stuck),
        decreases graph@.len() - current_id.0,
    {
        match graph.get(current_id) {
            Node::X(X { segment, left, right }) => match segment.relation_from_point(point) {
                Some(segment::Relation::Left) => current_id = *left,
                Some(segment::Relation::Right) => current_id = *right,
                None => vstd::pervasive::unreached(),
            },
            Node::Y(Y { point: p, below, above }) => match point.relation_to(p) {
                Some(point::Relation::Below) => current_id = *below,
                Some(point::Relation::Above) => current_id = *above,
                None => {
                    // Point already in graph.
                    return None;
                },
            },
            Node::Sink(_) => return Some(current_id),
        }
    }
}

} // verus!
