//! Identities of the nodes of the search graph.

use vstd::prelude::*;

verus! {

/// The identity of a node of the search graph: the place at which it was
/// inserted, counted from zero.
#[derive(Clone, Copy, Debug, PartialEq, Eq, Hash, PartialOrd, Ord, Structural)]
pub struct Id(pub usize);

} // verus!
