use petgraph::graph::NodeIndex;
use petgraph::visit::EdgeRef;
use petgraph::{Directed, Direction, Graph};
use vstd::prelude::*;

verus! {

/// Declares `petgraph::Graph`, held as an opaque value.
#[verifier::external_type_specification]
#[verifier::external_body]
#[verifier::reject_recursive_types(N)]
#[verifier::reject_recursive_types(E)]
#[verifier::reject_recursive_types(Ty)]
#[verifier::reject_recursive_types(Ix)]
pub struct ExGraph<N, E, Ty, Ix>(Graph<N, E, Ty, Ix>);

/// Declares `petgraph::Directed`, the edge kind of the tree.
#[verifier::external_type_specification]
#[verifier::external_body]
pub struct ExDirected(Directed);

/// The parent/child tree over boundary positions: a directed graph whose node
/// weights are the positions of the halfspaces in the boundary.
pub type Tree = Graph<usize, ()>;

/// The weights of the tree's nodes, in the order of their node indices.
pub uninterp spec fn tree_nodes(g: Tree) -> Seq<usize>;

/// The tree's edges as (source, target) node indices, in the order they were
/// added.
pub uninterp spec fn tree_edges(g: Tree) -> Seq<(usize, usize)>;

/// The largest number of nodes, and of edges, a tree can hold: its indices are
/// `u32`, and the largest one marks an absent index.
pub const TREE_CAPACITY: usize = 0xffff_ffff;

/// Relies on `petgraph::Graph::new`: a graph with no nodes and no edges.
#[verifier::external_body]
pub(crate) fn new_tree() -> (g: Tree)
    ensures
        tree_nodes(g) == Seq::<usize>::empty(),
        tree_edges(g) == Seq::<(usize, usize)>::empty(),
{
    Graph::new()
}

/// Relies on `petgraph::Graph::add_node`: appends a node with weight `w`, whose
/// index is the former node count; edges are unchanged. It panics once the
/// `u32` indices are used up, which `requires` excludes.
#[verifier::external_body]
pub(crate) fn tree_add_node(g: &mut Tree, w: usize) -> (id: usize)
    requires
        tree_nodes(*old(g)).len() < TREE_CAPACITY,
    ensures
        tree_nodes(*final(g)) == tree_nodes(*old(g)).push(w),
        tree_edges(*final(g)) == tree_edges(*old(g)),
        id == tree_nodes(*old(g)).len(),
{
    g.add_node(w).index()
}

/// Relies on `petgraph::Graph::add_edge`: appends the edge `a -> b`; nodes are
/// unchanged. It panics on an absent node or once the `u32` indices are used
/// up, which `requires` excludes.
#[verifier::external_body]
pub(crate) fn tree_add_edge(g: &mut Tree, a: usize, b: usize)
    requires
        a < tree_nodes(*old(g)).len(),
        b < tree_nodes(*old(g)).len(),
        tree_nodes(*old(g)).len() <= TREE_CAPACITY,
        tree_edges(*old(g)).len() < TREE_CAPACITY,
    ensures
        tree_nodes(*final(g)) == tree_nodes(*old(g)),
        tree_edges(*final(g)) == tree_edges(*old(g)).push((a, b)),
{
    g.add_edge(NodeIndex::new(a), NodeIndex::new(b), ());
}

/// Relies on `petgraph::Graph::edges_directed` with `Incoming`: the first edge
/// it yields into node `id`, by its source; none when no edge ends at `id`.
#[verifier::external_body]
pub(crate) fn tree_incoming_source(g: &Tree, id: usize) -> (r: Option<usize>)
    requires
        id < tree_nodes(*g).len(),
        tree_nodes(*g).len() <= TREE_CAPACITY,
    ensures
        r matches Some(p) ==> tree_edges(*g).contains((p, id)),
        r is None ==> forall|k: int|
            0 <= k < tree_edges(*g).len() ==> (#[trigger] tree_edges(*g)[k]).1 != id,
{
    g.edges_directed(NodeIndex::new(id), Direction::Incoming).next().map(|e| e.source().index())
}

} // verus!
