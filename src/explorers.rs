use crate::extensions::Queue;
use crate::sampling::Halfspace;
use crate::tree::{
    new_tree, tree_add_edge, tree_add_node, tree_edges, tree_incoming_source, tree_nodes, Tree,
    TREE_CAPACITY,
};
use vstd::prelude::*;

verus! {

/// The frontier expansion candidates of halfspace `id`: each direction in `vs`
/// paired with `id`.
pub open spec fn tag<V>(id: usize, vs: Seq<V>) -> Seq<(usize, V)> {
    vs.map_values(|v: V| (id, v))
}

/// The path queue after loading the first `k` halfspaces of a saved boundary,
/// halfspace `i` with the directions `dirs[i]`.
pub open spec fn loaded_queue<V>(dirs: Seq<Seq<V>>, k: nat) -> Seq<(usize, V)>
    decreases k,
{
    if k == 0 {
        Seq::empty()
    } else {
        loaded_queue(dirs, (k - 1) as nat) + tag((k - 1) as usize, dirs[k - 1])
    }
}

/// The bookkeeping of a mesh exploration: the boundary found so far, the FIFO
/// queue of paths (a parent's position and an in-surface direction) still to
/// be tried, the parent whose path is being adhered along, and the tree whose
/// edges lead from each halfspace to the halfspaces found from it.
///
/// Position `i` of the boundary is node `i` of the tree. Halfspace `k + 1` was
/// found from its parent, the source of edge `k`, which comes before it.
pub struct MeshFrontier<P, V> {
    boundary: Vec<Halfspace<P>>,
    path_queue: Vec<(usize, V)>,
    current_parent: usize,
    tree: Tree,
}

impl<P: Copy, V: Copy> MeshFrontier<P, V> {
    /// The halfspaces found so far, in the order they were found.
    pub closed spec fn spec_boundary(&self) -> Seq<Halfspace<P>> {
        self.boundary@
    }

    /// The paths still to be tried, front first.
    pub closed spec fn spec_queue(&self) -> Seq<(usize, V)> {
        self.path_queue@
    }

    /// The tree's edges, as (parent, child) positions, in the order they were
    /// added.
    pub closed spec fn spec_edges(&self) -> Seq<(usize, usize)> {
        tree_edges(self.tree)
    }

    /// The tree's node weights: the boundary position each node stands for.
    pub closed spec fn spec_nodes(&self) -> Seq<usize> {
        tree_nodes(self.tree)
    }

    /// The position of the halfspace being adhered from.
    pub closed spec fn spec_parent(&self) -> usize {
        self.current_parent
    }

    /// The frontier is consistent: one tree node per halfspace, standing for
    /// it; one edge into every halfspace but the first, from an earlier one;
    /// every queued path and the current parent name a known halfspace.
    pub open spec fn wf(&self) -> bool {
        &&& 0 < self.spec_boundary().len() <= TREE_CAPACITY
        &&& self.spec_nodes().len() == self.spec_boundary().len()
        &&& forall|i: int| 0 <= i < self.spec_nodes().len() ==> #[trigger] self.spec_nodes()[i] == i
        &&& self.spec_edges().len() + 1 == self.spec_boundary().len()
        &&& forall|k: int|
            0 <= k < self.spec_edges().len() ==> (#[trigger] self.spec_edges()[k]).1 == k + 1
                && self.spec_edges()[k].0 <= k
        &&& forall|k: int|
            0 <= k < self.spec_queue().len() ==> (#[trigger] self.spec_queue()[k]).0
                < self.spec_boundary().len()
        &&& self.spec_parent() < self.spec_boundary().len()
    }

    /// Appends `hs` to the boundary and the tree, with an edge from `parent`
    /// unless it is the first, and queues its directions.
    fn push_node(&mut self, hs: Halfspace<P>, parent: usize, dirs: &Vec<V>) -> (id: usize)
        requires
            old(self).spec_boundary().len() < TREE_CAPACITY,
            old(self).spec_nodes().len() == old(self).spec_boundary().len(),
            forall|i: int|
                0 <= i < old(self).spec_nodes().len() ==> #[trigger] old(self).spec_nodes()[i] == i,
            old(self).spec_edges().len() + 1 == old(self).spec_boundary().len() || (
            old(self).spec_edges().len() == 0 && old(self).spec_boundary().len() == 0),
            old(self).spec_boundary().len() > 0 ==> parent < old(self).spec_boundary().len(),
        ensures
            id == old(self).spec_boundary().len(),
            final(self).spec_boundary() == old(self).spec_boundary().push(hs),
            final(self).spec_nodes() == old(self).spec_nodes().push(id),
            old(self).spec_boundary().len() > 0 ==> final(self).spec_edges() == old(self).spec_edges().push((parent, id)),
            old(self).spec_boundary().len() == 0 ==> final(self).spec_edges() == old(self).spec_edges(),
            final(self).spec_queue() == old(self).spec_queue() + tag(id, dirs@),
            final(self).spec_parent() == old(self).spec_parent(),
    {
        let id = self.boundary.len();
        self.boundary.push(hs);
        let node = tree_add_node(&mut self.tree, id);
        assert(node == id);
        if id > 0 {
            tree_add_edge(&mut self.tree, parent, id);
        }
        let ghost q0 = self.path_queue@;
        let ghost b1 = self.boundary@;
        let ghost t1 = self.tree;
        let ghost p1 = self.current_parent;
        let mut j: usize = 0;
        while j < dirs.len()
            invariant
                j <= dirs@.len(),
                self.boundary@ == b1,
                self.tree == t1,
                self.current_parent == p1,
                self.path_queue@ == q0 + tag(id, dirs@.subrange(0, j as int)),
            decreases dirs@.len() - j,
        {
            self.path_queue.enqueue((id, dirs[j]));
            j += 1;
            proof {
                assert(q0 + tag(id, dirs@.subrange(0, j as int)) =~= self.path_queue@);
            }
        }
        proof {
            assert(dirs@.subrange(0, j as int) =~= dirs@);
        }
        id
    }

    /// Starts an exploration from the halfspace `root`, queueing the directions
    /// `dirs` from it.
    pub fn new(root: Halfspace<P>, dirs: Vec<V>) -> (r: Self)
        ensures
            r.wf(),
            r.spec_boundary() == seq![root],
            r.spec_edges() == Seq::<(usize, usize)>::empty(),
            r.spec_queue() == tag(0, dirs@),
            r.spec_parent() == 0,
    {
        let mut r = MeshFrontier {
            boundary: Vec::new(),
            path_queue: Vec::new(),
            current_parent: 0,
            tree: new_tree(),
        };
        r.push_node(root, 0, &dirs);
        proof {
            assert(r.spec_boundary() =~= seq![root]);
            assert(r.spec_queue() =~= tag(0, dirs@));
        }
        r
    }

    /// Rebuilds an exploration from a saved boundary. Halfspace `i` becomes a
    /// child of `parents[i]`, an earlier halfspace (the first is the root and its
    /// entry is not read), and `dirs[i]` are queued as its paths.
    pub fn load(boundary: &Vec<Halfspace<P>>, parents: &Vec<usize>, dirs: &Vec<Vec<V>>) -> (r: Self)
        requires
            0 < boundary@.len() <= TREE_CAPACITY,
            parents@.len() == boundary@.len(),
            dirs@.len() == boundary@.len(),
            forall|i: int| 0 < i < parents@.len() ==> #[trigger] parents@[i] < i,
        ensures
            r.wf(),
            r.spec_boundary() == boundary@,
            forall|k: int|
                0 <= k < r.spec_edges().len() ==> #[trigger] r.spec_edges()[k] == (
                parents@[k + 1],
                (k + 1) as usize,
            ),
            r.spec_queue() == loaded_queue(dirs@.map_values(|d: Vec<V>| d@), boundary@.len() as nat),
            r.spec_parent() == 0,
    {
        let ghost ds = dirs@.map_values(|d: Vec<V>| d@);
        let mut r = MeshFrontier {
            boundary: Vec::new(),
            path_queue: Vec::new(),
            current_parent: 0,
            tree: new_tree(),
        };
        let mut i: usize = 0;
        while i < boundary.len()
            invariant
                i <= boundary@.len() <= TREE_CAPACITY,
                parents@.len() == boundary@.len(),
                dirs@.len() == boundary@.len(),
                forall|i: int| 0 < i < parents@.len() ==> #[trigger] parents@[i] < i,
                ds == dirs@.map_values(|d: Vec<V>| d@),
                r.spec_boundary() == boundary@.subrange(0, i as int),
                r.spec_nodes().len() == i,
                forall|j: int| 0 <= j < i ==> #[trigger] r.spec_nodes()[j] == j,
                i > 0 ==> r.spec_edges().len() + 1 == i,
                i == 0 ==> r.spec_edges().len() == 0,
                forall|k: int|
                    0 <= k < r.spec_edges().len() ==> #[trigger] r.spec_edges()[k] == (
                    parents@[k + 1],
                    (k + 1) as usize,
                ),
                r.spec_queue() == loaded_queue(ds, i as nat),
                r.spec_parent() == 0,
            decreases boundary@.len() - i,
        {
            let ghost n0 = r.spec_nodes();
            let id = r.push_node(boundary[i], parents[i], &dirs[i]);
            i += 1;
            proof {
                assert(r.spec_boundary() =~= boundary@.subrange(0, i as int));
                assert forall|j: int| 0 <= j < i implies #[trigger] r.spec_nodes()[j] == j by {
                    if j < i - 1 {
                        assert(r.spec_nodes()[j] == n0[j]);
                    }
                }
                assert(ds[i - 1] == dirs@[i - 1]@);
            }
        }
        proof {
            assert(r.spec_boundary() =~= boundary@);
            assert forall|k: int| 0 <= k < r.spec_queue().len() implies (
            #[trigger] r.spec_queue()[k]).0 < r.spec_boundary().len() by {
                lemma_loaded_queue_ids(ds, i as nat, k);
            }
            assert forall|k: int| 0 <= k < r.spec_edges().len() implies (
            #[trigger] r.spec_edges()[k]).1 == k + 1 && r.spec_edges()[k].0 <= k by {
                assert(parents@[k + 1] < k + 1);
            }
        }
        r
    }

    /// Takes the next path from the front of the queue: the parent halfspace,
    /// its position and the direction. `None` when the queue is drained.
    pub fn next_path(&mut self) -> (r: Option<(Halfspace<P>, usize, V)>)
        requires
            old(self).wf(),
        ensures
            final(self).wf(),
            final(self).spec_boundary() == old(self).spec_boundary(),
            final(self).spec_edges() == old(self).spec_edges(),
            final(self).spec_parent() == old(self).spec_parent(),
            old(self).spec_queue().len() == 0 ==> r is None && final(self).spec_queue() == old(self).spec_queue(),
            old(self).spec_queue().len() > 0 ==> final(self).spec_queue() == old(self).spec_queue().drop_first() && r == Some(
                (
                    old(self).spec_boundary()[old(self).spec_queue()[0].0 as int],
                    old(self).spec_queue()[0].0,
                    old(self).spec_queue()[0].1,
                ),
            ),
    {
        match self.path_queue.dequeue() {
            None => None,
            Some((id, v)) => {
                assert(self.spec_queue() == old(self).spec_queue().drop_first());
                assert forall|k: int| 0 <= k < self.spec_queue().len() implies (
                #[trigger] self.spec_queue()[k]).0 < self.spec_boundary().len() by {
                    assert(self.spec_queue()[k] == old(self).spec_queue()[k + 1]);
                }
                Some((self.boundary[id], id, v))
            },
        }
    }

    /// Marks the halfspace at position `id` as the parent of the halfspace being
    /// searched for.
    pub fn select_parent(&mut self, id: usize)
        requires
            old(self).wf(),
            id < old(self).spec_boundary().len(),
        ensures
            final(self).wf(),
            final(self).spec_parent() == id,
            final(self).spec_boundary() == old(self).spec_boundary(),
            final(self).spec_edges() == old(self).spec_edges(),
            final(self).spec_queue() == old(self).spec_queue(),
    {
        self.current_parent = id;
        assert(self.spec_nodes() == old(self).spec_nodes());
        assert(self.spec_edges() == old(self).spec_edges());
        assert(self.spec_queue() == old(self).spec_queue());
    }

    /// Records the halfspace `hs` found from the current parent: it is appended
    /// to the boundary, becomes the parent's child in the tree, and the
    /// directions `dirs` are queued from it. Returns its position.
    pub fn add_child(&mut self, hs: Halfspace<P>, dirs: &Vec<V>) -> (id: usize)
        requires
            old(self).wf(),
            old(self).spec_boundary().len() < TREE_CAPACITY,
        ensures
            final(self).wf(),
            id == old(self).spec_boundary().len(),
            final(self).spec_boundary() == old(self).spec_boundary().push(hs),
            final(self).spec_edges() == old(self).spec_edges().push((old(self).spec_parent(), id)),
            final(self).spec_queue() == old(self).spec_queue() + tag(id, dirs@),
            final(self).spec_parent() == old(self).spec_parent(),
    {
        let parent = self.current_parent;
        let id = self.push_node(hs, parent, dirs);
        proof {
            assert forall|i: int| 0 <= i < self.spec_nodes().len() implies #[trigger] self.spec_nodes()[i]
                == i by {
                if i < id {
                    assert(self.spec_nodes()[i] == old(self).spec_nodes()[i]);
                }
            }
            assert forall|k: int| 0 <= k < self.spec_edges().len() implies (
            #[trigger] self.spec_edges()[k]).1 == k + 1 && self.spec_edges()[k].0 <= k by {
                if k < id - 1 {
                    assert(self.spec_edges()[k] == old(self).spec_edges()[k]);
                }
            }
            assert forall|k: int| 0 <= k < self.spec_queue().len() implies (
            #[trigger] self.spec_queue()[k]).0 < self.spec_boundary().len() by {
                if k < old(self).spec_queue().len() {
                    assert(self.spec_queue()[k] == old(self).spec_queue()[k]);
                } else {
                    assert(self.spec_queue()[k] == tag(id, dirs@)[k - old(self).spec_queue().len()]);
                }
            }
        }
        id
    }

    /// The position of the halfspace that the halfspace at `id` was found from;
    /// `None` for the root.
    pub fn get_parent(&self, id: usize) -> (r: Option<usize>)
        requires
            self.wf(),
            id < self.spec_boundary().len(),
        ensures
            id == 0 ==> r is None,
            id > 0 ==> r == Some(self.spec_edges()[id - 1].0),
    {
        let r = tree_incoming_source(&self.tree, id);
        proof {
            if id > 0 {
                let e = self.spec_edges()[id - 1];
                if r is None {
                    assert(e.1 != id);
                } else {
                    let p = r->0;
                    let k = choose|k: int|
                        0 <= k < self.spec_edges().len() && self.spec_edges()[k] == (p, id);
                    assert(self.spec_edges()[k].1 == k + 1);
                }
            } else if r is Some {
                let p = r->0;
                let k = choose|k: int|
                    0 <= k < self.spec_edges().len() && self.spec_edges()[k] == (p, id);
                assert(self.spec_edges()[k].1 == k + 1);
            }
        }
        r
    }

    /// Replaces the surface vector of the halfspace at position `id` with `n`,
    /// keeping its boundary point: a refinement of its normal.
    pub fn replace_normal(&mut self, id: usize, n: P)
        requires
            old(self).wf(),
            id < old(self).spec_boundary().len(),
        ensures
            final(self).wf(),
            final(self).spec_boundary() == old(self).spec_boundary().update(
                id as int,
                Halfspace { b: old(self).spec_boundary()[id as int].b, n },
            ),
            final(self).spec_edges() == old(self).spec_edges(),
            final(self).spec_queue() == old(self).spec_queue(),
            final(self).spec_parent() == old(self).spec_parent(),
    {
        let b = self.boundary[id].b;
        self.boundary.set(id, Halfspace { b, n });
        assert(self.spec_nodes() == old(self).spec_nodes());
        assert(self.spec_edges() == old(self).spec_edges());
        assert(self.spec_queue() == old(self).spec_queue());
    }

    /// The halfspaces found so far, in the order they were found.
    pub fn boundary(&self) -> (r: &Vec<Halfspace<P>>)
        ensures
            r@ == self.spec_boundary(),
    {
        &self.boundary
    }

    /// The number of halfspaces found so far.
    pub fn boundary_count(&self) -> (r: usize)
        ensures
            r == self.spec_boundary().len(),
    {
        self.boundary.len()
    }

    /// The position of the halfspace being adhered from.
    pub fn current_parent(&self) -> (r: usize)
        ensures
            r == self.spec_parent(),
    {
        self.current_parent
    }

    /// The number of paths still queued.
    pub fn queued_paths(&self) -> (r: usize)
        ensures
            r == self.spec_queue().len(),
    {
        self.path_queue.len()
    }

    /// Gives up the bookkeeping, keeping the boundary.
    pub fn boundary_owned(self) -> (r: Vec<Halfspace<P>>)
        ensures
            r@ == self.spec_boundary(),
    {
        self.boundary
    }
}

/// Every halfspace is found after the halfspace it was found from: along each
/// edge of the tree the parent's position is smaller than the child's.
pub proof fn parent_precedes_child<P: Copy, V: Copy>(f: MeshFrontier<P, V>)
    requires
        f.wf(),
    ensures
        forall|k: int|
            0 <= k < f.spec_edges().len() ==> (#[trigger] f.spec_edges()[k]).0 < f.spec_edges()[k].1
                < f.spec_boundary().len(),
{
}

/// The tree indexes the whole boundary: it has one node per halfspace, node
/// `i` standing for position `i`; edge `k` leads into halfspace `k + 1`, so
/// each halfspace but the root has exactly one parent and the root has none.
pub proof fn tree_indexes_boundary<P: Copy, V: Copy>(f: MeshFrontier<P, V>)
    requires
        f.wf(),
    ensures
        f.spec_nodes().len() == f.spec_boundary().len(),
        forall|i: int| 0 <= i < f.spec_boundary().len() ==> #[trigger] f.spec_nodes()[i] == i,
        f.spec_edges().len() + 1 == f.spec_boundary().len(),
        forall|k: int| 0 <= k < f.spec_edges().len() ==> (#[trigger] f.spec_edges()[k]).1 == k + 1,
        forall|k1: int, k2: int|
            0 <= k1 < f.spec_edges().len() && 0 <= k2 < f.spec_edges().len() && #[trigger] f.spec_edges()[k1].1
                == #[trigger] f.spec_edges()[k2].1 ==> k1 == k2,
        forall|k: int| 0 <= k < f.spec_edges().len() ==> (#[trigger] f.spec_edges()[k]).1 != 0,
{
}

proof fn lemma_loaded_queue_ids<V>(ds: Seq<Seq<V>>, n: nat, k: int)
    requires
        n <= ds.len(),
        0 <= k < loaded_queue(ds, n).len(),
    ensures
        loaded_queue(ds, n)[k].0 < n,
    decreases n,
{
    if n > 0 {
        let prev = loaded_queue(ds, (n - 1) as nat);
        if k < prev.len() {
            lemma_loaded_queue_ids(ds, (n - 1) as nat, k);
        }
    }
}

} // verus!
