//! The graph store: the single owner of the diagram's nodes and edges.
//!
//! Topology lives in a `petgraph::stable_graph::StableGraph`, whose indices
//! are stable: an identity handed out at insertion stays valid across
//! unrelated insertions and removals, and is invalidated only by removing
//! that element itself. The store is specified against three abstract maps
//! (node contents, edge contents, and petgraph's endpoint records); each
//! petgraph call sits behind a small trusted wrapper whose contract states
//! what the call does to those maps.

use vstd::prelude::*;

use crate::geometry::Position;

use petgraph::stable_graph::StableGraph;

verus! {

/// The data stored with a node: a text label (empty at creation; editing is
/// a collaborator's concern) and the canvas position it was placed at. The
/// node's identity is the store key under which it lives, not a field.
#[derive(Clone, Debug, PartialEq, Eq)]
pub struct NodeData {
    pub label: String,
    pub position: Position,
}

/// The mathematical value of a `NodeData`.
pub ghost struct NodeView {
    pub label: Seq<char>,
    pub position: Position,
}

impl View for NodeData {
    type V = NodeView;

    open spec fn view(&self) -> NodeView {
        NodeView { label: self.label@, position: self.position }
    }
}

/// The data stored with an edge: the pair of node identities it connects,
/// in the order the gesture clicked them. The pair is read as unordered;
/// nothing distinguishes source from target.
#[derive(Clone, Copy, Debug, PartialEq, Eq, Structural)]
pub struct EdgeData {
    pub node_a: usize,
    pub node_b: usize,
}

/// Why a store operation was refused. Every error leaves the store
/// unchanged.
#[derive(Clone, Copy, Debug, PartialEq, Eq, Structural)]
pub enum GraphError {
    /// An edge operation referenced a node identity that is not live.
    UnknownNode,
    /// A removal referenced an identity that is not live.
    NotFound,
}

/// The most nodes (or edges) a `u32`-indexed petgraph graph can hold. The
/// store stays strictly below it, which keeps every insertion in bounds;
/// every identity the store hands out is strictly below it too.
pub const INDEX_LIMIT: usize = 0xffff_ffff;

/// The live nodes of the graph: each occupied index, with the value of the
/// weight stored there.
pub uninterp spec fn sg_nodes(g: DiagramGraph) -> Map<nat, NodeView>;

/// The live edges of the graph: each occupied index, with the weight stored
/// there.
pub uninterp spec fn sg_edges(g: DiagramGraph) -> Map<nat, EdgeData>;

/// petgraph's own endpoint records: for each live edge index, the pair of
/// node indices the edge was inserted between. Removal of a node cascades
/// over these records, so the contracts need them beside the weights.
pub uninterp spec fn sg_ends(g: DiagramGraph) -> Map<nat, (nat, nat)>;

/// Whether an endpoint record mentions the node index `id`.
pub open spec fn end_touches(ends: (nat, nat), id: nat) -> bool {
    ends.0 == id || ends.1 == id
}

#[verifier::external_type_specification]
#[verifier::external_body]
#[verifier::reject_recursive_types(N)]
#[verifier::reject_recursive_types(E)]
#[verifier::reject_recursive_types(Ty)]
#[verifier::reject_recursive_types(Ix)]
pub struct ExStableGraph<N, E, Ty, Ix>(StableGraph<N, E, Ty, Ix>);

#[verifier::external_type_specification]
#[verifier::external_body]
pub struct ExDirected(petgraph::Directed);

/// The concrete petgraph graph the store owns.
pub type DiagramGraph = StableGraph<NodeData, EdgeData>;

/// Relies on `StableGraph::new`: the graph starts with no nodes and no
/// edges.
#[verifier::external_body]
fn sg_new() -> (g: DiagramGraph)
    ensures
        ({
            &&& sg_nodes(g) == Map::<nat, NodeView>::empty()
            &&& sg_edges(g) == Map::<nat, EdgeData>::empty()
            &&& sg_ends(g) == Map::<nat, (nat, nat)>::empty()
        }),
{
    StableGraph::new()
}

/// Relies on `StableGraph::add_node`: stores the weight under a vacant
/// index and returns that index; edges are untouched. It panics only when
/// the graph already holds the maximum number of nodes for its `u32` index
/// type, which the precondition rules out. The returned index is a real
/// `u32` index, never the reserved sentinel, so it is below `INDEX_LIMIT`.
#[verifier::external_body]
fn sg_add_node(g: &mut DiagramGraph, weight: NodeData) -> (id: usize)
    requires
        sg_nodes(*old(g)).dom().finite(),
        sg_nodes(*old(g)).len() < INDEX_LIMIT,
    ensures
        id < INDEX_LIMIT,
        !sg_nodes(*old(g)).dom().contains(id as nat),
        sg_nodes(*final(g)) == sg_nodes(*old(g)).insert(id as nat, weight@),
        sg_edges(*final(g)) == sg_edges(*old(g)),
        sg_ends(*final(g)) == sg_ends(*old(g)),
{
    g.add_node(weight).index()
}

/// Relies on `StableGraph::add_edge`: stores the weight under a vacant edge
/// index, records `(a, b)` as its endpoints, and returns that index; nodes
/// are untouched. It panics when an endpoint is not a live node or when the
/// graph already holds the maximum number of edges for its `u32` index
/// type; the preconditions rule both out. The returned index is a real
/// `u32` index, never the reserved sentinel, so it is below `INDEX_LIMIT`.
#[verifier::external_body]
fn sg_add_edge(g: &mut DiagramGraph, a: usize, b: usize, weight: EdgeData) -> (id: usize)
    requires
        sg_nodes(*old(g)).dom().contains(a as nat),
        sg_nodes(*old(g)).dom().contains(b as nat),
        sg_edges(*old(g)).dom().finite(),
        sg_edges(*old(g)).len() < INDEX_LIMIT,
    ensures
        id < INDEX_LIMIT,
        !sg_edges(*old(g)).dom().contains(id as nat),
        sg_edges(*final(g)) == sg_edges(*old(g)).insert(id as nat, weight),
        sg_ends(*final(g)) == sg_ends(*old(g)).insert(id as nat, (a as nat, b as nat)),
        sg_nodes(*final(g)) == sg_nodes(*old(g)),
{
    g.add_edge(
        petgraph::stable_graph::NodeIndex::new(a),
        petgraph::stable_graph::NodeIndex::new(b),
        weight,
    ).index()
}

/// Relies on `StableGraph::node_weight`: returns the weight stored under a
/// live node index, and `None` for a vacant or out-of-range one. The index
/// constructor truncates to `u32`, so ids above the sentinel would alias a
/// smaller slot; the precondition keeps the conversion exact.
#[verifier::external_body]
fn sg_node_weight(g: &DiagramGraph, id: usize) -> (r: Option<NodeData>)
    requires
        id <= INDEX_LIMIT,
    ensures
        match r {
            Some(w) => sg_nodes(*g).dom().contains(id as nat) && w@ == sg_nodes(*g)[id as nat],
            None => !sg_nodes(*g).dom().contains(id as nat),
        },
{
    g.node_weight(petgraph::stable_graph::NodeIndex::new(id)).cloned()
}

/// Relies on `StableGraph::edge_weight`: returns the weight stored under a
/// live edge index, and `None` for a vacant or out-of-range one. The index
/// constructor truncates to `u32`, so ids above the sentinel would alias a
/// smaller slot; the precondition keeps the conversion exact.
#[verifier::external_body]
fn sg_edge_weight(g: &DiagramGraph, id: usize) -> (r: Option<EdgeData>)
    requires
        id <= INDEX_LIMIT,
    ensures
        match r {
            Some(w) => sg_edges(*g).dom().contains(id as nat) && w == sg_edges(*g)[id as nat],
            None => !sg_edges(*g).dom().contains(id as nat),
        },
{
    g.edge_weight(petgraph::stable_graph::EdgeIndex::new(id)).copied()
}

/// Relies on `StableGraph::remove_node`: removes a live node and every edge
/// whose endpoint records mention it, returning the node's weight; on a
/// vacant index it returns `None` and changes nothing. The index
/// constructor truncates to `u32`, so ids above the sentinel would alias a
/// smaller slot; the precondition keeps the conversion exact.
#[verifier::external_body]
fn sg_remove_node(g: &mut DiagramGraph, id: usize) -> (r: Option<NodeData>)
    requires
        id <= INDEX_LIMIT,
    ensures
        match r {
            Some(w) => {
                &&& sg_nodes(*old(g)).dom().contains(id as nat)
                &&& w@ == sg_nodes(*old(g))[id as nat]
                &&& sg_nodes(*final(g)) == sg_nodes(*old(g)).remove(id as nat)
                &&& sg_edges(*final(g)) == Map::<nat, EdgeData>::new(
                    |k: nat|
                        sg_edges(*old(g)).dom().contains(k) && !end_touches(
                            sg_ends(*old(g))[k],
                            id as nat,
                        ),
                    |k: nat| sg_edges(*old(g))[k],
                )
                &&& sg_ends(*final(g)) == Map::<nat, (nat, nat)>::new(
                    |k: nat|
                        sg_ends(*old(g)).dom().contains(k) && !end_touches(
                            sg_ends(*old(g))[k],
                            id as nat,
                        ),
                    |k: nat| sg_ends(*old(g))[k],
                )
            },
            None => {
                &&& !sg_nodes(*old(g)).dom().contains(id as nat)
                &&& *final(g) == *old(g)
            },
        },
{
    g.remove_node(petgraph::stable_graph::NodeIndex::new(id))
}

/// Relies on `StableGraph::remove_edge`: removes a live edge and returns
/// its weight; on a vacant index it returns `None` and changes nothing.
/// Nodes are untouched either way. The index constructor truncates to
/// `u32`, so ids above the sentinel would alias a smaller slot; the
/// precondition keeps the conversion exact.
#[verifier::external_body]
fn sg_remove_edge(g: &mut DiagramGraph, id: usize) -> (r: Option<EdgeData>)
    requires
        id <= INDEX_LIMIT,
    ensures
        match r {
            Some(w) => {
                &&& sg_edges(*old(g)).dom().contains(id as nat)
                &&& w == sg_edges(*old(g))[id as nat]
                &&& sg_edges(*final(g)) == sg_edges(*old(g)).remove(id as nat)
                &&& sg_ends(*final(g)) == sg_ends(*old(g)).remove(id as nat)
                &&& sg_nodes(*final(g)) == sg_nodes(*old(g))
            },
            None => {
                &&& !sg_edges(*old(g)).dom().contains(id as nat)
                &&& *final(g) == *old(g)
            },
        },
{
    g.remove_edge(petgraph::stable_graph::EdgeIndex::new(id))
}

/// Relies on `StableGraph::node_count`: an O(1) counter of the live nodes.
#[verifier::external_body]
fn sg_node_count(g: &DiagramGraph) -> (n: usize)
    requires
        sg_nodes(*g).dom().finite(),
    ensures
        n == sg_nodes(*g).len(),
{
    g.node_count()
}

/// Relies on `StableGraph::edge_count`: an O(1) counter of the live edges.
#[verifier::external_body]
fn sg_edge_count(g: &DiagramGraph) -> (n: usize)
    requires
        sg_edges(*g).dom().finite(),
    ensures
        n == sg_edges(*g).len(),
{
    g.edge_count()
}

/// Relies on `StableGraph::node_indices`: yields each live node index
/// exactly once. Every live index fits in `usize`, since the graph's
/// `u32`-backed indices do.
#[verifier::external_body]
fn sg_node_ids(g: &DiagramGraph) -> (ids: Vec<usize>)
    ensures
        ids@.no_duplicates(),
        forall|i: usize| #[trigger] ids@.contains(i) <==> sg_nodes(*g).dom().contains(i as nat),
{
    g.node_indices().map(|ix| ix.index()).collect()
}

/// Relies on `StableGraph::edge_indices`: yields each live edge index
/// exactly once. Every live index fits in `usize`, since the graph's
/// `u32`-backed indices do.
#[verifier::external_body]
fn sg_edge_ids(g: &DiagramGraph) -> (ids: Vec<usize>)
    ensures
        ids@.no_duplicates(),
        forall|i: usize| #[trigger] ids@.contains(i) <==> sg_edges(*g).dom().contains(i as nat),
{
    g.edge_indices().map(|ix| ix.index()).collect()
}

/// The node/edge graph. Identities handed out by `add_node` and `add_edge`
/// are stable until the element itself is removed.
pub struct GraphStore {
    g: DiagramGraph,
}

impl GraphStore {
    /// The live nodes, as a map from identity to node value.
    pub closed spec fn nodes(self) -> Map<nat, NodeView> {
        sg_nodes(self.g)
    }

    /// The live edges, as a map from identity to the connected pair.
    pub closed spec fn edges(self) -> Map<nat, EdgeData> {
        sg_edges(self.g)
    }

    /// The store's invariant: the contents are finite, every identity is a
    /// real `u32` index (so by-id operations convert without aliasing), the
    /// endpoint records agree with the edge weights, and every edge
    /// connects live nodes.
    pub closed spec fn wf(self) -> bool {
        &&& self.nodes().dom().finite()
        &&& self.edges().dom().finite()
        &&& forall|k: nat| #[trigger] self.nodes().dom().contains(k) ==> k < INDEX_LIMIT
        &&& forall|k: nat| #[trigger] self.edges().dom().contains(k) ==> k < INDEX_LIMIT
        &&& sg_ends(self.g).dom() == self.edges().dom()
        &&& forall|e: nat|
            #[trigger] self.edges().dom().contains(e) ==> sg_ends(self.g)[e] == (
            self.edges()[e].node_a as nat,
            self.edges()[e].node_b as nat,
        )
        &&& forall|e: nat|
            #[trigger] self.edges().dom().contains(e) ==> self.nodes().dom().contains(
                self.edges()[e].node_a as nat,
            ) && self.nodes().dom().contains(self.edges()[e].node_b as nat)
    }

    /// Every edge of a well-formed store connects two live nodes: an edge
    /// never references a removed node.
    pub proof fn lemma_edges_reference_live_nodes(self)
        requires
            self.wf(),
        ensures
            forall|e: nat|
                #[trigger] self.edges().dom().contains(e) ==> self.nodes().dom().contains(
                    self.edges()[e].node_a as nat,
                ) && self.nodes().dom().contains(self.edges()[e].node_b as nat),
    {
    }

    /// An empty store.
    pub fn new() -> (s: GraphStore)
        ensures
            s.wf(),
            s.nodes() == Map::<nat, NodeView>::empty(),
            s.edges() == Map::<nat, EdgeData>::empty(),
    {
        GraphStore { g: sg_new() }
    }

    /// Insert a new node at `position`, with an empty label, and return its
    /// freshly allocated identity. Never fails; the precondition only keeps
    /// the store inside its index type's range.
    pub fn add_node(&mut self, position: Position) -> (id: usize)
        requires
            old(self).wf(),
            old(self).nodes().len() < INDEX_LIMIT,
        ensures
            final(self).wf(),
            id < INDEX_LIMIT,
            !old(self).nodes().dom().contains(id as nat),
            final(self).nodes() == old(self).nodes().insert(
                id as nat,
                NodeView { label: Seq::empty(), position },
            ),
            final(self).edges() == old(self).edges(),
    {
        sg_add_node(&mut self.g, NodeData { label: String::new(), position })
    }

    /// Connect nodes `a` and `b`. Fails with `UnknownNode`, leaving the
    /// store unchanged, exactly when either identity is not a live node;
    /// otherwise inserts the edge and returns its fresh identity. `a == b`
    /// and duplicate pairs are allowed: the store does not deduplicate
    /// parallel edges.
    pub fn add_edge(&mut self, a: usize, b: usize) -> (r: Result<usize, GraphError>)
        requires
            old(self).wf(),
            old(self).edges().len() < INDEX_LIMIT,
        ensures
            final(self).wf(),
            ({
                if old(self).nodes().dom().contains(a as nat) && old(self).nodes().dom().contains(
                    b as nat,
                ) {
                    &&& r matches Ok(id)
                    &&& id < INDEX_LIMIT
                    &&& !old(self).edges().dom().contains(id as nat)
                    &&& final(self).edges() == old(self).edges().insert(
                        id as nat,
                        EdgeData { node_a: a, node_b: b },
                    )
                    &&& final(self).nodes() == old(self).nodes()
                } else {
                    &&& r == Err::<usize, GraphError>(GraphError::UnknownNode)
                    &&& *final(self) == *old(self)
                }
            }),
    {
        if self.contains_node(a) && self.contains_node(b) {
            let id = sg_add_edge(&mut self.g, a, b, EdgeData { node_a: a, node_b: b });
            Ok(id)
        } else {
            Err(GraphError::UnknownNode)
        }
    }

    /// Remove a node and, with it, every edge incident to it (the cascade
    /// policy: a removal never leaves a dangling edge behind). Fails with
    /// `NotFound`, leaving the store unchanged, exactly when the identity
    /// is not a live node. Returns the removed node's data.
    pub fn remove_node(&mut self, id: usize) -> (r: Result<NodeData, GraphError>)
        requires
            old(self).wf(),
        ensures
            final(self).wf(),
            ({
                if old(self).nodes().dom().contains(id as nat) {
                    &&& r matches Ok(w)
                    &&& w@ == old(self).nodes()[id as nat]
                    &&& final(self).nodes() == old(self).nodes().remove(id as nat)
                    &&& final(self).edges() == Map::<nat, EdgeData>::new(
                        |k: nat|
                            old(self).edges().dom().contains(k) && old(self).edges()[k].node_a != id
                                && old(self).edges()[k].node_b != id,
                        |k: nat| old(self).edges()[k],
                    )
                } else {
                    &&& r == Err::<NodeData, GraphError>(GraphError::NotFound)
                    &&& *final(self) == *old(self)
                }
            }),
    {
        if id > INDEX_LIMIT {
            return Err(GraphError::NotFound);
        }
        let ghost pre = *self;
        match sg_remove_node(&mut self.g, id) {
            Some(w) => {
                proof {
                    Self::lemma_cascade(pre, *self, id);
                }
                Ok(w)
            },
            None => Err(GraphError::NotFound),
        }
    }

    /// After a cascading node removal, the surviving edges are exactly
    /// those whose weights do not mention the removed node, and the store
    /// is well-formed again.
    proof fn lemma_cascade(pre: GraphStore, post: GraphStore, id: usize)
        requires
            pre.wf(),
            post.nodes() == pre.nodes().remove(id as nat),
            post.edges() == Map::<nat, EdgeData>::new(
                |k: nat|
                    pre.edges().dom().contains(k) && !end_touches(sg_ends(pre.g)[k], id as nat),
                |k: nat| pre.edges()[k],
            ),
            sg_ends(post.g) == Map::<nat, (nat, nat)>::new(
                |k: nat|
                    sg_ends(pre.g).dom().contains(k) && !end_touches(sg_ends(pre.g)[k], id as nat),
                |k: nat| sg_ends(pre.g)[k],
            ),
        ensures
            post.wf(),
            post.edges() == Map::<nat, EdgeData>::new(
                |k: nat|
                    pre.edges().dom().contains(k) && pre.edges()[k].node_a != id && pre.edges()[k].node_b
                        != id,
                |k: nat| pre.edges()[k],
            ),
    {
        assert(post.edges() =~= Map::<nat, EdgeData>::new(
            |k: nat|
                pre.edges().dom().contains(k) && pre.edges()[k].node_a != id && pre.edges()[k].node_b
                    != id,
            |k: nat| pre.edges()[k],
        ));
        assert(sg_ends(post.g).dom() =~= post.edges().dom());
        assert(post.edges().dom().subset_of(pre.edges().dom()));
        vstd::set_lib::lemma_len_subset(post.edges().dom(), pre.edges().dom());
    }

    /// Remove an edge. Fails with `NotFound`, leaving the store unchanged,
    /// exactly when the identity is not a live edge. Returns the removed
    /// edge's pair; nodes are untouched.
    pub fn remove_edge(&mut self, id: usize) -> (r: Result<EdgeData, GraphError>)
        requires
            old(self).wf(),
        ensures
            final(self).wf(),
            ({
                if old(self).edges().dom().contains(id as nat) {
                    &&& r == Ok::<EdgeData, GraphError>(old(self).edges()[id as nat])
                    &&& final(self).edges() == old(self).edges().remove(id as nat)
                    &&& final(self).nodes() == old(self).nodes()
                } else {
                    &&& r == Err::<EdgeData, GraphError>(GraphError::NotFound)
                    &&& *final(self) == *old(self)
                }
            }),
    {
        if id > INDEX_LIMIT {
            return Err(GraphError::NotFound);
        }
        let ghost pre = *self;
        match sg_remove_edge(&mut self.g, id) {
            Some(w) => {
                proof {
                    assert(sg_ends(self.g).dom() =~= self.edges().dom());
                    assert(self.edges().dom().subset_of(pre.edges().dom()));
                    vstd::set_lib::lemma_len_subset(self.edges().dom(), pre.edges().dom());
                }
                Ok(w)
            },
            None => Err(GraphError::NotFound),
        }
    }

    /// Look a node up by identity; read-only, never fails.
    pub fn lookup_node(&self, id: usize) -> (r: Option<NodeData>)
        requires
            self.wf(),
        ensures
            match r {
                Some(w) => self.nodes().dom().contains(id as nat) && w@ == self.nodes()[id as nat],
                None => !self.nodes().dom().contains(id as nat),
            },
    {
        if id > INDEX_LIMIT {
            return None;
        }
        sg_node_weight(&self.g, id)
    }

    /// Look an edge up by identity; read-only, never fails.
    pub fn lookup_edge(&self, id: usize) -> (r: Option<EdgeData>)
        requires
            self.wf(),
        ensures
            match r {
                Some(w) => self.edges().dom().contains(id as nat) && w == self.edges()[id as nat],
                None => !self.edges().dom().contains(id as nat),
            },
    {
        if id > INDEX_LIMIT {
            return None;
        }
        sg_edge_weight(&self.g, id)
    }

    /// Whether `id` is a live node identity.
    pub fn contains_node(&self, id: usize) -> (r: bool)
        requires
            self.wf(),
        ensures
            r == self.nodes().dom().contains(id as nat),
    {
        if id > INDEX_LIMIT {
            return false;
        }
        sg_node_weight(&self.g, id).is_some()
    }

    /// The number of live nodes.
    pub fn node_count(&self) -> (n: usize)
        requires
            self.wf(),
        ensures
            n == self.nodes().len(),
    {
        sg_node_count(&self.g)
    }

    /// The number of live edges.
    pub fn edge_count(&self) -> (n: usize)
        requires
            self.wf(),
        ensures
            n == self.edges().len(),
    {
        sg_edge_count(&self.g)
    }

    /// The live node identities, each exactly once, for read-only
    /// inspection.
    pub fn node_ids(&self) -> (ids: Vec<usize>)
        ensures
            ids@.no_duplicates(),
            forall|i: usize| #[trigger] ids@.contains(i) <==> self.nodes().dom().contains(i as nat),
    {
        sg_node_ids(&self.g)
    }

    /// The live edge identities, each exactly once, for read-only
    /// inspection.
    pub fn edge_ids(&self) -> (ids: Vec<usize>)
        ensures
            ids@.no_duplicates(),
            forall|i: usize| #[trigger] ids@.contains(i) <==> self.edges().dom().contains(i as nat),
    {
        sg_edge_ids(&self.g)
    }
}

} // verus!
