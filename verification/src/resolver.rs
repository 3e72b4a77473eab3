//! The gesture resolver: the state machine that turns the tail of the
//! interaction log into graph mutations.
//!
//! The resolver runs once per change of the interaction log. It reads only
//! the last and second-to-last entries — no gesture spans more than two raw
//! clicks — and decides, over the closed (element kind, active tool)
//! matrix, whether the newest click completes a gesture. A committed
//! mutation is immediately followed by a consumed marker, so the same raw
//! clicks are never reinterpreted.

use vstd::prelude::*;

use crate::events::{GraphEvent, GraphEventLog, GraphEventView};
use crate::geometry::Position;
use crate::interaction::{ClickEvent, EntityKind, InteractionLog, LogEntry};
use crate::store::{EdgeData, GraphError, GraphStore, NodeData, NodeView, INDEX_LIMIT};
use crate::tool::Tool;

verus! {

/// What the tail of the interaction log calls for. This is the 9-case
/// (element kind or empty, active tool) matrix in one place:
///
/// | clicked on | Selector        | Node            | Edge              |
/// |------------|-----------------|-----------------|-------------------|
/// | empty      | nothing         | place a node    | nothing           |
/// | a node     | inspect node    | inspect node    | edge step (below) |
/// | an edge    | inspect edge    | nothing         | inspect edge      |
///
/// The edge step completes only when the second-to-last entry is a click
/// on a *different* node under the edge tool; a click on the same node
/// leaves the first click pending, and any other entry (or none) makes the
/// newest click the new pending first half.
pub ghost enum Decision {
    /// Nothing to do: the log is empty, the newest entry is a consumed
    /// marker, or the newest click means nothing under its tool.
    Idle,
    /// Place a new node at the clicked position.
    PlaceNode(Position),
    /// Connect the two nodes clicked in sequence under the edge tool.
    ConnectNodes(usize, usize),
    /// Present the clicked node; no graph mutation.
    InspectNode(usize),
    /// Present the clicked edge; no graph mutation.
    InspectEdge(usize),
}

/// The edge-tool step of the matrix: the newest entry is a click on node
/// `target` under the edge tool, and the second-to-last entry decides
/// whether that completes the two-click gesture.
pub open spec fn decide_edge_step(log: Seq<LogEntry>, target: usize) -> Decision {
    if log.len() < 2 {
        Decision::Idle
    } else {
        match log[log.len() - 2] {
            LogEntry::Click(
                ClickEvent::Clicked { target: prev, kind: EntityKind::Node, tool: Tool::Edge },
            ) => if prev != target {
                Decision::ConnectNodes(prev, target)
            } else {
                Decision::Idle
            },
            _ => Decision::Idle,
        }
    }
}

/// What the resolver does with the given interaction log: the decision
/// table over the newest (and, for the edge gesture, second-to-last)
/// entry.
pub open spec fn decide(log: Seq<LogEntry>) -> Decision {
    if log.len() == 0 {
        Decision::Idle
    } else {
        match log.last() {
            LogEntry::Consumed => Decision::Idle,
            LogEntry::Click(ev) => match ev {
                ClickEvent::ClickedEmpty { tool, position } => match tool {
                    Tool::Selector => Decision::Idle,
                    Tool::Node => Decision::PlaceNode(position),
                    Tool::Edge => Decision::Idle,
                },
                ClickEvent::Clicked { target, kind, tool } => match (kind, tool) {
                    (EntityKind::Node, Tool::Selector) => Decision::InspectNode(target),
                    (EntityKind::Node, Tool::Node) => Decision::InspectNode(target),
                    (EntityKind::Node, Tool::Edge) => decide_edge_step(log, target),
                    (EntityKind::Edge, Tool::Selector) => Decision::InspectEdge(target),
                    (EntityKind::Edge, Tool::Node) => Decision::Idle,
                    (EntityKind::Edge, Tool::Edge) => Decision::InspectEdge(target),
                },
            },
        }
    }
}

/// What one resolver run reported back to its caller.
#[derive(Clone, Copy, Debug, PartialEq, Eq, Structural)]
pub enum Outcome {
    /// Nothing needed doing.
    Idle,
    /// A node with this identity was added at the clicked position.
    PlacedNode(usize),
    /// An edge with this identity now connects the two clicked nodes.
    ConnectedNodes(usize),
    /// The clicked node should be presented; nothing was mutated.
    InspectedNode(usize),
    /// The clicked edge should be presented; nothing was mutated.
    InspectedEdge(usize),
    /// The gesture referenced a node that is not live; nothing was
    /// mutated and no consumed marker was appended.
    Failed(GraphError),
}

/// The resolver's view of the whole editing state: the store's contents
/// and the two logs, as mathematical values.
#[verifier::ext_equal]
pub ghost struct EditorModel {
    pub nodes: Map<nat, NodeView>,
    pub edges: Map<nat, EdgeData>,
    pub log: Seq<LogEntry>,
    pub events: Seq<GraphEventView>,
}

/// The model `m` after one raw entry is appended to its interaction log,
/// as `InteractionLog::record` does.
pub open spec fn recorded(m: EditorModel, entry: LogEntry) -> EditorModel {
    EditorModel { log: m.log.push(entry), ..m }
}

/// The model of a concrete store and pair of logs.
pub open spec fn model_of(graph: GraphStore, log: InteractionLog, events: GraphEventLog) -> EditorModel {
    EditorModel { nodes: graph.nodes(), edges: graph.edges(), log: log@, events: events@ }
}

/// The node value every fresh node starts with: an empty label at the
/// clicked position.
pub open spec fn new_node_view(position: Position) -> NodeView {
    NodeView { label: Seq::empty(), position }
}

/// The resolver's transition relation: how one run takes the editing state
/// `pre` to `post` and reports `outcome`. Everything is pinned down except
/// which fresh identity the store hands out.
pub open spec fn resolves(pre: EditorModel, post: EditorModel, outcome: Outcome) -> bool {
    match decide(pre.log) {
        Decision::Idle => post == pre && outcome == Outcome::Idle,
        Decision::InspectNode(t) => post == pre && outcome == Outcome::InspectedNode(t),
        Decision::InspectEdge(t) => post == pre && outcome == Outcome::InspectedEdge(t),
        Decision::PlaceNode(position) => {
            &&& outcome matches Outcome::PlacedNode(id)
            &&& !pre.nodes.dom().contains(id as nat)
            &&& post.nodes == pre.nodes.insert(id as nat, new_node_view(position))
            &&& post.edges == pre.edges
            &&& post.log == pre.log.push(LogEntry::Consumed)
            &&& post.events == pre.events.push(
                GraphEventView::AddedNode { identity: id as nat, node: new_node_view(position) },
            )
        },
        Decision::ConnectNodes(a, b) => {
            if pre.nodes.dom().contains(a as nat) && pre.nodes.dom().contains(b as nat) {
                &&& outcome matches Outcome::ConnectedNodes(id)
                &&& !pre.edges.dom().contains(id as nat)
                &&& post.edges == pre.edges.insert(id as nat, EdgeData { node_a: a, node_b: b })
                &&& post.nodes == pre.nodes
                &&& post.log == pre.log.push(LogEntry::Consumed)
                &&& post.events == pre.events.push(
                    GraphEventView::AddedEdge {
                        identity: id as nat,
                        edge: EdgeData { node_a: a, node_b: b },
                    },
                )
            } else {
                post == pre && outcome == Outcome::Failed(GraphError::UnknownNode)
            }
        },
    }
}

/// Run the resolver once over the newest log entries.
///
/// A committed mutation mutates the store, appends its record to the graph
/// event log and retires the raw clicks with a consumed marker, all within
/// this one call; a refused gesture (an edge endpoint that is no longer
/// live) leaves every log and the store exactly as they were. The
/// preconditions only keep the store inside its index type's range.
pub fn resolve(
    graph: &mut GraphStore,
    log: &mut InteractionLog,
    events: &mut GraphEventLog,
) -> (outcome: Outcome)
    requires
        old(graph).wf(),
        old(graph).nodes().len() < INDEX_LIMIT,
        old(graph).edges().len() < INDEX_LIMIT,
        old(events).wf(),
    ensures
        final(graph).wf(),
        final(events).wf(),
        final(events).watermark() == old(events).watermark(),
        resolves(
            model_of(*old(graph), *old(log), *old(events)),
            model_of(*final(graph), *final(log), *final(events)),
            outcome,
        ),
{
    let n = log.len();
    if n == 0 {
        return Outcome::Idle;
    }
    let last = log.entry(n - 1);
    match last {
        LogEntry::Consumed => Outcome::Idle,
        LogEntry::Click(ev) => match ev {
            ClickEvent::ClickedEmpty { tool, position } => match tool {
                Tool::Selector => Outcome::Idle,
                Tool::Edge => Outcome::Idle,
                Tool::Node => {
                    let id = graph.add_node(position);
                    events.push(
                        GraphEvent::AddedNode {
                            identity: id,
                            node: NodeData { label: String::new(), position },
                        },
                    );
                    log.mark_consumed();
                    Outcome::PlacedNode(id)
                },
            },
            ClickEvent::Clicked { target, kind, tool } => match (kind, tool) {
                (EntityKind::Node, Tool::Selector) => Outcome::InspectedNode(target),
                (EntityKind::Node, Tool::Node) => Outcome::InspectedNode(target),
                (EntityKind::Node, Tool::Edge) => {
                    if n >= 2 {
                        match log.entry(n - 2) {
                            LogEntry::Click(
                                ClickEvent::Clicked {
                                    target: prev,
                                    kind: EntityKind::Node,
                                    tool: Tool::Edge,
                                },
                            ) => {
                                if prev != target {
                                    match graph.add_edge(prev, target) {
                                        Ok(id) => {
                                            events.push(
                                                GraphEvent::AddedEdge {
                                                    identity: id,
                                                    edge: EdgeData {
                                                        node_a: prev,
                                                        node_b: target,
                                                    },
                                                },
                                            );
                                            log.mark_consumed();
                                            Outcome::ConnectedNodes(id)
                                        },
                                        Err(e) => Outcome::Failed(e),
                                    }
                                } else {
                                    Outcome::Idle
                                }
                            },
                            _ => Outcome::Idle,
                        }
                    } else {
                        Outcome::Idle
                    }
                },
                (EntityKind::Edge, Tool::Selector) => Outcome::InspectedEdge(target),
                (EntityKind::Edge, Tool::Node) => Outcome::Idle,
                (EntityKind::Edge, Tool::Edge) => Outcome::InspectedEdge(target),
            },
        },
    }
}

} // verus!
