//! The laws of the gesture resolver, stated over its transition relation.
//!
//! Each proof function here holds for every editing state the relation
//! admits, not just for the states a particular run reaches: `resolves` is
//! what `resolver::resolve` (and `Editor::click`, after recording the raw
//! entry) ensures of its pre- and post-state, so these laws apply to every
//! actual run.

use vstd::prelude::*;

use crate::events::GraphEventView;
use crate::geometry::Position;
use crate::interaction::{ClickEvent, EntityKind, LogEntry};
use crate::resolver::{decide, new_node_view, recorded, resolves, Decision, EditorModel, Outcome};
use crate::store::EdgeData;
use crate::tool::Tool;

verus! {

/// A raw click on empty space under `tool`.
pub open spec fn empty_click(tool: Tool, position: Position) -> LogEntry {
    LogEntry::Click(ClickEvent::ClickedEmpty { tool, position })
}

/// A raw click on node `target` under the edge tool.
pub open spec fn node_edge_click(target: usize) -> LogEntry {
    LogEntry::Click(ClickEvent::Clicked { target, kind: EntityKind::Node, tool: Tool::Edge })
}

/// A raw click on node `target` under the selector tool.
pub open spec fn node_selector_click(target: usize) -> LogEntry {
    LogEntry::Click(ClickEvent::Clicked { target, kind: EntityKind::Node, tool: Tool::Selector })
}

/// Clicking empty space under the selector or edge tool is a no-op: the
/// graph, the logs and the event record stay exactly as they were. This
/// holds in every state, so any run of such clicks leaves the editor
/// unchanged however often it repeats.
pub proof fn lemma_empty_space_noop(
    pre: EditorModel,
    post: EditorModel,
    tool: Tool,
    position: Position,
    outcome: Outcome,
)
    requires
        tool == Tool::Selector || tool == Tool::Edge,
        pre.log.len() > 0,
        pre.log.last() == empty_click(tool, position),
        resolves(pre, post, outcome),
    ensures
        post == pre,
        outcome == Outcome::Idle,
{
}

/// Clicking empty space under the node tool always places exactly one
/// node, at exactly the clicked position, and appends exactly one
/// added-node event; the raw click is retired with a consumed marker.
pub proof fn lemma_node_tool_places_node(
    pre: EditorModel,
    post: EditorModel,
    position: Position,
    outcome: Outcome,
)
    requires
        pre.nodes.dom().finite(),
        pre.log.len() > 0,
        pre.log.last() == empty_click(Tool::Node, position),
        resolves(pre, post, outcome),
    ensures
        ({
            &&& outcome matches Outcome::PlacedNode(id)
            &&& !pre.nodes.dom().contains(id as nat)
            &&& post.nodes == pre.nodes.insert(id as nat, new_node_view(position))
            &&& post.events == pre.events.push(
                GraphEventView::AddedNode { identity: id as nat, node: new_node_view(position) },
            )
        }),
        post.nodes.len() == pre.nodes.len() + 1,
        post.edges == pre.edges,
        post.events.len() == pre.events.len() + 1,
        post.log == pre.log.push(LogEntry::Consumed),
{
    let id = outcome->PlacedNode_0;
    vstd::set::axiom_set_insert_len(pre.nodes.dom(), id as nat);
}

/// Two clicks on different live nodes under the edge tool complete the
/// two-step gesture: exactly one edge connecting them is created, exactly
/// one added-edge event is appended, and the pair of raw clicks is retired
/// with a single consumed marker.
pub proof fn lemma_edge_gesture_completes(
    pre: EditorModel,
    post: EditorModel,
    a: usize,
    b: usize,
    outcome: Outcome,
)
    requires
        pre.edges.dom().finite(),
        pre.log.len() >= 2,
        pre.log[pre.log.len() - 2] == node_edge_click(a),
        pre.log.last() == node_edge_click(b),
        a != b,
        pre.nodes.dom().contains(a as nat),
        pre.nodes.dom().contains(b as nat),
        resolves(pre, post, outcome),
    ensures
        ({
            &&& outcome matches Outcome::ConnectedNodes(id)
            &&& !pre.edges.dom().contains(id as nat)
            &&& post.edges == pre.edges.insert(id as nat, EdgeData { node_a: a, node_b: b })
            &&& post.events == pre.events.push(
                GraphEventView::AddedEdge {
                    identity: id as nat,
                    edge: EdgeData { node_a: a, node_b: b },
                },
            )
        }),
        post.nodes == pre.nodes,
        post.edges.len() == pre.edges.len() + 1,
        post.events.len() == pre.events.len() + 1,
        post.log == pre.log.push(LogEntry::Consumed),
{
    let id = outcome->ConnectedNodes_0;
    vstd::set::axiom_set_insert_len(pre.edges.dom(), id as nat);
}

/// A consumed marker retires its clicks for good: a click on a node under
/// the edge tool that lands right after a consumed marker finds no pending
/// first half, so it completes nothing.
pub proof fn lemma_consumed_blocks_reuse(
    pre: EditorModel,
    post: EditorModel,
    c: usize,
    outcome: Outcome,
)
    requires
        pre.log.len() >= 2,
        pre.log[pre.log.len() - 2] == LogEntry::Consumed,
        pre.log.last() == node_edge_click(c),
        resolves(pre, post, outcome),
    ensures
        post == pre,
        outcome == Outcome::Idle,
{
}

/// Clicking the same node twice under the edge tool completes nothing —
/// and appends no consumed marker, so the click stays available as the
/// first half of a later gesture.
pub proof fn lemma_same_node_completes_nothing(
    pre: EditorModel,
    post: EditorModel,
    a: usize,
    outcome: Outcome,
)
    requires
        pre.log.len() >= 2,
        pre.log[pre.log.len() - 2] == node_edge_click(a),
        pre.log.last() == node_edge_click(a),
        resolves(pre, post, outcome),
    ensures
        post == pre,
        outcome == Outcome::Idle,
{
}

/// The pending click survives a same-node repeat: after [node A, node A]
/// under the edge tool, a further click on a different live node B still
/// connects A and B.
pub proof fn lemma_pending_click_completes_later(
    pre: EditorModel,
    mid: EditorModel,
    post: EditorModel,
    a: usize,
    b: usize,
    first: Outcome,
    second: Outcome,
)
    requires
        pre.log.len() >= 2,
        pre.log[pre.log.len() - 2] == node_edge_click(a),
        pre.log.last() == node_edge_click(a),
        resolves(pre, mid, first),
        a != b,
        pre.nodes.dom().contains(a as nat),
        pre.nodes.dom().contains(b as nat),
        resolves(recorded(mid, node_edge_click(b)), post, second),
    ensures
        mid == pre,
        first == Outcome::Idle,
        ({
            &&& second matches Outcome::ConnectedNodes(id)
            &&& !pre.edges.dom().contains(id as nat)
            &&& post.edges == pre.edges.insert(id as nat, EdgeData { node_a: a, node_b: b })
        }),
        post.nodes == pre.nodes,
{
    lemma_same_node_completes_nothing(pre, mid, a, first);
    let grown = recorded(mid, node_edge_click(b));
    assert(grown.log.last() == node_edge_click(b));
    assert(grown.log[grown.log.len() - 2] == node_edge_click(a));
    assert(decide(grown.log) == Decision::ConnectNodes(a, b));
}

/// An intervening click under another tool breaks the gesture: starting
/// from a quiet log, [node A under edge, node A under selector, node B
/// under edge] creates no edge at all — the pending first click is simply
/// dropped, not retried.
pub proof fn lemma_interrupted_gesture_drops_pending(
    s0: EditorModel,
    s1: EditorModel,
    s2: EditorModel,
    s3: EditorModel,
    a: usize,
    b: usize,
    first: Outcome,
    second: Outcome,
    third: Outcome,
)
    requires
        s0.log.len() == 0 || s0.log.last() == LogEntry::Consumed,
        resolves(recorded(s0, node_edge_click(a)), s1, first),
        resolves(recorded(s1, node_selector_click(a)), s2, second),
        resolves(recorded(s2, node_edge_click(b)), s3, third),
    ensures
        s3.nodes == s0.nodes,
        s3.edges == s0.edges,
        s3.events == s0.events,
        first == Outcome::Idle,
        second == Outcome::InspectedNode(a),
        third == Outcome::Idle,
{
    let log1 = recorded(s0, node_edge_click(a)).log;
    assert(log1.last() == node_edge_click(a));
    assert(decide(log1) == Decision::Idle);
    let log3 = recorded(s2, node_edge_click(b)).log;
    assert(log3[log3.len() - 2] == s2.log.last());
    assert(decide(log3) == Decision::Idle);
}

/// The only entry the resolver ever appends is a consumed marker, it
/// appends one exactly when it commits a mutation, and the marker lands
/// immediately after the raw click(s) it retires — so the log always
/// alternates between runs of raw clicks and single consumed markers.
pub proof fn lemma_consumed_marker_follows_its_clicks(
    pre: EditorModel,
    post: EditorModel,
    outcome: Outcome,
)
    requires
        resolves(pre, post, outcome),
    ensures
        post.log != pre.log <==> (outcome matches Outcome::PlacedNode(_) || outcome
            matches Outcome::ConnectedNodes(_)),
        post.log != pre.log ==> post.log == pre.log.push(LogEntry::Consumed),
        post.log != pre.log ==> pre.log.len() > 0 && pre.log.last() matches LogEntry::Click(_),
        post.events != pre.events <==> post.log != pre.log,
{
    if post.log == pre.log.push(LogEntry::Consumed) {
        assert(post.log.len() == pre.log.len() + 1);
        assert(post.log != pre.log);
    }
    if post.events != pre.events {
        assert(post.events.len() != pre.events.len());
    }
}

/// A log whose newest entry is a consumed marker resolves to nothing:
/// there is nothing new to act on.
pub proof fn lemma_consumed_tail_is_idle(pre: EditorModel, post: EditorModel, outcome: Outcome)
    requires
        pre.log.len() > 0,
        pre.log.last() == LogEntry::Consumed,
        resolves(pre, post, outcome),
    ensures
        post == pre,
        outcome == Outcome::Idle,
{
}

/// No retroactive reinterpretation: once a run commits a mutation (and
/// with it the consumed marker), running the resolver again over the same
/// log tail changes nothing.
pub proof fn lemma_resolved_gesture_replays_as_noop(
    pre: EditorModel,
    mid: EditorModel,
    post: EditorModel,
    first: Outcome,
    second: Outcome,
)
    requires
        resolves(pre, mid, first),
        first matches Outcome::PlacedNode(_) || first matches Outcome::ConnectedNodes(_),
        resolves(mid, post, second),
    ensures
        post == mid,
        second == Outcome::Idle,
{
    assert(mid.log.last() == LogEntry::Consumed);
    lemma_consumed_tail_is_idle(mid, post, second);
}

} // verus!
