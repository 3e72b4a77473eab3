//! Scenario tests for the gesture resolver, driven through the public
//! `Editor` pipeline.

use graph_editor::editor::Editor;
use graph_editor::events::{GraphEvent, GraphEventLog};
use graph_editor::geometry::Position;
use graph_editor::interaction::{ClickEvent, EntityKind, InteractionLog, LogEntry};
use graph_editor::resolver::{resolve, Outcome};
use graph_editor::store::{EdgeData, GraphStore};
use graph_editor::tool::Tool;

fn place(e: &mut Editor, x: i64, y: i64) -> usize {
    e.select_tool(Tool::Node);
    match e.click(None, Position::on_plane(x, y)) {
        Outcome::PlacedNode(id) => id,
        other => panic!("placing a node reported {:?}", other),
    }
}

fn connect(e: &mut Editor, a: usize, b: usize) -> (Outcome, Outcome) {
    e.select_tool(Tool::Edge);
    let first = e.click(Some((a, EntityKind::Node)), Position::on_plane(0, 0));
    let second = e.click(Some((b, EntityKind::Node)), Position::on_plane(0, 0));
    (first, second)
}

#[test]
fn empty_space_clicks_under_selector_and_edge_change_nothing() {
    let mut e = Editor::new();
    for _ in 0..3 {
        assert_eq!(e.click(None, Position::on_plane(5, 5)), Outcome::Idle);
    }
    e.select_tool(Tool::Edge);
    for i in 0..4 {
        assert_eq!(e.click(None, Position::on_plane(i, -i)), Outcome::Idle);
    }
    assert_eq!(e.node_count(), 0);
    assert_eq!(e.edge_count(), 0);
    assert_eq!(e.events_len(), 0);
    assert!(e.latest_event().is_none());
    // the raw clicks are still on record, unconsumed
    assert_eq!(e.log_len(), 7);
}

#[test]
fn node_tool_click_places_one_node_at_click_position() {
    let mut e = Editor::new();
    e.select_tool(Tool::Node);
    let outcome = e.click(None, Position::on_plane(30, -17));
    let id = match outcome {
        Outcome::PlacedNode(id) => id,
        other => panic!("expected a placed node, got {:?}", other),
    };
    assert_eq!(e.node_count(), 1);
    assert_eq!(e.edge_count(), 0);
    let node = e.lookup_node(id).expect("the fresh node is live");
    assert_eq!(node.position, Position::on_plane(30, -17));
    assert_eq!(node.label, "");
    assert_eq!(e.events_len(), 1);
    match e.latest_event() {
        Some(GraphEvent::AddedNode { identity, node }) => {
            assert_eq!(*identity, id);
            assert_eq!(node.position, Position::on_plane(30, -17));
        }
        other => panic!("expected an added-node event, got {:?}", other),
    }
    // the raw click is retired at once
    assert_eq!(e.log_len(), 2);
    assert_eq!(e.log_entry(1), LogEntry::Consumed);
}

#[test]
fn edge_gesture_connects_two_nodes_exactly_once() {
    let mut e = Editor::new();
    let a = place(&mut e, 0, 0);
    let b = place(&mut e, 100, 0);
    let log_before = e.log_len();
    let (first, second) = connect(&mut e, a, b);
    assert_eq!(first, Outcome::Idle);
    let eid = match second {
        Outcome::ConnectedNodes(eid) => eid,
        other => panic!("expected a connected edge, got {:?}", other),
    };
    assert_eq!(e.edge_count(), 1);
    assert_eq!(e.lookup_edge(eid), Some(EdgeData { node_a: a, node_b: b }));
    assert_eq!(e.events_len(), 3);
    match e.latest_event() {
        Some(GraphEvent::AddedEdge { identity, edge }) => {
            assert_eq!(*identity, eid);
            assert_eq!(*edge, EdgeData { node_a: a, node_b: b });
        }
        other => panic!("expected an added-edge event, got {:?}", other),
    }
    // both raw clicks stand, retired by a single consumed marker
    assert_eq!(e.log_len(), log_before + 3);
    assert_eq!(
        e.log_entry(log_before),
        LogEntry::Click(ClickEvent::Clicked { target: a, kind: EntityKind::Node, tool: Tool::Edge })
    );
    assert_eq!(
        e.log_entry(log_before + 1),
        LogEntry::Click(ClickEvent::Clicked { target: b, kind: EntityKind::Node, tool: Tool::Edge })
    );
    assert_eq!(e.log_entry(log_before + 2), LogEntry::Consumed);

    // a further click on a third node does not also connect to a or b
    let c = place(&mut e, 0, 100);
    e.select_tool(Tool::Edge);
    assert_eq!(e.click(Some((c, EntityKind::Node)), Position::on_plane(0, 0)), Outcome::Idle);
    assert_eq!(e.edge_count(), 1);
}

#[test]
fn same_node_twice_completes_nothing_and_leaves_click_pending() {
    let mut e = Editor::new();
    let a = place(&mut e, 0, 0);
    let b = place(&mut e, 50, 50);
    let (first, second) = connect(&mut e, a, a);
    assert_eq!(first, Outcome::Idle);
    assert_eq!(second, Outcome::Idle);
    assert_eq!(e.edge_count(), 0);
    assert_eq!(e.events_len(), 2);
    // the second click on a is still pending: clicking b now connects a-b
    let third = e.click(Some((b, EntityKind::Node)), Position::on_plane(0, 0));
    let eid = match third {
        Outcome::ConnectedNodes(eid) => eid,
        other => panic!("expected a connected edge, got {:?}", other),
    };
    assert_eq!(e.edge_count(), 1);
    assert_eq!(e.lookup_edge(eid), Some(EdgeData { node_a: a, node_b: b }));
}

#[test]
fn intervening_selector_click_drops_the_pending_click() {
    let mut e = Editor::new();
    let a = place(&mut e, 0, 0);
    let b = place(&mut e, 10, 10);
    e.select_tool(Tool::Edge);
    assert_eq!(e.click(Some((a, EntityKind::Node)), Position::on_plane(0, 0)), Outcome::Idle);
    e.select_tool(Tool::Selector);
    assert_eq!(
        e.click(Some((a, EntityKind::Node)), Position::on_plane(0, 0)),
        Outcome::InspectedNode(a)
    );
    e.select_tool(Tool::Edge);
    assert_eq!(e.click(Some((b, EntityKind::Node)), Position::on_plane(0, 0)), Outcome::Idle);
    assert_eq!(e.edge_count(), 0);
    assert_eq!(e.events_len(), 2);
}

#[test]
fn resolver_replay_over_consumed_tail_mutates_nothing() {
    let mut graph = GraphStore::new();
    let mut log = InteractionLog::new();
    let mut events = GraphEventLog::new();
    log.record(ClickEvent::ClickedEmpty { tool: Tool::Node, position: Position::on_plane(1, 2) });
    let first = resolve(&mut graph, &mut log, &mut events);
    assert!(matches!(first, Outcome::PlacedNode(_)));
    assert_eq!(graph.node_count(), 1);
    assert_eq!(events.len(), 1);
    assert_eq!(log.len(), 2);
    // the same log tail, queried again: no further mutation
    let second = resolve(&mut graph, &mut log, &mut events);
    assert_eq!(second, Outcome::Idle);
    let third = resolve(&mut graph, &mut log, &mut events);
    assert_eq!(third, Outcome::Idle);
    assert_eq!(graph.node_count(), 1);
    assert_eq!(events.len(), 1);
    assert_eq!(log.len(), 2);
}

#[test]
fn inspect_intents_emit_no_graph_event() {
    let mut e = Editor::new();
    let a = place(&mut e, 0, 0);
    let b = place(&mut e, 7, 7);
    let (_, second) = connect(&mut e, a, b);
    let eid = match second {
        Outcome::ConnectedNodes(eid) => eid,
        other => panic!("expected a connected edge, got {:?}", other),
    };
    let events_before = e.events_len();

    e.select_tool(Tool::Selector);
    assert_eq!(
        e.click(Some((a, EntityKind::Node)), Position::on_plane(0, 0)),
        Outcome::InspectedNode(a)
    );
    assert_eq!(
        e.click(Some((eid, EntityKind::Edge)), Position::on_plane(0, 0)),
        Outcome::InspectedEdge(eid)
    );
    e.select_tool(Tool::Node);
    assert_eq!(
        e.click(Some((b, EntityKind::Node)), Position::on_plane(0, 0)),
        Outcome::InspectedNode(b)
    );
    // a placed edge clicked with the node tool is not a defined gesture
    assert_eq!(e.click(Some((eid, EntityKind::Edge)), Position::on_plane(0, 0)), Outcome::Idle);
    e.select_tool(Tool::Edge);
    assert_eq!(
        e.click(Some((eid, EntityKind::Edge)), Position::on_plane(0, 0)),
        Outcome::InspectedEdge(eid)
    );
    assert_eq!(e.events_len(), events_before);
    assert_eq!(e.node_count(), 2);
    assert_eq!(e.edge_count(), 1);
}

#[test]
fn renderer_watermark_tracks_commits() {
    let mut e = Editor::new();
    assert!(!e.is_changed());
    place(&mut e, 1, 1);
    assert!(e.is_changed());
    e.mark_seen();
    assert!(!e.is_changed());
    place(&mut e, 2, 2);
    assert!(e.is_changed());
    e.mark_seen();
    assert!(!e.is_changed());
    // an idle click commits nothing, so nothing new to acknowledge
    e.select_tool(Tool::Selector);
    assert_eq!(e.click(None, Position::on_plane(9, 9)), Outcome::Idle);
    assert!(!e.is_changed());
}
