//! Tests for the interaction log, the hit-test tie-break, and the tool
//! history.

use graph_editor::editor::Editor;
use graph_editor::geometry::Position;
use graph_editor::interaction::{
    pick_first_hit, ClickEvent, EntityKind, HitCandidate, InteractionLog, LogEntry,
};
use graph_editor::tool::{Tool, ToolHistory};

#[test]
fn interaction_log_is_append_only_and_ordered() {
    let mut log = InteractionLog::new();
    assert_eq!(log.len(), 0);
    assert_eq!(log.last(), None);
    let first = ClickEvent::ClickedEmpty { tool: Tool::Selector, position: Position::on_plane(1, 2) };
    let second = ClickEvent::Clicked { target: 4, kind: EntityKind::Node, tool: Tool::Edge };
    log.record(first);
    log.record(second);
    assert_eq!(log.len(), 2);
    assert_eq!(log.entry(0), LogEntry::Click(first));
    assert_eq!(log.entry(1), LogEntry::Click(second));
    assert_eq!(log.last(), Some(LogEntry::Click(second)));
    // earlier entries are unchanged by later appends
    log.record(first);
    assert_eq!(log.entry(0), LogEntry::Click(first));
    assert_eq!(log.entry(1), LogEntry::Click(second));
}

#[test]
fn tail_returns_the_newest_entries_in_order() {
    let mut log = InteractionLog::new();
    let a = ClickEvent::Clicked { target: 1, kind: EntityKind::Node, tool: Tool::Edge };
    let b = ClickEvent::Clicked { target: 2, kind: EntityKind::Node, tool: Tool::Edge };
    let c = ClickEvent::ClickedEmpty { tool: Tool::Selector, position: Position::on_plane(0, 0) };
    log.record(a);
    log.record(b);
    log.record(c);
    assert_eq!(log.tail(0), vec![]);
    assert_eq!(log.tail(2), vec![LogEntry::Click(b), LogEntry::Click(c)]);
    assert_eq!(
        log.tail(99),
        vec![LogEntry::Click(a), LogEntry::Click(b), LogEntry::Click(c)]
    );
}

#[test]
fn pick_first_hit_returns_none_when_nothing_contains_the_pointer() {
    let candidates = vec![
        HitCandidate { identity: 1, kind: EntityKind::Node, hit: false },
        HitCandidate { identity: 2, kind: EntityKind::Edge, hit: false },
    ];
    assert_eq!(pick_first_hit(&candidates), None);
    assert_eq!(pick_first_hit(&Vec::new()), None);
}

#[test]
fn pick_first_hit_takes_the_first_of_overlapping_candidates() {
    let candidates = vec![
        HitCandidate { identity: 3, kind: EntityKind::Node, hit: false },
        HitCandidate { identity: 8, kind: EntityKind::Edge, hit: true },
        HitCandidate { identity: 5, kind: EntityKind::Node, hit: true },
    ];
    // two bounds overlap under the pointer: the first found wins,
    // deterministically in iteration order
    assert_eq!(pick_first_hit(&candidates), Some((8, EntityKind::Edge)));
}

#[test]
fn tool_history_remembers_the_previous_tool() {
    let mut t = ToolHistory::new();
    assert_eq!(t.current_tool, Tool::Selector);
    assert_eq!(t.last_tool, None);
    t.select(Tool::Node);
    assert_eq!(t.current_tool, Tool::Node);
    assert_eq!(t.last_tool, Some(Tool::Selector));
    t.select(Tool::Edge);
    assert_eq!(t.current_tool, Tool::Edge);
    assert_eq!(t.last_tool, Some(Tool::Node));
    // re-selecting the active tool still shifts it into the history
    t.select(Tool::Edge);
    assert_eq!(t.current_tool, Tool::Edge);
    assert_eq!(t.last_tool, Some(Tool::Edge));
}

#[test]
fn editor_tool_selection_touches_no_state() {
    let mut e = Editor::new();
    assert_eq!(e.current_tool(), Tool::Selector);
    assert_eq!(e.last_tool(), None);
    e.select_tool(Tool::Edge);
    assert_eq!(e.current_tool(), Tool::Edge);
    assert_eq!(e.last_tool(), Some(Tool::Selector));
    assert_eq!(e.node_count(), 0);
    assert_eq!(e.log_len(), 0);
    assert_eq!(e.events_len(), 0);
}
