//! The editor: the owned bundle of tool state, interaction log, graph
//! store and graph event log, wired together as one tick of the editing
//! pipeline.
//!
//! The input collaborator reports a click (what was hit, under the current
//! tool); `click` records it and runs the gesture resolver once, as the
//! host loop would on a log change. The rendering collaborator polls
//! `is_changed` / `latest_event` and acknowledges with `mark_seen`.

use vstd::prelude::*;

use crate::events::{GraphEvent, GraphEventLog};
use crate::geometry::Position;
use crate::interaction::{ClickEvent, EntityKind, InteractionLog, LogEntry};
use crate::resolver::{model_of, recorded, resolve, resolves, EditorModel, Outcome};
use crate::store::{EdgeData, GraphStore, NodeData, INDEX_LIMIT};
use crate::tool::{Tool, ToolHistory};

verus! {

/// The raw click entry that `Editor::click` appends for a reported hit (or
/// miss) under the given tool.
pub open spec fn click_entry(
    target: Option<(usize, EntityKind)>,
    tool: Tool,
    position: Position,
) -> LogEntry {
    match target {
        Some(t) => LogEntry::Click(ClickEvent::Clicked { target: t.0, kind: t.1, tool }),
        None => LogEntry::Click(ClickEvent::ClickedEmpty { tool, position }),
    }
}

/// The whole editing state. The graph store and the two logs are private:
/// every mutation goes through `click`, which keeps the resolver the only
/// writer of the store and the only author of consumed markers.
pub struct Editor {
    tools: ToolHistory,
    graph: GraphStore,
    log: InteractionLog,
    events: GraphEventLog,
}

impl Editor {
    /// The editing state as one mathematical value.
    pub closed spec fn model(self) -> EditorModel {
        model_of(self.graph, self.log, self.events)
    }

    /// The active tool and its predecessor.
    pub closed spec fn tool_state(self) -> ToolHistory {
        self.tools
    }

    /// How far the renderer has acknowledged the event log.
    pub closed spec fn watermark(self) -> nat {
        self.events.watermark()
    }

    /// The store's and the event log's invariants hold.
    pub closed spec fn wf(self) -> bool {
        self.graph.wf() && self.events.wf()
    }

    /// A fresh editor: selector tool active, empty graph, empty logs.
    pub fn new() -> (e: Editor)
        ensures
            e.wf(),
            e.model() == (EditorModel {
                nodes: Map::empty(),
                edges: Map::empty(),
                log: Seq::empty(),
                events: Seq::empty(),
            }),
            e.tool_state().current_tool == Tool::Selector,
            e.tool_state().last_tool is None,
            e.watermark() == 0,
    {
        Editor {
            tools: ToolHistory::new(),
            graph: GraphStore::new(),
            log: InteractionLog::new(),
            events: GraphEventLog::new(),
        }
    }

    /// Make `tool` the active tool; the graph and the logs are untouched.
    pub fn select_tool(&mut self, tool: Tool)
        ensures
            final(self).wf() == old(self).wf(),
            final(self).model() == old(self).model(),
            final(self).watermark() == old(self).watermark(),
            final(self).tool_state().current_tool == tool,
            final(self).tool_state().last_tool == Some(old(self).tool_state().current_tool),
    {
        self.tools.select(tool);
    }

    /// The active tool.
    pub fn current_tool(&self) -> (t: Tool)
        ensures
            t == self.tool_state().current_tool,
    {
        self.tools.current_tool
    }

    /// The tool that was active before the current one, if any.
    pub fn last_tool(&self) -> (t: Option<Tool>)
        ensures
            t == self.tool_state().last_tool,
    {
        self.tools.last_tool
    }

    /// One tick of the pipeline: record the reported click under the
    /// active tool, then run the gesture resolver once over the new log
    /// tail. `target` is what the input collaborator's hit test found;
    /// `position` is where the pointer was, which only matters for a click
    /// on empty space. The preconditions only keep the store inside its
    /// index type's range.
    pub fn click(&mut self, target: Option<(usize, EntityKind)>, position: Position) -> (outcome: Outcome)
        requires
            old(self).wf(),
            old(self).model().nodes.len() < INDEX_LIMIT,
            old(self).model().edges.len() < INDEX_LIMIT,
        ensures
            final(self).wf(),
            final(self).tool_state() == old(self).tool_state(),
            final(self).watermark() == old(self).watermark(),
            resolves(
                recorded(
                    old(self).model(),
                    click_entry(target, old(self).tool_state().current_tool, position),
                ),
                final(self).model(),
                outcome,
            ),
    {
        let tool = self.tools.current_tool;
        let event = match target {
            Some((t, k)) => ClickEvent::Clicked { target: t, kind: k, tool },
            None => ClickEvent::ClickedEmpty { tool, position },
        };
        self.log.record(event);
        resolve(&mut self.graph, &mut self.log, &mut self.events)
    }

    /// The number of live nodes.
    pub fn node_count(&self) -> (n: usize)
        requires
            self.wf(),
        ensures
            n == self.model().nodes.len(),
    {
        self.graph.node_count()
    }

    /// The number of live edges.
    pub fn edge_count(&self) -> (n: usize)
        requires
            self.wf(),
        ensures
            n == self.model().edges.len(),
    {
        self.graph.edge_count()
    }

    /// Look a node up by identity; read-only, never fails.
    pub fn lookup_node(&self, id: usize) -> (r: Option<NodeData>)
        requires
            self.wf(),
        ensures
            match r {
                Some(w) => self.model().nodes.dom().contains(id as nat) && w@
                    == self.model().nodes[id as nat],
                None => !self.model().nodes.dom().contains(id as nat),
            },
    {
        self.graph.lookup_node(id)
    }

    /// Look an edge up by identity; read-only, never fails.
    pub fn lookup_edge(&self, id: usize) -> (r: Option<EdgeData>)
        requires
            self.wf(),
        ensures
            match r {
                Some(w) => self.model().edges.dom().contains(id as nat) && w
                    == self.model().edges[id as nat],
                None => !self.model().edges.dom().contains(id as nat),
            },
    {
        self.graph.lookup_edge(id)
    }

    /// The live node identities, each exactly once, for inspection.
    pub fn node_ids(&self) -> (ids: Vec<usize>)
        ensures
            ids@.no_duplicates(),
            forall|i: usize| #[trigger] ids@.contains(i) <==> self.model().nodes.dom().contains(
                i as nat,
            ),
    {
        self.graph.node_ids()
    }

    /// The live edge identities, each exactly once, for inspection.
    pub fn edge_ids(&self) -> (ids: Vec<usize>)
        ensures
            ids@.no_duplicates(),
            forall|i: usize| #[trigger] ids@.contains(i) <==> self.model().edges.dom().contains(
                i as nat,
            ),
    {
        self.graph.edge_ids()
    }

    /// How many entries the interaction log holds.
    pub fn log_len(&self) -> (n: usize)
        ensures
            n == self.model().log.len(),
    {
        self.log.len()
    }

    /// The interaction log entry at `index`.
    pub fn log_entry(&self, index: usize) -> (e: LogEntry)
        requires
            index < self.model().log.len(),
        ensures
            e == self.model().log[index as int],
    {
        self.log.entry(index)
    }

    /// How many mutations have been committed.
    pub fn events_len(&self) -> (n: usize)
        ensures
            n == self.model().events.len(),
    {
        self.events.len()
    }

    /// The committed mutation at `index`.
    pub fn event_at(&self, index: usize) -> (e: &GraphEvent)
        requires
            index < self.model().events.len(),
        ensures
            e@ == self.model().events[index as int],
    {
        self.events.get(index)
    }

    /// The newest committed mutation, if any: what the renderer reacts to.
    pub fn latest_event(&self) -> (r: Option<&GraphEvent>)
        ensures
            match r {
                Some(e) => self.model().events.len() > 0 && e@ == self.model().events.last(),
                None => self.model().events.len() == 0,
            },
    {
        self.events.latest()
    }

    /// Whether mutations were committed that the renderer has not yet
    /// acknowledged.
    pub fn is_changed(&self) -> (r: bool)
        ensures
            r == (self.watermark() < self.model().events.len()),
    {
        self.events.is_changed()
    }

    /// Acknowledge everything committed so far.
    pub fn mark_seen(&mut self)
        ensures
            old(self).wf() ==> final(self).wf(),
            final(self).model() == old(self).model(),
            final(self).tool_state() == old(self).tool_state(),
            final(self).watermark() == final(self).model().events.len(),
    {
        self.events.mark_seen();
    }
}

} // verus!
