//! The graph event log: the record of committed mutations that the
//! rendering collaborator consumes.

use vstd::prelude::*;

use crate::store::{EdgeData, NodeData, NodeView};

verus! {

/// An immutable record of one committed graph mutation, appended once per
/// committed gesture and never edited or removed. It carries the identity
/// and a snapshot of the element, so the renderer can replay the event
/// without reading the store.
#[derive(Clone, Debug, PartialEq, Eq)]
pub enum GraphEvent {
    AddedNode { identity: usize, node: NodeData },
    AddedEdge { identity: usize, edge: EdgeData },
    RemovedNode { identity: usize, node: NodeData },
    RemovedEdge { identity: usize, edge: EdgeData },
}

/// The mathematical value of a `GraphEvent`.
pub ghost enum GraphEventView {
    AddedNode { identity: nat, node: NodeView },
    AddedEdge { identity: nat, edge: EdgeData },
    RemovedNode { identity: nat, node: NodeView },
    RemovedEdge { identity: nat, edge: EdgeData },
}

impl View for GraphEvent {
    type V = GraphEventView;

    open spec fn view(&self) -> GraphEventView {
        match *self {
            GraphEvent::AddedNode { identity, node } => GraphEventView::AddedNode {
                identity: identity as nat,
                node: node@,
            },
            GraphEvent::AddedEdge { identity, edge } => GraphEventView::AddedEdge {
                identity: identity as nat,
                edge,
            },
            GraphEvent::RemovedNode { identity, node } => GraphEventView::RemovedNode {
                identity: identity as nat,
                node: node@,
            },
            GraphEvent::RemovedEdge { identity, edge } => GraphEventView::RemovedEdge {
                identity: identity as nat,
                edge,
            },
        }
    }
}

/// The append-only, ordered log of committed mutations. A watermark
/// remembers how far the renderer has read, replacing the host framework's
/// change-detection flag with an explicit, single-consumer notification.
#[derive(Debug)]
pub struct GraphEventLog {
    events: Vec<GraphEvent>,
    seen: usize,
}

impl View for GraphEventLog {
    type V = Seq<GraphEventView>;

    closed spec fn view(&self) -> Seq<GraphEventView> {
        self.events@.map_values(|e: GraphEvent| e@)
    }
}

impl GraphEventLog {
    /// How far the renderer has read: events at positions below the
    /// watermark have been acknowledged.
    pub closed spec fn watermark(self) -> nat {
        self.seen as nat
    }

    /// The watermark never runs ahead of the log.
    pub closed spec fn wf(self) -> bool {
        self.seen <= self.events@.len()
    }

    /// An empty log with nothing acknowledged.
    pub fn new() -> (log: GraphEventLog)
        ensures
            log.wf(),
            log@ == Seq::<GraphEventView>::empty(),
            log.watermark() == 0,
    {
        let log = GraphEventLog { events: Vec::new(), seen: 0 };
        proof {
            assert(log@ =~= Seq::<GraphEventView>::empty());
        }
        log
    }

    /// Append the record of a committed mutation. Only the gesture
    /// resolver calls this, once per committed gesture.
    pub(crate) fn push(&mut self, event: GraphEvent)
        ensures
            final(self)@ == old(self)@.push(event@),
            final(self).watermark() == old(self).watermark(),
            old(self).wf() ==> final(self).wf(),
    {
        self.events.push(event);
        proof {
            assert(final(self)@ =~= old(self)@.push(event@));
        }
    }

    /// The newest committed mutation, if any. The renderer reacts only to
    /// this entry; older entries are never replayed.
    pub fn latest(&self) -> (r: Option<&GraphEvent>)
        ensures
            match r {
                Some(e) => self@.len() > 0 && e@ == self@.last(),
                None => self@.len() == 0,
            },
    {
        if self.events.len() > 0 {
            Some(&self.events[self.events.len() - 1])
        } else {
            None
        }
    }

    /// How many mutations have been committed.
    pub fn len(&self) -> (n: usize)
        ensures
            n == self@.len(),
    {
        self.events.len()
    }

    /// The event at position `index`; entries are never edited, so this is
    /// stable across later appends.
    pub fn get(&self, index: usize) -> (e: &GraphEvent)
        requires
            index < self@.len(),
        ensures
            e@ == self@[index as int],
    {
        &self.events[index]
    }

    /// Whether mutations were committed that the renderer has not yet
    /// acknowledged.
    pub fn is_changed(&self) -> (r: bool)
        ensures
            r == (self.watermark() < self@.len()),
    {
        self.seen < self.events.len()
    }

    /// Acknowledge everything committed so far; `is_changed` turns false
    /// until the next commit.
    pub fn mark_seen(&mut self)
        ensures
            final(self)@ == old(self)@,
            final(self).watermark() == final(self)@.len(),
            final(self).wf(),
    {
        self.seen = self.events.len();
    }
}

} // verus!
