//! Raw click events and the append-only interaction log.

use vstd::prelude::*;

use crate::geometry::Position;
use crate::tool::Tool;

verus! {

/// What kind of placed element a click landed on. The selector is a tool,
/// not a placed element kind, so it does not appear here.
#[derive(Clone, Copy, Debug, PartialEq, Eq, Structural)]
pub enum EntityKind {
    Node,
    Edge,
}

/// One pointer click, as the input collaborator reports it: either it landed
/// on a placed element, or on empty space. The active tool is recorded with
/// the click so the log alone determines how it is interpreted; an
/// empty-space click also records where the pointer was, since placing a
/// node needs the click position.
#[derive(Clone, Copy, Debug, PartialEq, Eq, Structural)]
pub enum ClickEvent {
    /// The click landed on the placed element `target` of kind `kind`.
    Clicked { target: usize, kind: EntityKind, tool: Tool },
    /// The click landed on empty space at `position`.
    ClickedEmpty { tool: Tool, position: Position },
}

/// One entry of the interaction log: a raw click, or the sentinel that
/// retires the click(s) of a resolved gesture so they are never
/// reinterpreted.
#[derive(Clone, Copy, Debug, PartialEq, Eq, Structural)]
pub enum LogEntry {
    Click(ClickEvent),
    Consumed,
}

/// The append-only, ordered record of clicks and consumed markers. Entries
/// are never mutated or removed, which gives deterministic replay.
#[derive(Debug)]
pub struct InteractionLog {
    entries: Vec<LogEntry>,
}

impl View for InteractionLog {
    type V = Seq<LogEntry>;

    closed spec fn view(&self) -> Seq<LogEntry> {
        self.entries@
    }
}

impl InteractionLog {
    /// An empty log.
    pub fn new() -> (log: InteractionLog)
        ensures
            log@ == Seq::<LogEntry>::empty(),
    {
        InteractionLog { entries: Vec::new() }
    }

    /// Append a raw click. This is the sole write entry point for the input
    /// collaborator.
    pub fn record(&mut self, event: ClickEvent)
        ensures
            final(self)@ == old(self)@.push(LogEntry::Click(event)),
    {
        self.entries.push(LogEntry::Click(event));
    }

    /// Append a consumed marker, retiring the raw click(s) of the gesture
    /// that was just resolved. Only the gesture resolver calls this.
    pub(crate) fn mark_consumed(&mut self)
        ensures
            final(self)@ == old(self)@.push(LogEntry::Consumed),
    {
        self.entries.push(LogEntry::Consumed);
    }

    /// How many entries the log holds.
    pub fn len(&self) -> (n: usize)
        ensures
            n == self@.len(),
    {
        self.entries.len()
    }

    /// The entry at position `index` (entries are never mutated, so this is
    /// stable across later appends).
    pub fn entry(&self, index: usize) -> (e: LogEntry)
        requires
            index < self@.len(),
        ensures
            e == self@[index as int],
    {
        self.entries[index]
    }

    /// The last `n` entries, oldest first (all of them when the log is
    /// shorter). The resolver's bounded lookback needs no more than the
    /// last two.
    pub fn tail(&self, n: usize) -> (t: Vec<LogEntry>)
        ensures
            t@ == self@.skip(self@.len() - (if n <= self@.len() { n as int } else {
                self@.len() as int
            })),
    {
        let len = self.entries.len();
        let start = if n <= len {
            len - n
        } else {
            0
        };
        let mut t: Vec<LogEntry> = Vec::new();
        let mut i = start;
        while i < len
            invariant
                start <= i <= len,
                len == self@.len(),
                t@ == self@.subrange(start as int, i as int),
            decreases len - i,
        {
            t.push(self.entries[i]);
            proof {
                assert(t@ =~= self@.subrange(start as int, i + 1));
            }
            i = i + 1;
        }
        proof {
            assert(t@ =~= self@.skip(start as int));
        }
        t
    }

    /// The newest entry, if any.
    pub fn last(&self) -> (e: Option<LogEntry>)
        ensures
            match e {
                Some(entry) => self@.len() > 0 && entry == self@.last(),
                None => self@.len() == 0,
            },
    {
        if self.entries.len() > 0 {
            Some(self.entries[self.entries.len() - 1])
        } else {
            None
        }
    }
}

/// One placed element the input collaborator considered as the possible
/// target of a click. `hit` is the black-box bounds predicate: whether the
/// pointer was within the element's bounds.
#[derive(Clone, Copy, Debug, PartialEq, Eq, Structural)]
pub struct HitCandidate {
    pub identity: usize,
    pub kind: EntityKind,
    pub hit: bool,
}

/// Pick the click target among overlapping candidates: the first candidate
/// whose bounds contain the pointer wins, deterministically in iteration
/// order; if none contains it, the click landed on empty space.
pub fn pick_first_hit(candidates: &Vec<HitCandidate>) -> (r: Option<(usize, EntityKind)>)
    ensures
        match r {
            Some(target) => exists|i: int|
                {
                    &&& 0 <= i < candidates@.len()
                    &&& candidates@[i].hit
                    &&& target == (candidates@[i].identity, candidates@[i].kind)
                    &&& forall|j: int| 0 <= j < i ==> !candidates@[j].hit
                },
            None => forall|j: int| 0 <= j < candidates@.len() ==> !candidates@[j].hit,
        },
{
    let mut i: usize = 0;
    while i < candidates.len()
        invariant
            i <= candidates@.len(),
            forall|j: int| 0 <= j < i ==> !candidates@[j].hit,
        decreases candidates@.len() - i,
    {
        let c = candidates[i];
        if c.hit {
            return Some((c.identity, c.kind));
        }
        i = i + 1;
    }
    None
}

} // verus!
