//! The active interaction mode and its one-step history.

use vstd::prelude::*;

verus! {

/// The interaction mode that decides how a click is interpreted.
#[derive(Clone, Copy, Debug, PartialEq, Eq, Structural)]
pub enum Tool {
    /// Select or inspect an already-placed element.
    Selector,
    /// Place a new node on empty space.
    Node,
    /// Connect two nodes clicked in sequence.
    Edge,
}

/// The currently active tool, together with the immediately previous one.
///
/// The previous tool is retained for display (and a future undo UI); nothing
/// in the core reads it back.
#[derive(Clone, Copy, Debug, PartialEq, Eq, Structural)]
pub struct ToolHistory {
    pub current_tool: Tool,
    pub last_tool: Option<Tool>,
}

impl ToolHistory {
    /// A fresh history: the selector tool is active and nothing precedes it.
    pub fn new() -> (t: ToolHistory)
        ensures
            t.current_tool == Tool::Selector,
            t.last_tool is None,
    {
        ToolHistory { current_tool: Tool::Selector, last_tool: None }
    }

    /// Make `tool` the active tool, remembering the one it replaces.
    pub fn select(&mut self, tool: Tool)
        ensures
            final(self).current_tool == tool,
            final(self).last_tool == Some(old(self).current_tool),
    {
        let previous = self.current_tool;
        self.current_tool = tool;
        self.last_tool = Some(previous);
    }
}

} // verus!
