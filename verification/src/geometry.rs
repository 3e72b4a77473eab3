//! Canvas-space positions.

use vstd::prelude::*;

verus! {

/// A point in canvas space. The canvas is a discrete grid of integer
/// coordinates; converting from window coordinates is the input
/// collaborator's job.
#[derive(Clone, Copy, Debug, PartialEq, Eq, Structural)]
pub struct Position {
    pub x: i64,
    pub y: i64,
    pub z: i64,
}

impl Position {
    /// A position on the canvas plane (`z` is zero).
    pub fn on_plane(x: i64, y: i64) -> (p: Position)
        ensures
            p == (Position { x, y, z: 0 }),
    {
        Position { x, y, z: 0 }
    }
}

} // verus!
