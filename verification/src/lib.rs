//! An interaction-history-driven graph editor core.
//!
//! A user selects a tool (selector / node / edge) and clicks on a 2D canvas.
//! Each click is recorded in an append-only interaction log; a gesture
//! resolver inspects the tail of that log, decides whether the click
//! completes a gesture (placing a node, or connecting two nodes clicked in
//! sequence under the edge tool), mutates the graph store accordingly,
//! appends the committed mutation to a graph event log for the renderer,
//! and retires the raw clicks with a consumed marker so they are never
//! reinterpreted.
//!
//! Rendering, hit-test geometry and window plumbing are collaborators that
//! live outside this crate; the graph itself is kept in a
//! `petgraph::stable_graph::StableGraph` behind a small trusted boundary.

pub mod editor;
pub mod events;
pub mod geometry;
pub mod interaction;
pub mod laws;
pub mod resolver;
pub mod store;
pub mod tool;
