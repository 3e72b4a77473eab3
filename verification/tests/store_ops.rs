//! Tests for the graph store: identities, lookups, errors, and the
//! removal cascade.

use graph_editor::geometry::Position;
use graph_editor::store::{EdgeData, GraphError, GraphStore};

#[test]
fn add_node_assigns_distinct_identities() {
    let mut s = GraphStore::new();
    let a = s.add_node(Position::on_plane(0, 0));
    let b = s.add_node(Position::on_plane(1, 1));
    let c = s.add_node(Position::on_plane(2, 2));
    assert_ne!(a, b);
    assert_ne!(b, c);
    assert_ne!(a, c);
    assert_eq!(s.node_count(), 3);
    let w = s.lookup_node(b).expect("b is live");
    assert_eq!(w.position, Position::on_plane(1, 1));
    assert_eq!(w.label, "");
}

#[test]
fn add_edge_rejects_unknown_endpoints_and_changes_nothing() {
    let mut s = GraphStore::new();
    let a = s.add_node(Position::on_plane(0, 0));
    let missing = a + 1;
    assert_eq!(s.add_edge(a, missing), Err(GraphError::UnknownNode));
    assert_eq!(s.add_edge(missing, a), Err(GraphError::UnknownNode));
    assert_eq!(s.add_edge(missing, missing), Err(GraphError::UnknownNode));
    assert_eq!(s.node_count(), 1);
    assert_eq!(s.edge_count(), 0);
}

#[test]
fn add_edge_allows_self_loops_and_parallel_edges() {
    let mut s = GraphStore::new();
    let a = s.add_node(Position::on_plane(0, 0));
    let b = s.add_node(Position::on_plane(5, 0));
    let e1 = s.add_edge(a, b).expect("both live");
    let e2 = s.add_edge(a, b).expect("parallel pair is not deduplicated");
    let e3 = s.add_edge(a, a).expect("self-loop is allowed");
    assert_ne!(e1, e2);
    assert_ne!(e2, e3);
    assert_eq!(s.edge_count(), 3);
    assert_eq!(s.lookup_edge(e1), Some(EdgeData { node_a: a, node_b: b }));
    assert_eq!(s.lookup_edge(e2), Some(EdgeData { node_a: a, node_b: b }));
    assert_eq!(s.lookup_edge(e3), Some(EdgeData { node_a: a, node_b: a }));
}

#[test]
fn remove_edge_frees_only_that_edge() {
    let mut s = GraphStore::new();
    let a = s.add_node(Position::on_plane(0, 0));
    let b = s.add_node(Position::on_plane(5, 0));
    let e1 = s.add_edge(a, b).unwrap();
    let e2 = s.add_edge(b, a).unwrap();
    assert_eq!(s.remove_edge(e1), Ok(EdgeData { node_a: a, node_b: b }));
    assert_eq!(s.edge_count(), 1);
    assert_eq!(s.lookup_edge(e1), None);
    assert_eq!(s.lookup_edge(e2), Some(EdgeData { node_a: b, node_b: a }));
    assert_eq!(s.remove_edge(e1), Err(GraphError::NotFound));
    assert_eq!(s.node_count(), 2);
}

#[test]
fn remove_node_cascades_over_incident_edges() {
    let mut s = GraphStore::new();
    let a = s.add_node(Position::on_plane(0, 0));
    let b = s.add_node(Position::on_plane(1, 0));
    let c = s.add_node(Position::on_plane(2, 0));
    let ab = s.add_edge(a, b).unwrap();
    let bc = s.add_edge(b, c).unwrap();
    let ac = s.add_edge(a, c).unwrap();
    let removed = s.remove_node(b).expect("b is live");
    assert_eq!(removed.position, Position::on_plane(1, 0));
    assert_eq!(s.node_count(), 2);
    assert_eq!(s.edge_count(), 1);
    assert_eq!(s.lookup_node(b), None);
    assert_eq!(s.lookup_edge(ab), None);
    assert_eq!(s.lookup_edge(bc), None);
    assert_eq!(s.lookup_edge(ac), Some(EdgeData { node_a: a, node_b: c }));
    assert_eq!(s.remove_node(b), Err(GraphError::NotFound));
    // the surviving identities are untouched by the removal
    assert!(s.lookup_node(a).is_some());
    assert!(s.lookup_node(c).is_some());
}

#[test]
fn ids_beyond_the_index_range_are_never_live() {
    let mut s = GraphStore::new();
    let n = s.add_node(Position::on_plane(0, 0));
    // an id congruent to n modulo the u32 index space must not reach n's slot
    let alias = n + (1usize << 32);
    assert!(!s.contains_node(alias));
    assert_eq!(s.lookup_node(alias), None);
    assert_eq!(s.add_edge(alias, n), Err(GraphError::UnknownNode));
    assert_eq!(s.add_edge(n, alias), Err(GraphError::UnknownNode));
    assert_eq!(s.remove_node(alias), Err(GraphError::NotFound));
    assert_eq!(s.remove_edge(alias), Err(GraphError::NotFound));
    assert_eq!(s.lookup_edge(usize::MAX), None);
    assert_eq!(s.node_count(), 1);
    assert_eq!(s.edge_count(), 0);
    assert!(s.lookup_node(n).is_some());
}

#[test]
fn identities_are_stable_across_unrelated_changes() {
    let mut s = GraphStore::new();
    let a = s.add_node(Position::on_plane(0, 0));
    let b = s.add_node(Position::on_plane(1, 1));
    s.remove_node(a).unwrap();
    let c = s.add_node(Position::on_plane(2, 2));
    let d = s.add_node(Position::on_plane(3, 3));
    assert_eq!(s.lookup_node(b).unwrap().position, Position::on_plane(1, 1));
    assert_eq!(s.lookup_node(c).unwrap().position, Position::on_plane(2, 2));
    assert_eq!(s.lookup_node(d).unwrap().position, Position::on_plane(3, 3));
    assert_ne!(b, c);
    assert_ne!(b, d);
    assert_ne!(c, d);
}

#[test]
fn id_listings_match_the_live_contents() {
    let mut s = GraphStore::new();
    let a = s.add_node(Position::on_plane(0, 0));
    let b = s.add_node(Position::on_plane(1, 1));
    let c = s.add_node(Position::on_plane(2, 2));
    let ab = s.add_edge(a, b).unwrap();
    s.remove_node(c).unwrap();
    let mut nodes = s.node_ids();
    nodes.sort();
    let mut expected = vec![a, b];
    expected.sort();
    assert_eq!(nodes, expected);
    assert_eq!(s.edge_ids(), vec![ab]);
    assert!(s.contains_node(a));
    assert!(!s.contains_node(c));
}
