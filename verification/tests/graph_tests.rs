use smelt::diff::compute_delta;
use smelt::graph::SmeltGraph;
use smelt::ids::new_id;
use smelt::time::Timestamp;
use smelt::types::delta::SemanticChange;
use smelt::types::snapshot::GraphSnapshot;

fn make_snapshot(node_count: usize, edge_count: usize, files: Vec<String>) -> GraphSnapshot {
    GraphSnapshot {
        id: new_id(),
        timestamp: Timestamp::now(),
        git_sha: None,
        node_count,
        edge_count,
        nodes_by_kind: Vec::new(),
        files,
        checksum: String::new(),
    }
}

#[test]
fn test_compute_delta_basic() {
    let intent_id = new_id();
    let from = make_snapshot(10, 5, vec!["a.rs".into(), "b.rs".into()]);
    let to = make_snapshot(15, 8, vec!["a.rs".into(), "b.rs".into(), "c.rs".into()]);

    let delta = compute_delta(intent_id, &from, &to).unwrap();

    assert_eq!(delta.intent_id, intent_id);
    assert_eq!(delta.from_snapshot, from.id);
    assert_eq!(delta.to_snapshot, to.id);
    assert!(delta.impact_summary.files_affected > 0);
}

#[test]
fn test_file_changes() {
    let intent_id = new_id();
    let from = make_snapshot(0, 0, vec!["a.rs".into(), "b.rs".into()]);
    let to = make_snapshot(0, 0, vec!["b.rs".into(), "c.rs".into()]);

    let delta = compute_delta(intent_id, &from, &to).unwrap();

    let added = delta
        .changes
        .iter()
        .filter(|c| matches!(c, SemanticChange::FileAdded { .. }))
        .count();
    let removed = delta
        .changes
        .iter()
        .filter(|c| matches!(c, SemanticChange::FileRemoved { .. }))
        .count();

    assert_eq!(added, 1);
    assert_eq!(removed, 1);
}

#[test]
fn delta_counts_kinds_edges_and_nodes() {
    let mut from = make_snapshot(10, 8, vec!["a.rs".into()]);
    from.nodes_by_kind = vec![("function".to_string(), 4), ("struct".to_string(), 2), ("trait".to_string(), 1)];
    let mut to = make_snapshot(7, 11, vec!["a.rs".into(), "b.rs".into()]);
    to.nodes_by_kind = vec![("function".to_string(), 6), ("struct".to_string(), 1)];
    let delta = compute_delta(1, &from, &to).unwrap();
    let s = delta.impact_summary;
    assert_eq!(s.files_affected, 1);
    assert_eq!(s.functions_added, 2);
    assert_eq!(s.types_removed, 1);
    assert_eq!(s.dependencies_added, 3);
    assert_eq!(s.dependencies_removed, 0);
    assert_eq!(s.complexity_delta, -3);
    match &delta.changes[0] {
        SemanticChange::FileAdded { path, symbol_count } => {
            assert_eq!(path, "b.rs");
            assert_eq!(*symbol_count, 0);
        }
        other => panic!("unexpected change {:?}", other),
    }
}

#[test]
fn test_open_and_snapshot() {
    let graph = SmeltGraph::open(0, 0);

    let snapshot = graph.snapshot().unwrap();
    assert_eq!(snapshot.node_count, 0);
    assert_eq!(snapshot.edge_count, 0);
}

#[test]
fn test_snapshot_for_intent() {
    let mut graph = SmeltGraph::open(0, 0);

    let intent_id = new_id();
    let snapshot_id = graph.snapshot_for_intent(intent_id).unwrap();

    assert!(graph.nodes_for_intent(intent_id).is_some());
    assert!(snapshot_id != 0);
}

#[test]
fn stored_snapshot_is_found_by_sha_and_id() {
    let mut graph = SmeltGraph::open(3, 2);
    let snap = graph.snapshot().unwrap();
    let id = snap.id;
    graph.store_snapshot("abc123".to_string(), snap);
    let got = graph.get_snapshot("abc123").unwrap();
    assert_eq!(got.git_sha.as_deref(), Some("abc123"));
    assert_eq!(got.node_count, 3);
    assert!(graph.get_snapshot_by_id(id).is_some());
    assert!(graph.get_snapshot("other").is_none());
    assert!(graph.query_at_commit("other").is_err());
}

#[test]
fn recorded_intent_nodes_are_read_back() {
    let mut graph = SmeltGraph::open(0, 0);
    graph.record_intent_nodes(7, vec![1, 2, 3]);
    assert_eq!(graph.nodes_for_intent(7), Some(&vec![1, 2, 3]));
    assert_eq!(graph.nodes_for_intent(8), None);
}

#[test]
fn checksum_is_hex_of_count_hash() {
    let graph = SmeltGraph::open(5, 9);
    let a = graph.snapshot().unwrap();
    let b = graph.snapshot().unwrap();
    assert_eq!(a.checksum, b.checksum);
    assert!(!a.checksum.is_empty());
    assert!(a.checksum.chars().all(|c| c.is_ascii_hexdigit() && !c.is_ascii_uppercase()));
    let other = SmeltGraph::open(6, 9).snapshot().unwrap();
    assert_ne!(a.checksum, other.checksum);
}

#[test]
fn indexed_files_appear_in_snapshots_once() {
    let mut graph = SmeltGraph::open(0, 0);
    graph.index_files(&vec!["a.rs".to_string(), "b.rs".to_string()]).unwrap();
    graph.index_files(&vec!["b.rs".to_string(), "c.rs".to_string()]).unwrap();
    let s = graph.snapshot().unwrap();
    assert_eq!(s.files, vec!["a.rs".to_string(), "b.rs".to_string(), "c.rs".to_string()]);
}

#[test]
fn snapshot_by_id_takes_the_first_sha_in_order() {
    let mut graph = SmeltGraph::open(3, 2);
    let snap = graph.snapshot().unwrap();
    let id = snap.id;
    graph.store_snapshot("bbb".to_string(), snap.clone());
    graph.store_snapshot("aaa".to_string(), snap);
    let got = graph.get_snapshot_by_id(id).unwrap();
    assert_eq!(got.git_sha.as_deref(), Some("aaa"));
    assert!(graph.get_snapshot_by_id(id.wrapping_add(1)).is_none());
}

#[test]
fn snapshot_checksum_is_the_hash_in_hex() {
    let graph = SmeltGraph::open(4, 1);
    let s = graph.snapshot_at(9, Timestamp::from_parts(0, 0).unwrap(), 0xbeef);
    assert_eq!(s.checksum, "beef");
    assert_eq!(s.id, 9);
    assert_eq!((s.node_count, s.edge_count), (4, 1));
}
