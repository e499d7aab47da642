//! Graph snapshots: the state of the code graph at one point in time.

use vstd::prelude::*;
use crate::ids::{new_id, v4_bits, v4_mask};
use crate::time::Timestamp;

verus! {

/// Identifier of a snapshot.
pub type SnapshotId = u128;

/// The state of the code graph at a point in time.
#[derive(Debug, Clone)]
pub struct GraphSnapshot {
    /// Unique identifier.
    pub id: SnapshotId,
    /// When it was captured.
    pub timestamp: Timestamp,
    /// The git commit it belongs to, if any.
    pub git_sha: Option<String>,
    /// Nodes in the graph.
    pub node_count: usize,
    /// Edges in the graph.
    pub edge_count: usize,
    /// Node counts by kind, one entry per kind.
    pub nodes_by_kind: Vec<(String, usize)>,
    /// File paths in the snapshot.
    pub files: Vec<String>,
    /// Checksum for integrity checks.
    pub checksum: String,
}

/// The kinds of a list of per-kind counts.
pub open spec fn kinds_of(entries: Seq<(String, usize)>) -> Seq<Seq<char>> {
    entries.map_values(|e: (String, usize)| e.0@)
}

/// The views of a list of strings.
pub open spec fn views_of(v: Seq<String>) -> Seq<Seq<char>> {
    v.map_values(|s: String| s@)
}

impl GraphSnapshot {
    /// A snapshot is well formed when no kind is counted twice, as in a map.
    pub open spec fn well_formed(&self) -> bool {
        kinds_of(self.nodes_by_kind@).no_duplicates()
    }

    /// A new empty snapshot with a fresh id, taken now.
    pub fn new() -> (r: Self)
        ensures
            r.well_formed(),
            r.id & v4_mask() == v4_bits(),
            r.git_sha is None,
            r.node_count == 0,
            r.edge_count == 0,
            r.nodes_by_kind@.len() == 0,
            r.files@.len() == 0,
            r.checksum@.len() == 0,
    {
        Self::with_counts(0, 0)
    }

    /// A new snapshot with the given counts, a fresh id, taken now.
    pub fn with_counts(node_count: usize, edge_count: usize) -> (r: Self)
        ensures
            r.well_formed(),
            r.id & v4_mask() == v4_bits(),
            r.git_sha is None,
            r.node_count == node_count,
            r.edge_count == edge_count,
            r.nodes_by_kind@.len() == 0,
            r.files@.len() == 0,
            r.checksum@.len() == 0,
    {
        let r = GraphSnapshot {
            id: new_id(),
            timestamp: Timestamp::now(),
            git_sha: None,
            node_count,
            edge_count,
            nodes_by_kind: Vec::new(),
            files: Vec::new(),
            checksum: String::new(),
        };
        assert(kinds_of(r.nodes_by_kind@) =~= Seq::<Seq<char>>::empty());
        r
    }
}

impl Default for GraphSnapshot {
    /// A new empty snapshot.
    fn default() -> (r: Self)
        ensures
            r.well_formed(),
            r.id & v4_mask() == v4_bits(),
            r.git_sha is None,
            r.node_count == 0,
            r.edge_count == 0,
            r.nodes_by_kind@.len() == 0,
            r.files@.len() == 0,
            r.checksum@.len() == 0,
    {
        Self::new()
    }
}

/// Metadata about a snapshot for quick lookup.
#[derive(Debug, Clone)]
pub struct SnapshotMetadata {
    /// Snapshot id.
    pub id: SnapshotId,
    /// When it was captured.
    pub timestamp: Timestamp,
    /// Its git SHA, if any.
    pub git_sha: Option<String>,
    /// Node count.
    pub node_count: usize,
    /// Edge count.
    pub edge_count: usize,
}

impl SnapshotMetadata {
    /// The metadata of a snapshot.
    pub fn from_snapshot(snapshot: &GraphSnapshot) -> (r: Self)
        ensures
            r.id == snapshot.id,
            r.timestamp == snapshot.timestamp,
            r.git_sha == snapshot.git_sha,
            r.node_count == snapshot.node_count,
            r.edge_count == snapshot.edge_count,
    {
        let git_sha = match &snapshot.git_sha {
            Some(s) => Some(s.clone()),
            None => None,
        };
        SnapshotMetadata {
            id: snapshot.id,
            timestamp: snapshot.timestamp,
            git_sha,
            node_count: snapshot.node_count,
            edge_count: snapshot.edge_count,
        }
    }
}

} // verus!
