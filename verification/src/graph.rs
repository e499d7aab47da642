//! The versioned code graph: snapshots by commit, the nodes each intent
//! touched, and the files being tracked.
//!
//! The node and edge counts are those of the underlying code graph, which the
//! application opens and reads.

use vstd::prelude::*;
use std::hash::{Hash, Hasher};
use crate::diff::pick;
use crate::error::SmeltError;
use crate::ids::{new_id, v4_bits, v4_mask};
use crate::text::{
    hex, hex_string, lemma_bytes_before_transitive, lemma_text_before_total, str_before, str_eq,
    text_before,
};
use vstd::utf8::encode_utf8;
use crate::time::Timestamp;
use crate::types::intent::IntentId;
use crate::types::snapshot::{kinds_of, views_of, GraphSnapshot, SnapshotId};

verus! {

/// Hashes the node count and then the edge count with a fresh
/// `std::collections::hash_map::DefaultHasher` and returns `finish()`. Nothing
/// is stated of the value: std leaves the hasher's algorithm unspecified and
/// free to change between releases, and a `usize` is hashed by its native
/// bytes, so the same counts hash differently on different machines.
#[verifier::external_body]
fn hash_counts(node_count: usize, edge_count: usize) -> (r: u64) {
    let mut hasher = std::collections::hash_map::DefaultHasher::new();
    node_count.hash(&mut hasher);
    edge_count.hash(&mut hasher);
    hasher.finish()
}

/// The position of the last entry stored under `key`, or -1.
pub open spec fn key_index<V>(entries: Seq<(String, V)>, key: Seq<char>) -> int
    decreases entries.len(),
{
    if entries.len() == 0 {
        -1
    } else if entries.last().0@ == key {
        entries.len() - 1
    } else {
        key_index(entries.drop_last(), key)
    }
}

/// The position of the last entry for `key`, or -1.
pub open spec fn id_index<V>(entries: Seq<(u128, V)>, key: u128) -> int
    decreases entries.len(),
{
    if entries.len() == 0 {
        -1
    } else if entries.last().0 == key {
        entries.len() - 1
    } else {
        id_index(entries.drop_last(), key)
    }
}

/// The entries with `(key, value)` stored: in place of the entry for `key`,
/// or at the end when there is none.
pub open spec fn put<V>(entries: Seq<(String, V)>, key: String, value: V) -> Seq<(String, V)> {
    let i = key_index(entries, key@);
    if i >= 0 {
        entries.update(i, (key, value))
    } else {
        entries.push((key, value))
    }
}

proof fn lemma_key_index<V>(entries: Seq<(String, V)>, key: Seq<char>)
    ensures
        -1 <= key_index(entries, key) < entries.len(),
        key_index(entries, key) >= 0 ==> entries[key_index(entries, key)].0@ == key,
        key_index(entries, key) < 0 ==> forall|j: int| 0 <= j < entries.len() ==> entries[j].0@ != key,
        forall|j: int| key_index(entries, key) < j < entries.len() ==> entries[j].0@ != key,
    decreases entries.len(),
{
    if entries.len() > 0 {
        let d = entries.drop_last();
        lemma_key_index(d, key);
        assert forall|j: int| 0 <= j < d.len() implies d[j] == entries[j] by {}
    }
}

proof fn lemma_id_index<V>(entries: Seq<(u128, V)>, key: u128)
    ensures
        -1 <= id_index(entries, key) < entries.len(),
        id_index(entries, key) >= 0 ==> entries[id_index(entries, key)].0 == key,
        id_index(entries, key) < 0 ==> forall|j: int| 0 <= j < entries.len() ==> entries[j].0 != key,
        forall|j: int| id_index(entries, key) < j < entries.len() ==> entries[j].0 != key,
    decreases entries.len(),
{
    if entries.len() > 0 {
        let d = entries.drop_last();
        lemma_id_index(d, key);
        assert forall|j: int| 0 <= j < d.len() implies d[j] == entries[j] by {}
    }
}

proof fn lemma_key_index_of_last<V>(entries: Seq<(String, V)>, key: Seq<char>, i: int)
    requires
        0 <= i < entries.len(),
        entries[i].0@ == key,
        forall|j: int| i < j < entries.len() ==> entries[j].0@ != key,
    ensures
        key_index(entries, key) == i,
    decreases entries.len(),
{
    if i < entries.len() - 1 {
        let d = entries.drop_last();
        assert forall|j: int| 0 <= j < d.len() implies d[j] == entries[j] by {}
        lemma_key_index_of_last(d, key, i);
    }
}

proof fn lemma_id_index_of_last<V>(entries: Seq<(u128, V)>, key: u128, i: int)
    requires
        0 <= i < entries.len(),
        entries[i].0 == key,
        forall|j: int| i < j < entries.len() ==> entries[j].0 != key,
    ensures
        id_index(entries, key) == i,
    decreases entries.len(),
{
    if i < entries.len() - 1 {
        let d = entries.drop_last();
        assert forall|j: int| 0 <= j < d.len() implies d[j] == entries[j] by {}
        lemma_id_index_of_last(d, key, i);
    }
}

/// Where `key` is stored, found from the back.
fn find_key<V>(entries: &Vec<(String, V)>, key: &str) -> (r: Option<usize>)
    ensures
        match r {
            Some(i) => i < entries@.len() && i as int == key_index(entries@, key@),
            None => key_index(entries@, key@) == -1,
        },
{
    proof { lemma_key_index(entries@, key@); }
    let mut i: usize = entries.len();
    while i > 0
        invariant
            i <= entries@.len(),
            forall|j: int| i <= j < entries@.len() ==> entries@[j].0@ != key@,
        decreases i,
    {
        i = i - 1;
        if str_eq(entries[i].0.as_str(), key) {
            proof { lemma_key_index_of_last(entries@, key@, i as int); }
            return Some(i);
        }
    }
    None
}

/// Where `key` is stored, found from the back.
fn find_id<V>(entries: &Vec<(u128, V)>, key: u128) -> (r: Option<usize>)
    ensures
        match r {
            Some(i) => i < entries@.len() && i as int == id_index(entries@, key),
            None => id_index(entries@, key) == -1,
        },
{
    proof { lemma_id_index(entries@, key); }
    let mut i: usize = entries.len();
    while i > 0
        invariant
            i <= entries@.len(),
            forall|j: int| i <= j < entries@.len() ==> entries@[j].0 != key,
        decreases i,
    {
        i = i - 1;
        if entries[i].0 == key {
            proof { lemma_id_index_of_last(entries@, key, i as int); }
            return Some(i);
        }
    }
    None
}

/// The code graph with its snapshots and per-intent bookkeeping.
#[derive(Debug)]
pub struct SmeltGraph {
    node_count: usize,
    edge_count: usize,
    snapshots: Vec<(String, GraphSnapshot)>,
    intent_map: Vec<(IntentId, Vec<u64>)>,
    tracked_files: Vec<String>,
}

impl SmeltGraph {
    /// Each commit has at most one stored snapshot.
    #[verifier::type_invariant]
    spec fn one_snapshot_per_commit(self) -> bool {
        forall|i: int, j: int|
            0 <= i < j < self.snapshots@.len() ==> self.snapshots@[i].0@ != self.snapshots@[j].0@
    }

    /// Nodes in the underlying code graph.
    pub closed spec fn nodes(&self) -> usize {
        self.node_count
    }

    /// Edges in the underlying code graph.
    pub closed spec fn edges(&self) -> usize {
        self.edge_count
    }

    /// The snapshot stored for a commit, if any.
    pub closed spec fn snapshot_for(&self, git_sha: Seq<char>) -> Option<GraphSnapshot> {
        let i = key_index(self.snapshots@, git_sha);
        if i >= 0 {
            Some(self.snapshots@[i].1)
        } else {
            None
        }
    }

    /// The stored snapshots, in the order they were first stored.
    pub closed spec fn stored(&self) -> Seq<GraphSnapshot> {
        self.snapshots@.map_values(|e: (String, GraphSnapshot)| e.1)
    }

    /// The nodes recorded for an intent, if it is tracked.
    pub closed spec fn intent_nodes(&self, id: IntentId) -> Option<Seq<u64>> {
        let i = id_index(self.intent_map@, id);
        if i >= 0 {
            Some(self.intent_map@[i].1@)
        } else {
            None
        }
    }

    /// The tracked files, in the order they were first indexed.
    pub closed spec fn files(&self) -> Seq<Seq<char>> {
        views_of(self.tracked_files@)
    }

    /// A graph over an underlying code graph with these counts, with no
    /// snapshots, intents or files yet.
    pub fn open(node_count: usize, edge_count: usize) -> (r: Self)
        ensures
            r.nodes() == node_count,
            r.edges() == edge_count,
            forall|sha: Seq<char>| r.snapshot_for(sha) is None,
            r.stored().len() == 0,
            forall|id: IntentId| r.intent_nodes(id) is None,
            r.files().len() == 0,
    {
        let r = SmeltGraph {
            node_count,
            edge_count,
            snapshots: Vec::new(),
            intent_map: Vec::new(),
            tracked_files: Vec::new(),
        };
        assert(r.files() =~= Seq::<Seq<char>>::empty());
        r
    }

    /// Nodes in the graph.
    pub fn node_count(&self) -> (r: usize)
        ensures
            r == self.nodes(),
    {
        self.node_count
    }

    /// Edges in the graph.
    pub fn edge_count(&self) -> (r: usize)
        ensures
            r == self.edges(),
    {
        self.edge_count
    }

    /// The tracked files.
    fn files_list(&self) -> (r: Vec<String>)
        ensures
            views_of(r@) == self.files(),
    {
        let r = self.tracked_files.clone();
        assert(r@ =~= self.tracked_files@);
        r
    }

    /// A snapshot of the current graph with the given id and time: its counts,
    /// its tracked files, no per-kind counts, and as checksum the hash of its
    /// counts, `counts_hash`, in lower-case hex.
    pub fn snapshot_at(&self, id: SnapshotId, timestamp: Timestamp, counts_hash: u64) -> (r:
        GraphSnapshot)
        ensures
            r.well_formed(),
            r.id == id,
            r.timestamp == timestamp,
            r.git_sha is None,
            r.node_count == self.nodes(),
            r.edge_count == self.edges(),
            r.nodes_by_kind@.len() == 0,
            views_of(r.files@) == self.files(),
            r.checksum@ == hex(counts_hash as nat),
    {
        let r = GraphSnapshot {
            id,
            timestamp,
            git_sha: None,
            node_count: self.node_count,
            edge_count: self.edge_count,
            nodes_by_kind: Vec::new(),
            files: self.files_list(),
            checksum: hex_string(counts_hash),
        };
        assert(kinds_of(r.nodes_by_kind@) =~= Seq::<Seq<char>>::empty());
        r
    }

    /// A snapshot of the current graph, with a fresh id, taken now; its
    /// checksum is the hash of its counts, in hex.
    pub fn snapshot(&self) -> (r: Result<GraphSnapshot, SmeltError>)
        ensures
            r matches Ok(s) && s.well_formed() && s.id & v4_mask() == v4_bits() && s.git_sha is None
                && s.node_count == self.nodes() && s.edge_count == self.edges()
                && s.nodes_by_kind@.len() == 0 && views_of(s.files@) == self.files() && exists|h: u64|
                s.checksum@ == hex(h as nat),
    {
        let id = new_id();
        let now = Timestamp::now();
        let h = hash_counts(self.node_count, self.edge_count);
        Ok(self.snapshot_at(id, now, h))
    }

    /// Starts tracking an intent with no nodes recorded yet (forgetting any
    /// recorded before), and gives the id of a baseline snapshot taken now.
    pub fn snapshot_for_intent(&mut self, intent_id: IntentId) -> (r: Result<SnapshotId, SmeltError>)
        ensures
            r matches Ok(id) && id != 0,
            final(self).intent_nodes(intent_id) == Some(Seq::<u64>::empty()),
            forall|other: IntentId|
                other != intent_id ==> final(self).intent_nodes(other) == old(self).intent_nodes(
                    other,
                ),
            forall|sha: Seq<char>| final(self).snapshot_for(sha) == old(self).snapshot_for(sha),
            final(self).stored() == old(self).stored(),
            final(self).files() == old(self).files(),
            final(self).nodes() == old(self).nodes(),
            final(self).edges() == old(self).edges(),
    {
        let fresh = new_id();
        proof { crate::ids::lemma_v4_not_nil(fresh); }
        let h = hash_counts(self.node_count, self.edge_count);
        let snapshot = self.snapshot_at(fresh, Timestamp::now(), h);
        let snapshot_id = snapshot.id;
        self.set_intent_nodes(intent_id, Vec::new());
        Ok(snapshot_id)
    }

    fn set_intent_nodes(&mut self, intent_id: IntentId, nodes: Vec<u64>)
        ensures
            final(self).intent_nodes(intent_id) == Some(nodes@),
            forall|other: IntentId|
                other != intent_id ==> final(self).intent_nodes(other) == old(self).intent_nodes(
                    other,
                ),
            final(self).snapshots == old(self).snapshots,
            final(self).tracked_files == old(self).tracked_files,
            final(self).node_count == old(self).node_count,
            final(self).edge_count == old(self).edge_count,
    {
        let ghost before = self.intent_map@;
        proof {
            use_type_invariant(&*self);
            lemma_id_index(before, intent_id);
        }
        match find_id(&self.intent_map, intent_id) {
            Some(i) => {
                let mut m = Vec::new();
                std::mem::swap(&mut m, &mut self.intent_map);
                m.set(i, (intent_id, nodes));
                self.intent_map = m;
                proof {
                    let after = self.intent_map@;
                    assert(after =~= before.update(i as int, (intent_id, nodes)));
                    lemma_id_index_of_last(after, intent_id, i as int);
                    assert forall|other: IntentId| other != intent_id implies id_index(after, other)
                        == id_index(before, other) by {
                        lemma_id_index(before, other);
                        lemma_id_index(after, other);
                        let k = id_index(before, other);
                        if k >= 0 {
                            assert(k != i);
                            assert forall|j: int| k < j < after.len() implies after[j].0 != other by {
                                if j != i {
                                    assert(after[j] == before[j]);
                                }
                            }
                            lemma_id_index_of_last(after, other, k);
                        } else {
                            assert forall|j: int| 0 <= j < after.len() implies after[j].0 != other by {
                                if j != i {
                                    assert(after[j] == before[j]);
                                }
                            }
                        }
                    }
                    assert forall|other: IntentId| other != intent_id implies self.intent_nodes(other)
                        == old(self).intent_nodes(other) by {
                        lemma_id_index(before, other);
                        let k = id_index(before, other);
                        if k >= 0 {
                            assert(k != i);
                            assert(after[k] == before[k]);
                        }
                    }
                }
            },
            None => {
                let mut m = Vec::new();
                std::mem::swap(&mut m, &mut self.intent_map);
                m.push((intent_id, nodes));
                self.intent_map = m;
                proof {
                    let after = self.intent_map@;
                    lemma_id_index_of_last(after, intent_id, before.len() as int);
                    assert forall|other: IntentId| other != intent_id implies id_index(after, other)
                        == id_index(before, other) by {
                        assert(after.drop_last() =~= before);
                    }
                    assert forall|other: IntentId| other != intent_id implies self.intent_nodes(other)
                        == old(self).intent_nodes(other) by {
                        lemma_id_index(before, other);
                        let k = id_index(before, other);
                        if k >= 0 {
                            assert(after[k] == before[k]);
                        }
                    }
                }
            },
        }
    }

    /// Stores a snapshot for a commit, recording the commit's SHA in it; a
    /// snapshot stored for the same commit before is replaced.
    pub fn store_snapshot(&mut self, git_sha: String, snapshot: GraphSnapshot)
        ensures
            final(self).snapshot_for(git_sha@) == Some(
                GraphSnapshot { git_sha: Some(git_sha), ..snapshot },
            ),
            forall|other: Seq<char>|
                other != git_sha@ ==> final(self).snapshot_for(other) == old(self).snapshot_for(other),
            forall|id: IntentId| final(self).intent_nodes(id) == old(self).intent_nodes(id),
            final(self).files() == old(self).files(),
            final(self).nodes() == old(self).nodes(),
            final(self).edges() == old(self).edges(),
    {
        let key = git_sha.clone();
        let stored = GraphSnapshot { git_sha: Some(git_sha), ..snapshot };
        let ghost before = self.snapshots@;
        proof {
            use_type_invariant(&*self);
            lemma_key_index(before, key@);
        }
        match find_key(&self.snapshots, key.as_str()) {
            Some(i) => {
                let mut v = Vec::new();
                std::mem::swap(&mut v, &mut self.snapshots);
                v.set(i, (key, stored));
                proof {
                    assert forall|a: int, b: int| 0 <= a < b < v@.len() implies v@[a].0@
                        != v@[b].0@ by {
                        assert(v@[a].0@ == before[a].0@);
                        assert(v@[b].0@ == before[b].0@);
                    }
                }
                self.snapshots = v;
                proof {
                    let after = self.snapshots@;
                    assert(after =~= before.update(i as int, (key, stored)));
                    assert forall|j: int| i < j < after.len() implies after[j].0@ != key@ by {
                        assert(after[j] == before[j]);
                    }
                    lemma_key_index_of_last(after, key@, i as int);
                    assert forall|other: Seq<char>| other != key@ implies self.snapshot_for(other)
                        == old(self).snapshot_for(other) by {
                        lemma_key_index(before, other);
                        lemma_key_index(after, other);
                        let k = key_index(before, other);
                        if k >= 0 {
                            assert(k != i);
                            assert forall|j: int| k < j < after.len() implies after[j].0@ != other by {
                                if j != i {
                                    assert(after[j] == before[j]);
                                }
                            }
                            lemma_key_index_of_last(after, other, k);
                            assert(after[k] == before[k]);
                        } else {
                            assert forall|j: int| 0 <= j < after.len() implies after[j].0@ != other by {
                                if j != i {
                                    assert(after[j] == before[j]);
                                }
                            }
                        }
                    }
                }
            },
            None => {
                let mut v = Vec::new();
                std::mem::swap(&mut v, &mut self.snapshots);
                v.push((key, stored));
                proof {
                    assert forall|a: int, b: int| 0 <= a < b < v@.len() implies v@[a].0@
                        != v@[b].0@ by {
                        assert(v@[a] == before[a]);
                        if b < before.len() {
                            assert(v@[b] == before[b]);
                        }
                    }
                }
                self.snapshots = v;
                proof {
                    let after = self.snapshots@;
                    lemma_key_index_of_last(after, key@, before.len() as int);
                    assert forall|other: Seq<char>| other != key@ implies self.snapshot_for(other)
                        == old(self).snapshot_for(other) by {
                        assert(after.drop_last() =~= before);
                        lemma_key_index(before, other);
                        let k = key_index(before, other);
                        if k >= 0 {
                            assert(after[k] == before[k]);
                        }
                    }
                }
            },
        }
    }

    /// The snapshot stored for a commit, if any.
    pub fn get_snapshot(&self, git_sha: &str) -> (r: Option<&GraphSnapshot>)
        ensures
            match r {
                Some(s) => self.snapshot_for(git_sha@) == Some(*s),
                None => self.snapshot_for(git_sha@) is None,
            },
    {
        match find_key(&self.snapshots, git_sha) {
            Some(i) => Some(&self.snapshots[i].1),
            None => None,
        }
    }

    /// The snapshot with the given id stored for the commit whose SHA comes
    /// first in the order of `str`, if any commit has one.
    pub fn get_snapshot_by_id(&self, id: SnapshotId) -> (r: Option<&GraphSnapshot>)
        ensures
            match r {
                Some(s) => s.id == id && exists|sha: Seq<char>|
                    #![trigger self.snapshot_for(sha)]
                    self.snapshot_for(sha) == Some(*s) && forall|other: Seq<char>|
                        #![trigger self.snapshot_for(other)]
                        (self.snapshot_for(other) matches Some(t) && t.id == id && other != sha)
                            ==> text_before(sha, other),
                None => forall|sha: Seq<char>|
                    #![trigger self.snapshot_for(sha)]
                    self.snapshot_for(sha) matches Some(t) ==> t.id != id,
            },
    {
        proof { use_type_invariant(self); }
        let ghost e = self.snapshots@;
        let mut best: Option<usize> = None;
        let mut i: usize = 0;
        while i < self.snapshots.len()
            invariant
                e == self.snapshots@,
                i <= e.len(),
                forall|a: int, b: int| 0 <= a < b < e.len() ==> e[a].0@ != e[b].0@,
                best matches Some(b) ==> b < i && e[b as int].1.id == id && forall|j: int|
                    0 <= j < i && j != b && e[j].1.id == id ==> text_before(
                        e[b as int].0@,
                        #[trigger] e[j].0@,
                    ),
                best is None ==> forall|j: int| 0 <= j < i ==> e[j].1.id != id,
            decreases self.snapshots.len() - i,
        {
            if self.snapshots[i].1.id == id {
                match best {
                    None => {
                        best = Some(i);
                    },
                    Some(b) => {
                        if str_before(self.snapshots[i].0.as_str(), self.snapshots[b].0.as_str()) {
                            proof {
                                assert forall|j: int|
                                    0 <= j < i + 1 && j != i && e[j].1.id == id implies text_before(
                                    e[i as int].0@,
                                    #[trigger] e[j].0@,
                                ) by {
                                    if j != b {
                                        lemma_bytes_before_transitive(
                                            encode_utf8(e[i as int].0@),
                                            encode_utf8(e[b as int].0@),
                                            encode_utf8(e[j].0@),
                                        );
                                    }
                                }
                            }
                            best = Some(i);
                        } else {
                            proof {
                                lemma_text_before_total(e[i as int].0@, e[b as int].0@);
                            }
                        }
                    },
                }
            }
            i = i + 1;
        }
        proof {
            assert forall|sha: Seq<char>|
                #![trigger self.snapshot_for(sha)]
                self.snapshot_for(sha) is Some implies key_index(e, sha) >= 0
                && e[key_index(e, sha)].0@ == sha && self.snapshot_for(sha) == Some(
                e[key_index(e, sha)].1,
            ) by {
                lemma_key_index(e, sha);
            }
        }
        match best {
            Some(b) => {
                proof {
                    let sha = e[b as int].0@;
                    lemma_key_index_of_last(e, sha, b as int);
                    assert(self.snapshot_for(sha) == Some(e[b as int].1));
                    assert forall|other: Seq<char>|
                        #![trigger self.snapshot_for(other)]
                        (self.snapshot_for(other) matches Some(t) && t.id == id && other != sha)
                            implies text_before(sha, other) by {
                        lemma_key_index(e, other);
                        let k = key_index(e, other);
                        assert(e[k].0@ == other);
                        assert(k != b);
                    }
                }
                Some(&self.snapshots[b].1)
            },
            None => {
                proof {
                    assert forall|sha: Seq<char>|
                        #![trigger self.snapshot_for(sha)]
                        self.snapshot_for(sha) is Some implies self.snapshot_for(sha)->0.id != id by {
                        lemma_key_index(e, sha);
                        let k = key_index(e, sha);
                        assert(e[k].1.id != id);
                    }
                }
                None
            },
        }
    }

    /// The snapshot stored for a commit, or an error naming the commit.
    pub fn query_at_commit(&self, commit: &str) -> (r: Result<&GraphSnapshot, SmeltError>)
        ensures
            match r {
                Ok(s) => self.snapshot_for(commit@) == Some(*s),
                Err(e) => self.snapshot_for(commit@) is None && (e matches SmeltError::SnapshotNotFound(
                    m,
                ) && m@ == commit@),
            },
    {
        match self.get_snapshot(commit) {
            Some(s) => Ok(s),
            None => Err(SmeltError::SnapshotNotFound(String::from_str(commit))),
        }
    }

    /// Starts tracking the given files; files already tracked, and repeats,
    /// are skipped.
    pub fn index_files(&mut self, files: &Vec<String>) -> (r: Result<(), SmeltError>)
        ensures
            r is Ok,
            final(self).files() == old(self).files() + pick(views_of(files@), old(self).files(), false),
            forall|sha: Seq<char>| final(self).snapshot_for(sha) == old(self).snapshot_for(sha),
            forall|id: IntentId| final(self).intent_nodes(id) == old(self).intent_nodes(id),
            final(self).nodes() == old(self).nodes(),
            final(self).edges() == old(self).edges(),
    {
        let ghost start = views_of(self.tracked_files@);
        let mut i: usize = 0;
        while i < files.len()
            invariant
                i <= files@.len(),
                views_of(self.tracked_files@) == start + pick(
                    views_of(files@).take(i as int),
                    start,
                    false,
                ),
                self.snapshots == old(self).snapshots,
                self.intent_map == old(self).intent_map,
                self.node_count == old(self).node_count,
                self.edge_count == old(self).edge_count,
                start == views_of(old(self).tracked_files@),
            decreases files.len() - i,
        {
            let ghost xv = views_of(files@);
            let ghost before = views_of(self.tracked_files@);
            let ghost picked = pick(xv.take(i as int), start, false);
            assert(xv.take(i + 1).drop_last() =~= xv.take(i as int));
            assert(xv.take(i + 1).last() == files@[i as int]@);
            let f = &files[i];
            let mut present = false;
            let mut k: usize = 0;
            while k < self.tracked_files.len()
                invariant
                    k <= self.tracked_files@.len(),
                    present == views_of(self.tracked_files@).take(k as int).contains(f@),
                decreases self.tracked_files.len() - k,
            {
                let ghost tv = views_of(self.tracked_files@);
                assert(tv.take(k + 1) =~= tv.take(k as int).push(tv[k as int]));
                assert(tv[k as int] == self.tracked_files@[k as int]@);
                let same = self.tracked_files[k] == *f;
                proof {
                    let a = tv.take(k as int);
                    let b = tv.take(k + 1);
                    if b.contains(f@) {
                        let w = choose|w: int| 0 <= w < b.len() && b[w] == f@;
                        if w < k {
                            assert(a[w] == f@);
                        }
                    }
                    if a.contains(f@) {
                        let w = choose|w: int| 0 <= w < a.len() && a[w] == f@;
                        assert(b[w] == f@);
                    }
                    if same {
                        assert(b[k as int] == f@);
                    }
                }
                if same {
                    present = true;
                }
                k = k + 1;
            }
            assert(views_of(self.tracked_files@).take(self.tracked_files@.len() as int) =~= views_of(
                self.tracked_files@,
            ));
            // a file is present exactly when it was tracked before or picked already
            assert(before.contains(f@) == (start.contains(f@) || picked.contains(f@))) by {
                if before.contains(f@) {
                    let w = choose|w: int| 0 <= w < before.len() && before[w] == f@;
                    if w >= start.len() {
                        assert(picked[w - start.len()] == f@);
                    }
                }
                if start.contains(f@) {
                    let w = choose|w: int| 0 <= w < start.len() && start[w] == f@;
                    assert(before[w] == f@);
                }
                if picked.contains(f@) {
                    let w = choose|w: int| 0 <= w < picked.len() && picked[w] == f@;
                    assert(before[start.len() + w] == f@);
                }
            }
            if !present {
                proof { use_type_invariant(&*self); }
                let mut t = Vec::new();
                std::mem::swap(&mut t, &mut self.tracked_files);
                t.push(f.clone());
                self.tracked_files = t;
                assert(views_of(self.tracked_files@) =~= before.push(f@));
                assert(start + picked.push(f@) =~= (start + picked).push(f@));
            }
            i = i + 1;
        }
        assert(views_of(files@).take(files@.len() as int) =~= views_of(files@));
        Ok(())
    }

    /// The nodes recorded for an intent, if it is tracked.
    pub fn nodes_for_intent(&self, intent_id: IntentId) -> (r: Option<&Vec<u64>>)
        ensures
            match r {
                Some(v) => self.intent_nodes(intent_id) == Some(v@),
                None => self.intent_nodes(intent_id) is None,
            },
    {
        match find_id(&self.intent_map, intent_id) {
            Some(i) => Some(&self.intent_map[i].1),
            None => None,
        }
    }

    /// Records nodes modified by an intent, after those recorded before; an
    /// intent not tracked yet starts with none.
    pub fn record_intent_nodes(&mut self, intent_id: IntentId, node_ids: Vec<u64>)
        ensures
            final(self).intent_nodes(intent_id) == Some(
                match old(self).intent_nodes(intent_id) {
                    Some(v) => v,
                    None => Seq::<u64>::empty(),
                } + node_ids@,
            ),
            forall|other: IntentId|
                other != intent_id ==> final(self).intent_nodes(other) == old(self).intent_nodes(
                    other,
                ),
            forall|sha: Seq<char>| final(self).snapshot_for(sha) == old(self).snapshot_for(sha),
            final(self).files() == old(self).files(),
            final(self).nodes() == old(self).nodes(),
            final(self).edges() == old(self).edges(),
    {
        let mut nodes: Vec<u64> = match find_id(&self.intent_map, intent_id) {
            Some(i) => self.intent_map[i].1.clone(),
            None => Vec::new(),
        };
        let ghost prior = nodes@;
        assert(prior == match self.intent_nodes(intent_id) {
            Some(v) => v,
            None => Seq::<u64>::empty(),
        });
        let mut extra = node_ids;
        nodes.append(&mut extra);
        self.set_intent_nodes(intent_id, nodes);
    }
}

/// What `store_snapshot` stores is what `get_snapshot` gives back for the same
/// commit, and other commits keep their snapshots.
pub proof fn lemma_store_then_get(before: SmeltGraph, after: SmeltGraph, git_sha: String, snapshot: GraphSnapshot, other: Seq<char>)
    requires
        after.snapshot_for(git_sha@) == Some(GraphSnapshot { git_sha: Some(git_sha), ..snapshot }),
        forall|o: Seq<char>| o != git_sha@ ==> after.snapshot_for(o) == before.snapshot_for(o),
    ensures
        after.snapshot_for(git_sha@) matches Some(s) && s.id == snapshot.id && s.git_sha == Some(
            git_sha,
        ) && s.files == snapshot.files,
        other != git_sha@ ==> after.snapshot_for(other) == before.snapshot_for(other),
{
}

} // verus!
