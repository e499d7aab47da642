//! Semantic deltas: a machine-readable account of what a change means.

use vstd::prelude::*;
use crate::time::Timestamp;
use super::intent::IntentId;
use super::snapshot::SnapshotId;

verus! {

/// Identifier of a semantic delta.
pub type DeltaId = u128;

/// The meaning of a change between two snapshots.
#[derive(Debug, Clone)]
pub struct SemanticDelta {
    /// Unique identifier.
    pub id: DeltaId,
    /// The intent this delta fulfils.
    pub intent_id: IntentId,
    /// When it was computed.
    pub timestamp: Timestamp,
    /// Snapshot before the change.
    pub from_snapshot: SnapshotId,
    /// Snapshot after the change.
    pub to_snapshot: SnapshotId,
    /// The changes, one by one.
    pub changes: Vec<SemanticChange>,
    /// Summary of their impact.
    pub impact_summary: ImpactSummary,
}

/// One semantic change between snapshots.
#[derive(Debug, Clone)]
pub enum SemanticChange {
    /// A function was added.
    FunctionAdded { name: String, file: String, signature: String, is_public: bool },
    /// A function was removed (breaking if it was public).
    FunctionRemoved { name: String, file: String, was_public: bool },
    /// A function's signature changed.
    SignatureChanged {
        name: String,
        file: String,
        old_signature: String,
        new_signature: String,
        is_breaking: bool,
    },
    /// A function's body changed; positive complexity means more complex.
    BodyModified { name: String, file: String, complexity_delta: i32 },
    /// A type was added.
    TypeAdded { name: String, file: String, kind: String, is_public: bool },
    /// A type was removed.
    TypeRemoved { name: String, file: String, was_public: bool },
    /// A type's definition changed.
    TypeModified {
        name: String,
        file: String,
        fields_added: Vec<String>,
        fields_removed: Vec<String>,
        is_breaking: bool,
    },
    /// A dependency was added.
    DependencyAdded { from: String, to: String, dependency_type: DependencyType },
    /// A dependency was removed.
    DependencyRemoved { from: String, to: String, dependency_type: DependencyType },
    /// Visibility changed.
    VisibilityChanged {
        name: String,
        file: String,
        old_visibility: Visibility,
        new_visibility: Visibility,
    },
    /// A file was added.
    FileAdded { path: String, symbol_count: usize },
    /// A file was removed.
    FileRemoved { path: String, symbol_count: usize },
    /// A module or namespace was reorganised.
    ModuleReorganized { description: String, affected_paths: Vec<String> },
}

/// Kind of dependency.
#[derive(Clone, Copy, Debug, PartialEq, Eq, Structural)]
pub enum DependencyType {
    /// A function call.
    Call,
    /// An import.
    Import,
    /// A reference to a type.
    TypeReference,
    /// Inheritance or implementation.
    Inheritance,
    /// A field of the type.
    Composition,
}

/// Visibility level.
#[derive(Clone, Copy, Debug, PartialEq, Eq, Structural)]
pub enum Visibility {
    /// Public API.
    Public,
    /// Internal to a crate or module.
    Internal,
    /// Private.
    Private,
}

/// Summary of a delta's impact.
#[derive(Clone, Copy, Debug, PartialEq, Eq, Structural)]
pub struct ImpactSummary {
    /// Files affected.
    pub files_affected: usize,
    /// Functions added.
    pub functions_added: usize,
    /// Functions removed.
    pub functions_removed: usize,
    /// Functions modified (body or signature).
    pub functions_modified: usize,
    /// Types added.
    pub types_added: usize,
    /// Types removed.
    pub types_removed: usize,
    /// Types modified.
    pub types_modified: usize,
    /// Dependencies added.
    pub dependencies_added: usize,
    /// Dependencies removed.
    pub dependencies_removed: usize,
    /// Breaking changes.
    pub breaking_changes: usize,
    /// New public symbols.
    pub new_public_api: usize,
    /// Sum of all complexity changes.
    pub complexity_delta: i32,
}

/// The summary with every count zero.
pub open spec fn zero_impact() -> ImpactSummary {
    ImpactSummary {
        files_affected: 0,
        functions_added: 0,
        functions_removed: 0,
        functions_modified: 0,
        types_added: 0,
        types_removed: 0,
        types_modified: 0,
        dependencies_added: 0,
        dependencies_removed: 0,
        breaking_changes: 0,
        new_public_api: 0,
        complexity_delta: 0,
    }
}

impl Default for ImpactSummary {
    /// The summary with every count zero.
    fn default() -> (r: Self)
        ensures
            r == zero_impact(),
    {
        ImpactSummary {
            files_affected: 0,
            functions_added: 0,
            functions_removed: 0,
            functions_modified: 0,
            types_added: 0,
            types_removed: 0,
            types_modified: 0,
            dependencies_added: 0,
            dependencies_removed: 0,
            breaking_changes: 0,
            new_public_api: 0,
            complexity_delta: 0,
        }
    }
}

impl ImpactSummary {
    /// Number of function and type changes of every kind.
    pub open spec fn total_changes(self) -> int {
        self.functions_added + self.functions_removed + self.functions_modified + self.types_added
            + self.types_removed + self.types_modified
    }

    /// The risk of the delta in percent, before the cap: 30 per breaking change,
    /// 15 per removed function or type, 2 per changed symbol, and 1 per unit of
    /// added complexity.
    pub open spec fn raw_risk_percent(self) -> int {
        30 * self.breaking_changes + 15 * self.functions_removed + 15 * self.types_removed
            + 2 * self.total_changes() + if self.complexity_delta > 0 {
            self.complexity_delta as int
        } else {
            0
        }
    }

    /// Whether this delta has any breaking change.
    pub fn has_breaking_changes(&self) -> (r: bool)
        ensures
            r == (self.breaking_changes > 0),
    {
        self.breaking_changes > 0
    }

    /// Whether this delta adds to the public API.
    pub fn expands_public_api(&self) -> (r: bool)
        ensures
            r == (self.new_public_api > 0),
    {
        self.new_public_api > 0
    }

    /// The risk score in percent (0 to 100): the raw risk, capped at 100.
    pub fn risk_score_percent(&self) -> (r: u64)
        requires
            self.total_changes() <= usize::MAX,
        ensures
            r <= 100,
            r == if self.raw_risk_percent() < 100 { self.raw_risk_percent() } else { 100 },
    {
        let total: u128 = self.functions_added as u128 + self.functions_removed as u128
            + self.functions_modified as u128 + self.types_added as u128
            + self.types_removed as u128 + self.types_modified as u128;
        let mut score: u128 = 30 * (self.breaking_changes as u128) + 15
            * (self.functions_removed as u128) + 15 * (self.types_removed as u128) + 2 * total;
        if self.complexity_delta > 0 {
            score = score + self.complexity_delta as u128;
        }
        if score < 100 {
            score as u64
        } else {
            100
        }
    }
}

} // verus!

verus! {

/// How each count weighs in the risk before the cap: one more removed type
/// or removed function raises it by 17 points (15 for the removal and 2 as a
/// changed symbol), one more added or modified function or type by 2, one
/// more breaking change by 30; files and dependencies do not weigh.
pub proof fn lemma_risk_weights(s: ImpactSummary)
    requires
        s.types_removed < usize::MAX,
        s.functions_removed < usize::MAX,
        s.functions_added < usize::MAX,
        s.types_added < usize::MAX,
        s.functions_modified < usize::MAX,
        s.types_modified < usize::MAX,
        s.breaking_changes < usize::MAX,
        s.files_affected < usize::MAX,
        s.dependencies_removed < usize::MAX,
    ensures
        (ImpactSummary { types_removed: (s.types_removed + 1) as usize, ..s }).raw_risk_percent()
            == s.raw_risk_percent() + 17,
        (ImpactSummary { functions_removed: (s.functions_removed + 1) as usize, ..s }).raw_risk_percent()
            == s.raw_risk_percent() + 17,
        (ImpactSummary { functions_added: (s.functions_added + 1) as usize, ..s }).raw_risk_percent()
            == s.raw_risk_percent() + 2,
        (ImpactSummary { types_added: (s.types_added + 1) as usize, ..s }).raw_risk_percent()
            == s.raw_risk_percent() + 2,
        (ImpactSummary { functions_modified: (s.functions_modified + 1) as usize, ..s }).raw_risk_percent()
            == s.raw_risk_percent() + 2,
        (ImpactSummary { types_modified: (s.types_modified + 1) as usize, ..s }).raw_risk_percent()
            == s.raw_risk_percent() + 2,
        (ImpactSummary { breaking_changes: (s.breaking_changes + 1) as usize, ..s }).raw_risk_percent()
            == s.raw_risk_percent() + 30,
        (ImpactSummary { files_affected: (s.files_affected + 1) as usize, ..s }).raw_risk_percent()
            == s.raw_risk_percent(),
        (ImpactSummary { dependencies_removed: (s.dependencies_removed + 1) as usize, ..s }).raw_risk_percent()
            == s.raw_risk_percent(),
{
}

/// The risk of a change that only removes types or functions: 17 points for
/// each removed type and each removed function, with nothing else counted.
pub proof fn lemma_risk_of_removals(functions_removed: usize, types_removed: usize)
    ensures
        (ImpactSummary { functions_removed, types_removed, ..zero_impact() }).raw_risk_percent() == 17
            * functions_removed + 17 * types_removed,
{
}

} // verus!
