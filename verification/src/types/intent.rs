//! Intents: structured declarations of a desired change, and their lifecycle.

use vstd::prelude::*;
use crate::time::Timestamp;
use super::snapshot::SnapshotId;

verus! {

/// Identifier of an intent (a UUID as its 128-bit value).
pub type IntentId = u128;

/// Structured declaration of a desired change.
#[derive(Debug, Clone)]
pub struct IntentRecord {
    /// Unique identifier.
    pub id: IntentId,
    /// When the intent was created.
    pub created_at: Timestamp,
    /// Who created it.
    pub author: Author,
    /// What is to be achieved, in plain words.
    pub goal: String,
    /// Why the change is made.
    pub rationale: Option<String>,
    /// Constraints the change must satisfy.
    pub constraints: Vec<Constraint>,
    /// Links to issues, pull requests and documents.
    pub context_links: ContextLinks,
    /// Where the intent stands in its lifecycle.
    pub status: IntentStatus,
    /// Snapshot of the code graph taken when the intent was created.
    pub baseline_snapshot_id: Option<SnapshotId>,
}

/// Author of an intent or change.
#[derive(Debug, Clone)]
pub struct Author {
    /// Display name.
    pub name: String,
    /// Email address.
    pub email: String,
    /// Human, AI or both.
    pub author_type: AuthorType,
}

/// Kind of author.
#[derive(Clone, Copy, Debug, PartialEq, Eq, Structural)]
pub enum AuthorType {
    /// A human developer.
    Human,
    /// An AI assistant.
    AI,
    /// Human and AI together.
    Hybrid,
}

/// A constraint that a change must satisfy.
#[derive(Debug, Clone)]
pub struct Constraint {
    /// Constraint name or kind.
    pub name: String,
    /// Its value or description.
    pub value: String,
    /// Whether it is a hard requirement.
    pub required: bool,
}

/// Links to outside context.
#[derive(Debug, Clone)]
pub struct ContextLinks {
    /// Issue URLs.
    pub issues: Vec<String>,
    /// Pull request URLs.
    pub pull_requests: Vec<String>,
    /// Documentation URLs.
    pub documentation: Vec<String>,
    /// Other URLs.
    pub other: Vec<String>,
}

impl Default for ContextLinks {
    /// No links at all.
    fn default() -> (r: Self)
        ensures
            r.issues@.len() == 0,
            r.pull_requests@.len() == 0,
            r.documentation@.len() == 0,
            r.other@.len() == 0,
    {
        ContextLinks {
            issues: Vec::new(),
            pull_requests: Vec::new(),
            documentation: Vec::new(),
            other: Vec::new(),
        }
    }
}

/// Where an intent stands in its lifecycle.
#[derive(Debug, Clone, PartialEq)]
pub enum IntentStatus {
    /// Being drafted.
    Draft,
    /// Being worked on.
    InProgress,
    /// Waiting for validation.
    PendingValidation,
    /// Passed all validation checks.
    Validated,
    /// Committed to git.
    Committed {
        /// The commit's SHA.
        git_sha: String,
    },
    /// Failed validation or was rejected.
    Rejected {
        /// The violations found.
        violations: Vec<String>,
    },
    /// Given up by its author.
    Abandoned,
}

impl IntentStatus {
    /// A terminal status: committed, rejected or abandoned.
    pub open spec fn is_terminal_spec(&self) -> bool {
        self is Committed || self is Rejected || self is Abandoned
    }

    /// An active status: one that can still be worked on.
    pub open spec fn is_active_spec(&self) -> bool {
        self is Draft || self is InProgress || self is PendingValidation || self is Validated
    }

    /// Whether the intent is in a terminal state.
    pub fn is_terminal(&self) -> (r: bool)
        ensures
            r == self.is_terminal_spec(),
    {
        match self {
            IntentStatus::Committed { .. } | IntentStatus::Rejected { .. } | IntentStatus::Abandoned => true,
            _ => false,
        }
    }

    /// Whether the intent can still be worked on.
    pub fn is_active(&self) -> (r: bool)
        ensures
            r == self.is_active_spec(),
    {
        match self {
            IntentStatus::Draft | IntentStatus::InProgress | IntentStatus::PendingValidation
            | IntentStatus::Validated => true,
            _ => false,
        }
    }

    /// Every status is either active or terminal, and never both.
    pub proof fn lemma_active_iff_not_terminal(&self)
        ensures
            self.is_active_spec() <==> !self.is_terminal_spec(),
    {
    }
}

} // verus!
