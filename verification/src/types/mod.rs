//! Core data: intents, semantic deltas and graph snapshots.

pub mod delta;
pub mod intent;
pub mod snapshot;

pub use delta::{DeltaId, DependencyType, ImpactSummary, SemanticChange, SemanticDelta, Visibility};
pub use intent::{Author, AuthorType, Constraint, ContextLinks, IntentId, IntentRecord, IntentStatus};
pub use snapshot::{GraphSnapshot, SnapshotId, SnapshotMetadata};
