//! Errors of the library, with their messages and recovery suggestions.

use vstd::prelude::*;
use crate::text::{decimal, decimal_string};

verus! {

/// What can go wrong in Smelt. Errors of outside libraries (the database,
/// JSON, I/O) are carried as their message text.
#[derive(Debug)]
pub enum SmeltError {
    /// Graph error.
    Graph(String),
    /// A snapshot was not found.
    SnapshotNotFound(String),
    /// A snapshot could not be captured.
    SnapshotCapture(String),
    /// A delta could not be computed.
    DeltaComputation(String),
    /// The graph database is corrupted.
    GraphCorrupted(String),
    /// The database reported an error.
    Database(String),
    /// An intent was not found.
    IntentNotFound(String),
    /// A delta was not found.
    DeltaNotFound(String),
    /// The database is corrupted.
    DatabaseCorrupted(String),
    /// The database is locked by another process.
    DatabaseLocked,
    /// Git reported an error.
    Git(String),
    /// Not inside a git repository.
    NotAGitRepository,
    /// Git has no author configured.
    GitAuthorNotConfigured,
    /// The repository has no commits.
    EmptyRepository,
    /// A git reference was not found.
    GitRefNotFound(String),
    /// The working directory has uncommitted changes.
    UncommittedChanges,
    /// Serialization failed.
    Serialization(String),
    /// Validation failed.
    Validation(String),
    /// A constraint was violated.
    ConstraintViolation(String),
    /// An I/O error.
    Io(String),
    /// A file exceeds the size limit.
    FileTooLarge { path: String, size_mb: u64, limit_mb: u64 },
    /// Permission was denied.
    PermissionDenied(String),
    /// Text could not be parsed.
    Parse(String),
    /// Configuration error.
    Config(String),
    /// Smelt is not initialized here.
    NotInitialized,
    /// Smelt is already initialized here.
    AlreadyInitialized,
    /// Recovery failed.
    RecoveryFailed(String),
    /// A backup is corrupted.
    BackupCorrupted(String),
    /// Any other error.
    Other(String),
}

impl SmeltError {
    /// Errors that the user can recover from by acting.
    pub open spec fn is_recoverable_spec(&self) -> bool {
        self is DatabaseLocked || self is UncommittedChanges || self is NotInitialized
    }

    /// The suggestion shown for an error, if it has one.
    pub open spec fn suggestion_spec(&self) -> Option<Seq<char>> {
        match self {
            SmeltError::NotInitialized => Some("Run 'smelt init' to initialize Smelt."@),
            SmeltError::NotAGitRepository => Some("Initialize a git repository with 'git init' first."@),
            SmeltError::GitAuthorNotConfigured => Some(
                "Configure git author with 'git config user.name' and 'git config user.email'."@,
            ),
            SmeltError::EmptyRepository => Some("Create at least one commit before using Smelt."@),
            SmeltError::UncommittedChanges => Some("Commit or stash your changes before proceeding."@),
            SmeltError::DatabaseLocked => Some("Close other Smelt processes or wait for them to finish."@),
            SmeltError::DatabaseCorrupted(_) => Some("Try 'smelt doctor --fix' to repair the database."@),
            SmeltError::GraphCorrupted(_) => Some("Try 'smelt doctor --fix' or restore from backup."@),
            SmeltError::BackupCorrupted(_) => Some("Use 'smelt backup verify' to check backups."@),
            SmeltError::AlreadyInitialized => Some("Smelt is already set up in this directory."@),
            _ => None,
        }
    }

    /// Whether this error is recoverable.
    pub fn is_recoverable(&self) -> (r: bool)
        ensures
            r == self.is_recoverable_spec(),
    {
        match self {
            SmeltError::DatabaseLocked | SmeltError::UncommittedChanges | SmeltError::NotInitialized => true,
            _ => false,
        }
    }

    /// A suggestion for fixing the error, for the errors that have one.
    pub fn suggestion(&self) -> (r: Option<&'static str>)
        ensures
            match r {
                Some(s) => self.suggestion_spec() == Some(s@),
                None => self.suggestion_spec() is None,
            },
    {
        match self {
            SmeltError::NotInitialized => Some("Run 'smelt init' to initialize Smelt."),
            SmeltError::NotAGitRepository => Some("Initialize a git repository with 'git init' first."),
            SmeltError::GitAuthorNotConfigured => Some(
                "Configure git author with 'git config user.name' and 'git config user.email'.",
            ),
            SmeltError::EmptyRepository => Some("Create at least one commit before using Smelt."),
            SmeltError::UncommittedChanges => Some("Commit or stash your changes before proceeding."),
            SmeltError::DatabaseLocked => Some("Close other Smelt processes or wait for them to finish."),
            SmeltError::DatabaseCorrupted(_) => Some("Try 'smelt doctor --fix' to repair the database."),
            SmeltError::GraphCorrupted(_) => Some("Try 'smelt doctor --fix' or restore from backup."),
            SmeltError::BackupCorrupted(_) => Some("Use 'smelt backup verify' to check backups."),
            SmeltError::AlreadyInitialized => Some("Smelt is already set up in this directory."),
            _ => None,
        }
    }

    /// The text the error displays.
    pub open spec fn message_spec(&self) -> Seq<char> {
        match self {
            SmeltError::Graph(s) => "Graph error: "@ + s@,
            SmeltError::SnapshotNotFound(s) => "Snapshot not found: "@ + s@,
            SmeltError::SnapshotCapture(s) => "Failed to capture snapshot: "@ + s@,
            SmeltError::DeltaComputation(s) => "Failed to compute delta: "@ + s@,
            SmeltError::GraphCorrupted(s) => "Graph database corrupted: "@ + s@,
            SmeltError::Database(s) => "Database error: "@ + s@,
            SmeltError::IntentNotFound(s) => "Intent not found: "@ + s@,
            SmeltError::DeltaNotFound(s) => "Delta not found: "@ + s@,
            SmeltError::DatabaseCorrupted(s) => "Database corrupted: "@ + s@,
            SmeltError::DatabaseLocked => "Database locked: another process may be using it"@,
            SmeltError::Git(s) => "Git error: "@ + s@,
            SmeltError::NotAGitRepository => "Not a git repository"@,
            SmeltError::GitAuthorNotConfigured => "Git author not configured"@,
            SmeltError::EmptyRepository => "Empty repository: no commits found"@,
            SmeltError::GitRefNotFound(s) => "Git reference not found: "@ + s@,
            SmeltError::UncommittedChanges => "Working directory has uncommitted changes"@,
            SmeltError::Serialization(s) => "Serialization error: "@ + s@,
            SmeltError::Validation(s) => "Validation failed: "@ + s@,
            SmeltError::ConstraintViolation(s) => "Constraint violation: "@ + s@,
            SmeltError::Io(s) => "IO error: "@ + s@,
            SmeltError::FileTooLarge { path, size_mb, limit_mb } => "File too large: "@ + path@
                + " ("@ + decimal(*size_mb as nat) + " MB exceeds limit of "@ + decimal(
                *limit_mb as nat,
            ) + " MB)"@,
            SmeltError::PermissionDenied(s) => "Permission denied: "@ + s@,
            SmeltError::Parse(s) => "Parse error: "@ + s@,
            SmeltError::Config(s) => "Configuration error: "@ + s@,
            SmeltError::NotInitialized => "Smelt not initialized. Run 'smelt init' first."@,
            SmeltError::AlreadyInitialized => "Smelt already initialized in this directory"@,
            SmeltError::RecoveryFailed(s) => "Recovery failed: "@ + s@,
            SmeltError::BackupCorrupted(s) => "Backup corrupted: "@ + s@,
            SmeltError::Other(s) => s@,
        }
    }

    /// The text the error displays.
    pub fn message(&self) -> (r: String)
        ensures
            r@ == self.message_spec(),
    {
        match self {
            SmeltError::Graph(s) => join2("Graph error: ", s),
            SmeltError::SnapshotNotFound(s) => join2("Snapshot not found: ", s),
            SmeltError::SnapshotCapture(s) => join2("Failed to capture snapshot: ", s),
            SmeltError::DeltaComputation(s) => join2("Failed to compute delta: ", s),
            SmeltError::GraphCorrupted(s) => join2("Graph database corrupted: ", s),
            SmeltError::Database(s) => join2("Database error: ", s),
            SmeltError::IntentNotFound(s) => join2("Intent not found: ", s),
            SmeltError::DeltaNotFound(s) => join2("Delta not found: ", s),
            SmeltError::DatabaseCorrupted(s) => join2("Database corrupted: ", s),
            SmeltError::DatabaseLocked => String::from_str("Database locked: another process may be using it"),
            SmeltError::Git(s) => join2("Git error: ", s),
            SmeltError::NotAGitRepository => String::from_str("Not a git repository"),
            SmeltError::GitAuthorNotConfigured => String::from_str("Git author not configured"),
            SmeltError::EmptyRepository => String::from_str("Empty repository: no commits found"),
            SmeltError::GitRefNotFound(s) => join2("Git reference not found: ", s),
            SmeltError::UncommittedChanges => String::from_str("Working directory has uncommitted changes"),
            SmeltError::Serialization(s) => join2("Serialization error: ", s),
            SmeltError::Validation(s) => join2("Validation failed: ", s),
            SmeltError::ConstraintViolation(s) => join2("Constraint violation: ", s),
            SmeltError::Io(s) => join2("IO error: ", s),
            SmeltError::FileTooLarge { path, size_mb, limit_mb } => {
                let mut r = join2("File too large: ", path);
                r.append(" (");
                let size = decimal_string(*size_mb);
                r.append(size.as_str());
                r.append(" MB exceeds limit of ");
                let limit = decimal_string(*limit_mb);
                r.append(limit.as_str());
                r.append(" MB)");
                r
            },
            SmeltError::PermissionDenied(s) => join2("Permission denied: ", s),
            SmeltError::Parse(s) => join2("Parse error: ", s),
            SmeltError::Config(s) => join2("Configuration error: ", s),
            SmeltError::NotInitialized => String::from_str("Smelt not initialized. Run 'smelt init' first."),
            SmeltError::AlreadyInitialized => String::from_str("Smelt already initialized in this directory"),
            SmeltError::RecoveryFailed(s) => join2("Recovery failed: ", s),
            SmeltError::BackupCorrupted(s) => join2("Backup corrupted: ", s),
            SmeltError::Other(s) => s.clone(),
        }
    }
}

/// `prefix` followed by `s`.
fn join2(prefix: &str, s: &String) -> (r: String)
    ensures
        r@ == prefix@ + s@,
{
    let mut r = String::from_str(prefix);
    r.append(s.as_str());
    r
}

} // verus!
