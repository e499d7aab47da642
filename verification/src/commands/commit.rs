//! `smelt commit`: which intent is committed, what is staged, the delta
//! recorded, whether validation lets the commit through, and the report.

use vstd::prelude::*;
use crate::cli::short_id;
use crate::error::SmeltError;
use crate::graph::SmeltGraph;
use crate::ids::{new_id, uuid_text, v4_bits, v4_mask};
use crate::mcp::commit::shortenable;
use crate::mcp::validate::{of_severity, opt_line, Severity, Violation};
use crate::text::{decimal, decimal_string, head_bytes};
use crate::time::Timestamp;
use crate::types::delta::{zero_impact, ImpactSummary, SemanticDelta};
use crate::types::intent::{Author, AuthorType, ContextLinks, IntentRecord, IntentStatus};
use crate::types::snapshot::SnapshotId;
use vstd::utf8::{decode_utf8, encode_utf8};

verus! {

/// Where the intent of a commit comes from.
#[derive(Debug)]
pub enum CommitSource {
    /// An existing intent, by id prefix.
    Named(String),
    /// A new intent with this goal, made on the spot.
    Inline(String),
    /// The first intent in progress.
    Active,
}

/// A named intent comes first, then an inline goal, then the intent in
/// progress.
pub fn commit_source(intent_id: Option<String>, goal: Option<String>) -> (r: CommitSource)
    ensures
        intent_id matches Some(i) ==> r == CommitSource::Named(i),
        intent_id is None && goal is Some ==> r == CommitSource::Inline(goal->0),
        intent_id is None && goal is None ==> r is Active,
{
    match intent_id {
        Some(i) => CommitSource::Named(i),
        None => match goal {
            Some(g) => CommitSource::Inline(g),
            None => CommitSource::Active,
        },
    }
}

/// The intent a prefix found, or `IntentNotFound` with the prefix.
pub fn named_intent(prefix: String, found: Option<IntentRecord>) -> (r: Result<IntentRecord, SmeltError>)
    ensures
        found matches Some(i) ==> r == Ok::<IntentRecord, SmeltError>(i),
        found is None ==> r == Err::<IntentRecord, SmeltError>(SmeltError::IntentNotFound(prefix)),
{
    match found {
        Some(i) => Ok(i),
        None => Err(SmeltError::IntentNotFound(prefix)),
    }
}

/// A new intent of a human author: the goal and rationale given, in
/// progress, with no constraints or links, and with a baseline snapshot
/// taken in the graph, which starts tracking it.
pub fn human_intent(
    graph: &mut SmeltGraph,
    goal: String,
    rationale: Option<String>,
    name: String,
    email: String,
) -> (r: Result<IntentRecord, SmeltError>)
    ensures
        r is Ok,
        r matches Ok(i) ==> i.id & v4_mask() == v4_bits() && i.goal == goal && i.rationale == rationale && i.author.name == name
            && i.author.email == email && i.author.author_type == AuthorType::Human
            && i.constraints@.len() == 0 && i.context_links.issues@.len() == 0
            && i.context_links.pull_requests@.len() == 0 && i.context_links.documentation@.len() == 0
            && i.context_links.other@.len() == 0 && i.status is InProgress
            && (i.baseline_snapshot_id matches Some(s) && s != 0) && final(graph).intent_nodes(i.id)
            == Some(Seq::<u64>::empty()),
        r is Ok ==> forall|other: u128|
            (r matches Ok(i) && other != i.id) ==> final(graph).intent_nodes(other)
                == old(graph).intent_nodes(other),
        forall|sha: Seq<char>| final(graph).snapshot_for(sha) == old(graph).snapshot_for(sha),
        final(graph).stored() == old(graph).stored(),
        final(graph).files() == old(graph).files(),
{
    let intent_id = new_id();
    let snapshot_id = match graph.snapshot_for_intent(intent_id) {
        Ok(s) => s,
        Err(e) => return Err(e),
    };
    Ok(IntentRecord {
        id: intent_id,
        created_at: Timestamp::now(),
        author: Author { name, email, author_type: AuthorType::Human },
        goal,
        rationale,
        constraints: Vec::new(),
        context_links: ContextLinks::default(),
        status: IntentStatus::InProgress,
        baseline_snapshot_id: Some(snapshot_id),
    })
}

/// The first of the intents in progress, if any.
pub fn pick_active(intents: Vec<IntentRecord>) -> (r: Option<IntentRecord>)
    ensures
        intents@.len() == 0 ==> r is None,
        intents@.len() > 0 ==> r == Some(intents@[0]),
{
    let mut intents = intents;
    if intents.len() == 0 {
        None
    } else {
        Some(intents.remove(0))
    }
}

/// What is said when there is no intent in progress to commit.
pub fn no_active_intent_text() -> (r: &'static str)
    ensures
        r@ == "No active intent found.\n\nOptions:\n  1. Create an intent first:  smelt intent create --goal \"Your goal\"\n  2. Specify intent inline:   smelt commit --goal \"Your goal\"\n  3. Use existing intent:     smelt commit --intent <id>\n"@,
{
    "No active intent found.\n\nOptions:\n  1. Create an intent first:  smelt intent create --goal \"Your goal\"\n  2. Specify intent inline:   smelt commit --goal \"Your goal\"\n  3. Use existing intent:     smelt commit --intent <id>\n"
}

/// The line naming the intent being committed.
pub fn committing_text(intent: &IntentRecord) -> (r: String)
    ensures
        r@ == "Committing intent: "@ + uuid_text(intent.id).subrange(0, 8) + " ("@ + intent.goal@
            + ")"@,
{
    let mut r = String::from_str("Committing intent: ");
    let s = short_id(intent.id);
    r.append(s.as_str());
    r.append(" (");
    r.append(intent.goal.as_str());
    r.append(")");
    r
}

/// What is said when there is nothing to commit.
pub fn nothing_to_commit_text() -> (r: &'static str)
    ensures
        r@ == "No changes to commit.\n\nYour working directory is clean. Make some code changes first,\nthen run 'smelt commit' again.\n"@,
{
    "No changes to commit.\n\nYour working directory is clean. Make some code changes first,\nthen run 'smelt commit' again.\n"
}

/// Whether to stage the changed files, and what to say: when nothing is
/// staged yet, all changed files are staged; otherwise what is staged is
/// committed as it is.
pub fn stage_plan(changed: usize, staged: usize) -> (r: (bool, String))
    ensures
        r.0 == (staged == 0),
        staged == 0 ==> r.1@ == "  Staged "@ + decimal(changed as nat) + " files"@,
        staged > 0 ==> r.1@ == "  "@ + decimal(staged as nat) + " files already staged"@,
{
    if staged == 0 {
        let mut m = String::from_str("  Staged ");
        let n = decimal_string(changed as u64);
        m.append(n.as_str());
        m.append(" files");
        (true, m)
    } else {
        let mut m = String::from_str("  ");
        let n = decimal_string(staged as u64);
        m.append(n.as_str());
        m.append(" files already staged");
        (false, m)
    }
}

/// The delta recorded with a commit, when the intent has a baseline: from
/// the baseline to the current snapshot, with the number of changed files
/// as its only impact so far.
pub fn commit_delta(intent: &IntentRecord, current: SnapshotId, changed: usize) -> (r: Option<
    SemanticDelta,
>)
    ensures
        intent.baseline_snapshot_id is None ==> r is None,
        intent.baseline_snapshot_id matches Some(b) ==> (r matches Some(d) && d.id & v4_mask()
            == v4_bits() && d.intent_id == intent.id
            && d.from_snapshot == b && d.to_snapshot == current && d.changes@.len() == 0
            && d.impact_summary == ImpactSummary { files_affected: changed, ..zero_impact() }),
{
    match intent.baseline_snapshot_id {
        None => None,
        Some(baseline) => {
            let mut impact = ImpactSummary::default();
            impact.files_affected = changed;
            Some(SemanticDelta {
                id: new_id(),
                intent_id: intent.id,
                timestamp: Timestamp::now(),
                from_snapshot: baseline,
                to_snapshot: current,
                changes: Vec::new(),
                impact_summary: impact,
            })
        },
    }
}

/// The warnings as a commit shows them.
pub open spec fn commit_warning_lines(vs: Seq<Violation>) -> Seq<char>
    decreases vs.len(),
{
    if vs.len() == 0 {
        Seq::empty()
    } else {
        let v = vs.last();
        commit_warning_lines(vs.drop_last()) + "    ⚠️  "@ + v.rule@ + " - "@ + v.message@ + "\n"@
            + opt_line("       → "@, v.suggestion)
    }
}

/// The errors as a commit shows them.
pub open spec fn commit_error_lines(vs: Seq<Violation>) -> Seq<char>
    decreases vs.len(),
{
    if vs.len() == 0 {
        Seq::empty()
    } else {
        let v = vs.last();
        commit_error_lines(vs.drop_last()) + "    ❌ "@ + v.rule@ + " - "@ + v.message@ + "\n"@
            + opt_line("       at "@, v.location) + opt_line("       → "@, v.suggestion)
    }
}

fn opt_text(before: &str, text: &Option<String>) -> (r: String)
    ensures
        r@ == opt_line(before@, *text),
{
    let mut r = String::new();
    match text {
        Some(t) => {
            r.append(before);
            r.append(t.as_str());
            r.append("\n");
        },
        None => {},
    }
    r
}

/// Shows the warnings of a validation during a commit.
pub fn commit_warnings(vs: &Vec<Violation>) -> (r: String)
    ensures
        r@ == commit_warning_lines(of_severity(vs@, Severity::Warning)),
{
    let mut r = String::new();
    let mut k: usize = 0;
    while k < vs.len()
        invariant
            k <= vs@.len(),
            r@ == commit_warning_lines(of_severity(vs@.take(k as int), Severity::Warning)),
        decreases vs.len() - k,
    {
        let ghost p = of_severity(vs@.take(k as int), Severity::Warning);
        assert(vs@.take(k + 1).drop_last() =~= vs@.take(k as int));
        let v = &vs[k];
        if v.severity == Severity::Warning {
            assert(p.push(*v).drop_last() =~= p);
            r.append("    ⚠️  ");
            r.append(v.rule.as_str());
            r.append(" - ");
            r.append(v.message.as_str());
            r.append("\n");
            let s = opt_text("       → ", &v.suggestion);
            r.append(s.as_str());
        }
        k = k + 1;
    }
    assert(vs@.take(vs@.len() as int) =~= vs@);
    r
}

/// Shows the errors of a validation during a commit.
pub fn commit_errors(vs: &Vec<Violation>) -> (r: String)
    ensures
        r@ == commit_error_lines(of_severity(vs@, Severity::Error)),
{
    let mut r = String::new();
    let mut k: usize = 0;
    while k < vs.len()
        invariant
            k <= vs@.len(),
            r@ == commit_error_lines(of_severity(vs@.take(k as int), Severity::Error)),
        decreases vs.len() - k,
    {
        let ghost p = of_severity(vs@.take(k as int), Severity::Error);
        assert(vs@.take(k + 1).drop_last() =~= vs@.take(k as int));
        let v = &vs[k];
        if v.severity == Severity::Error {
            assert(p.push(*v).drop_last() =~= p);
            r.append("    ❌ ");
            r.append(v.rule.as_str());
            r.append(" - ");
            r.append(v.message.as_str());
            r.append("\n");
            let a = opt_text("       at ", &v.location);
            r.append(a.as_str());
            let s = opt_text("       → ", &v.suggestion);
            r.append(s.as_str());
        }
        k = k + 1;
    }
    assert(vs@.take(vs@.len() as int) =~= vs@);
    r
}

/// Whether validation lets a commit through: with errors it fails with
/// their count and how to bypass; otherwise it passes, noting warnings.
pub fn commit_validation_verdict(error_count: usize, warning_count: usize) -> (r: Result<
    String,
    String,
>)
    ensures
        error_count > 0 ==> (r matches Err(m) && m@ == "Validation failed: "@ + decimal(
            error_count as nat,
        ) + " error(s), "@ + decimal(warning_count as nat)
            + " warning(s). Use --skip-validation to bypass."@),
        error_count == 0 && warning_count > 0 ==> (r matches Ok(m) && m@
            == "    Validation: passed with "@ + decimal(warning_count as nat) + " warning(s)"@),
        error_count == 0 && warning_count == 0 ==> (r matches Ok(m) && m@
            == "    Validation: passed"@),
{
    if error_count > 0 {
        let mut m = String::from_str("Validation failed: ");
        let e = decimal_string(error_count as u64);
        m.append(e.as_str());
        m.append(" error(s), ");
        let w = decimal_string(warning_count as u64);
        m.append(w.as_str());
        m.append(" warning(s). Use --skip-validation to bypass.");
        Err(m)
    } else if warning_count > 0 {
        let mut m = String::from_str("    Validation: passed with ");
        let w = decimal_string(warning_count as u64);
        m.append(w.as_str());
        m.append(" warning(s)");
        Ok(m)
    } else {
        Ok(String::from_str("    Validation: passed"))
    }
}

/// The report of a finished commit.
pub open spec fn committed_text_of(sha: Seq<char>, intent_id: u128, delta: Option<SemanticDelta>) -> Seq<
    char,
> {
    "\n Committed: "@ + decode_utf8(encode_utf8(sha).subrange(0, 8)) + "\n"@ + "   Intent: "@
        + uuid_text(intent_id).subrange(0, 8) + "\n"@ + match delta {
        Some(d) => "   Delta:  "@ + uuid_text(d.id).subrange(0, 8) + "\n"@ + "   Files:  "@
            + decimal(d.impact_summary.files_affected as nat) + " changed\n"@,
        None => Seq::empty(),
    }
}

/// Reports a finished commit: its short SHA, the intent, and the delta
/// recorded if any.
pub fn committed_text(sha: &str, intent_id: u128, delta: Option<&SemanticDelta>) -> (r: String)
    requires
        shortenable(sha@),
    ensures
        r@ == committed_text_of(sha@, intent_id, match delta {
            Some(d) => Some(*d),
            None => None,
        }),
{
    let mut r = String::from_str("\n Committed: ");
    let h = head_bytes(sha, 8);
    r.append(h.as_str());
    r.append("\n");
    r.append("   Intent: ");
    let i = short_id(intent_id);
    r.append(i.as_str());
    r.append("\n");
    let mut d = String::new();
    match delta {
        Some(x) => {
            d.append("   Delta:  ");
            let s = short_id(x.id);
            d.append(s.as_str());
            d.append("\n");
            d.append("   Files:  ");
            let n = decimal_string(x.impact_summary.files_affected as u64);
            d.append(n.as_str());
            d.append(" changed\n");
        },
        None => {},
    }
    r.append(d.as_str());
    r
}

} // verus!

verus! {

/// Where a commit stands once its intent is known.
#[derive(Clone, Copy, Debug, PartialEq, Eq, Structural)]
pub enum CommitPhase {
    /// The changed and staged files are being counted.
    Counting,
    /// The files to commit are being staged.
    Staging,
    /// The delta is being validated.
    Validating,
    /// The commit is being made.
    Committing,
    /// Nothing more is to be done.
    Finished,
}

/// What the application reports back to a commit in progress.
#[derive(Debug)]
pub enum CommitEvent {
    /// The files changed in the working tree, and those already staged.
    Counted { changed: usize, staged: usize },
    /// The files to commit are staged.
    Staged,
    /// The validator's counts of errors and warnings.
    Validated { errors: usize, warnings: usize },
    /// The commit was made, with this SHA.
    Committed { sha: String },
}

/// What the application does next for a commit in progress.
#[derive(Debug)]
pub enum CommitAction {
    /// Nothing changed: stop without committing.
    NothingToCommit,
    /// Stage every changed file (`all`), or keep what is staged.
    Stage { all: bool },
    /// Validate the commit's delta.
    Validate,
    /// Stop without committing: validation failed with this message.
    Refuse(String),
    /// Make the commit, showing the validation verdict if validation ran.
    Commit { note: Option<String> },
    /// Record the commit: store its delta, if any, give the intent this
    /// status, and store the current snapshot under the commit.
    Record { status: IntentStatus },
    /// The event does not belong to this phase: nothing to do.
    Ignore,
}

/// The next phase and action of a commit, given whether validation is to be
/// skipped and whether a delta was computed. The steps come in this order:
/// count the files (and stop if none changed), stage them, validate the delta
/// when there is one and validation is not skipped (and stop if it finds
/// errors), commit, and record the commit with the intent marked committed
/// under its SHA. So a commit is only made after validation passed or was not
/// run, and a failed validation ends the commit.
pub fn commit_step(phase: CommitPhase, skip_validation: bool, has_delta: bool, event: CommitEvent) -> (r: (
    CommitPhase,
    CommitAction,
))
    ensures
        match (phase, event) {
            (CommitPhase::Counting, CommitEvent::Counted { changed, staged }) => if changed == 0 {
                r.0 == CommitPhase::Finished && r.1 is NothingToCommit
            } else {
                r.0 == CommitPhase::Staging && (r.1 matches CommitAction::Stage { all } && all == (
                staged == 0))
            },
            (CommitPhase::Staging, CommitEvent::Staged) => if !skip_validation && has_delta {
                r.0 == CommitPhase::Validating && r.1 is Validate
            } else {
                r.0 == CommitPhase::Committing && (r.1 matches CommitAction::Commit { note }
                    && note is None)
            },
            (CommitPhase::Validating, CommitEvent::Validated { errors, warnings }) => if errors > 0 {
                r.0 == CommitPhase::Finished && (r.1 matches CommitAction::Refuse(m) && m@
                    == "Validation failed: "@ + decimal(errors as nat) + " error(s), "@ + decimal(
                    warnings as nat,
                ) + " warning(s). Use --skip-validation to bypass."@)
            } else if warnings > 0 {
                r.0 == CommitPhase::Committing && (r.1 matches CommitAction::Commit { note }
                    && note matches Some(t) && t@ == "    Validation: passed with "@ + decimal(
                    warnings as nat,
                ) + " warning(s)"@)
            } else {
                r.0 == CommitPhase::Committing && (r.1 matches CommitAction::Commit { note }
                    && note matches Some(t) && t@ == "    Validation: passed"@)
            },
            (CommitPhase::Committing, CommitEvent::Committed { sha }) => r.0 == CommitPhase::Finished
                && (r.1 matches CommitAction::Record { status } && status matches IntentStatus::Committed {
                git_sha,
            } && git_sha == sha),
            _ => r.0 == phase && r.1 is Ignore,
        },
{
    match (phase, event) {
        (CommitPhase::Counting, CommitEvent::Counted { changed, staged }) => {
            if changed == 0 {
                (CommitPhase::Finished, CommitAction::NothingToCommit)
            } else {
                (CommitPhase::Staging, CommitAction::Stage { all: staged == 0 })
            }
        },
        (CommitPhase::Staging, CommitEvent::Staged) => {
            if !skip_validation && has_delta {
                (CommitPhase::Validating, CommitAction::Validate)
            } else {
                (CommitPhase::Committing, CommitAction::Commit { note: None })
            }
        },
        (CommitPhase::Validating, CommitEvent::Validated { errors, warnings }) => {
            match commit_validation_verdict(errors, warnings) {
                Ok(line) => (CommitPhase::Committing, CommitAction::Commit { note: Some(line) }),
                Err(failure) => (CommitPhase::Finished, CommitAction::Refuse(failure)),
            }
        },
        (CommitPhase::Committing, CommitEvent::Committed { sha }) => {
            (CommitPhase::Finished, CommitAction::Record { status: IntentStatus::Committed { git_sha: sha } })
        },
        (p, _) => (p, CommitAction::Ignore),
    }
}

} // verus!
