//! The commit and init tools: which intent a commit fulfils, the message it
//! gets, and what is reported.

use vstd::prelude::*;
use vstd::string::StringSliceAdditionalSpecFns;
use vstd::utf8::{decode_utf8, encode_utf8, is_char_boundary};
use crate::ids::{id_to_string, uuid_text};
use crate::text::{decimal, decimal_string, head_bytes};
use crate::commands::commit::commit_delta;
use crate::ids::{v4_bits, v4_mask};
use crate::types::delta::{zero_impact, ImpactSummary, SemanticDelta};
use crate::types::intent::IntentRecord;
use crate::types::snapshot::SnapshotId;

verus! {

/// The first intent, in list order, that can still be worked on.
pub open spec fn first_active_in(s: Seq<IntentRecord>) -> Option<IntentRecord>
    decreases s.len(),
{
    if s.len() == 0 {
        None
    } else if s[0].status.is_active_spec() {
        Some(s[0])
    } else {
        first_active_in(s.skip(1))
    }
}

/// Picks the first intent that can still be worked on, when no intent was
/// named.
pub fn first_active(intents: Vec<IntentRecord>) -> (r: Option<IntentRecord>)
    ensures
        r == first_active_in(intents@),
{
    let mut rest = intents;
    let ghost all = rest@;
    while rest.len() > 0
        invariant
            all == intents@,
            first_active_in(rest@) == first_active_in(all),
        decreases rest.len(),
    {
        let ghost before = rest@;
        let x = rest.remove(0);
        proof {
            assert(before[0] == x);
            assert(rest@ =~= before.skip(1));
        }
        if x.status.is_active() {
            assert(first_active_in(before) == Some(x));
            return Some(x);
        }
    }
    None
}

/// The commit message: the user's message, followed, when the commit
/// fulfils an intent, by the intent's id and goal.
pub open spec fn commit_message_text(message: Seq<char>, intent: Option<IntentRecord>) -> Seq<char> {
    match intent {
        Some(i) => message + "\n\n[smelt] intent: "@ + uuid_text(i.id) + "\ngoal: "@ + i.goal@,
        None => message,
    }
}

/// Builds the commit message.
pub fn commit_message(message: &str, intent: Option<&IntentRecord>) -> (r: String)
    ensures
        r@ == commit_message_text(message@, match intent {
            Some(i) => Some(*i),
            None => None,
        }),
{
    let mut r = String::from_str(message);
    match intent {
        Some(i) => {
            r.append("\n\n[smelt] intent: ");
            let id = id_to_string(i.id);
            r.append(id.as_str());
            r.append("\ngoal: ");
            r.append(i.goal.as_str());
        },
        None => {},
    }
    r
}

/// The semantic delta attached to a commit of the intent it fulfils, if any:
/// for an intent with a baseline, the delta from that baseline to the
/// snapshot taken at the commit, with the number of staged files as the files
/// affected. A commit without an intent, or of an intent without a baseline,
/// carries none.
pub fn commit_delta_for(intent: Option<&IntentRecord>, current: SnapshotId, staged: usize) -> (r:
    Option<SemanticDelta>)
    ensures
        match intent {
            Some(i) => match i.baseline_snapshot_id {
                Some(b) => r matches Some(d) && d.id & v4_mask() == v4_bits() && d.intent_id == i.id
                    && d.from_snapshot == b && d.to_snapshot == current && d.changes@.len() == 0
                    && d.impact_summary == ImpactSummary { files_affected: staged, ..zero_impact() },
                None => r is None,
            },
            None => r is None,
        },
{
    match intent {
        Some(i) => commit_delta(i, current, staged),
        None => None,
    }
}

/// A commit needs staged changes.
pub fn require_staged(staged: usize) -> (r: Result<(), String>)
    ensures
        staged > 0 <==> r is Ok,
        staged == 0 ==> (r matches Err(m) && m@
            == "No staged changes to commit. Use 'git add' to stage changes first."@),
{
    if staged == 0 {
        Err(String::from_str("No staged changes to commit. Use 'git add' to stage changes first."))
    } else {
        Ok(())
    }
}

/// Whether a commit SHA can be shortened to its first 8 bytes.
pub open spec fn shortenable(sha: Seq<char>) -> bool {
    8 <= encode_utf8(sha).len() && is_char_boundary(encode_utf8(sha), 8)
}

/// The report of a commit made through the tool.
pub open spec fn commit_report_text(
    sha: Seq<char>,
    message: Seq<char>,
    files_changed: nat,
    intent_named: bool,
) -> Seq<char> {
    "✅ Commit created successfully!\n\n"@ + "SHA: "@ + decode_utf8(encode_utf8(sha).subrange(0, 8))
        + "\n"@ + "Message: "@ + message + "\n"@ + "Files changed: "@ + decimal(files_changed)
        + "\n"@ + if intent_named {
        "\n📋 Intent marked as committed.\n"@
    } else {
        Seq::empty()
    } + "\n💡 Tip: Use smelt_memory_capture to save this experience for future reference."@
}

/// Reports a commit: its short SHA, the user's message, how many files it
/// changed, and whether an intent named in the call was marked committed.
pub fn commit_report(sha: &str, message: &str, files_changed: usize, intent_named: bool) -> (r:
    String)
    requires
        shortenable(sha@),
    ensures
        r@ == commit_report_text(sha@, message@, files_changed as nat, intent_named),
{
    let mut r = String::from_str("✅ Commit created successfully!\n\n");
    r.append("SHA: ");
    let head = head_bytes(sha, 8);
    r.append(head.as_str());
    r.append("\n");
    r.append("Message: ");
    r.append(message);
    r.append("\n");
    r.append("Files changed: ");
    let n = decimal_string(files_changed as u64);
    r.append(n.as_str());
    r.append("\n");
    let mut note = String::new();
    if intent_named {
        note.append("\n📋 Intent marked as committed.\n");
    }
    r.append(note.as_str());
    r.append("\n💡 Tip: Use smelt_memory_capture to save this experience for future reference.");
    r
}

/// What the init tool does once it knows the session is not open: stop
/// with an answer, or go on to create the `.smelt` directory.
#[derive(Debug)]
pub enum InitStep {
    /// Stop with this outcome.
    Done(Result<String, String>),
    /// Create a new configuration.
    Initialize,
}

/// Decides from the outcome of loading an existing configuration: one that
/// loaded is reported, a missing one is created, and a failure to look is
/// an error.
pub fn init_step(load: Result<bool, String>) -> (r: InitStep)
    ensures
        load == Ok::<bool, String>(true) ==> (r matches InitStep::Done(Ok(m)) && m@
            == "Smelt initialized successfully (loaded existing configuration)."@),
        load == Ok::<bool, String>(false) ==> r is Initialize,
        load matches Err(e) ==> (r matches InitStep::Done(Err(m)) && m@
            == "Failed to check existing configuration: "@ + e@),
{
    match load {
        Ok(true) => InitStep::Done(
            Ok(String::from_str("Smelt initialized successfully (loaded existing configuration).")),
        ),
        Ok(false) => InitStep::Initialize,
        Err(e) => {
            let mut m = String::from_str("Failed to check existing configuration: ");
            m.append(e.as_str());
            InitStep::Done(Err(m))
        },
    }
}

/// The answer when the session's project is already loaded.
pub fn already_initialized() -> (r: String)
    ensures
        r@ == "Smelt is already initialized in this directory."@,
{
    String::from_str("Smelt is already initialized in this directory.")
}

/// The report of a fresh initialization.
pub open spec fn init_report_text() -> Seq<char> {
    "✅ Smelt initialized successfully!\n\n"@ + "Created .smelt/ directory with:\n"@
        + "  - smelt.db (intent and delta storage)\n"@ + "  - graph/ (code graph)\n"@
        + "  - memory/ (episodic memory)\n"@ + "\nNext steps:\n"@
        + "  1. Create an intent: smelt_intent_create\n"@ + "  2. Make your changes\n"@
        + "  3. Check status: smelt_status\n"@ + "  4. Validate changes: smelt_validate\n"@
        + "  5. Commit: smelt_commit\n"@
}

/// Reports a fresh initialization.
pub fn init_report() -> (r: String)
    ensures
        r@ == init_report_text(),
{
    let mut r = String::from_str("✅ Smelt initialized successfully!\n\n");
    r.append("Created .smelt/ directory with:\n");
    r.append("  - smelt.db (intent and delta storage)\n");
    r.append("  - graph/ (code graph)\n");
    r.append("  - memory/ (episodic memory)\n");
    r.append("\nNext steps:\n");
    r.append("  1. Create an intent: smelt_intent_create\n");
    r.append("  2. Make your changes\n");
    r.append("  3. Check status: smelt_status\n");
    r.append("  4. Validate changes: smelt_validate\n");
    r.append("  5. Commit: smelt_commit\n");
    r
}

} // verus!
