//! `smelt sync`: which commits are not tracked yet, how they are listed,
//! and the synthetic intents made for them.

use vstd::prelude::*;
use vstd::utf8::{decode_utf8, encode_utf8};
use crate::cli::short_id;
use crate::git::CommitInfo;
use crate::ids::{new_id, uuid_text, v4_bits, v4_mask};
use crate::mcp::commit::shortenable;
use crate::text::{decimal, decimal_string, head_bytes, join_texts, joined};
use crate::time::minute_text;
use crate::types::intent::{Author, AuthorType, ContextLinks, IntentRecord, IntentStatus};

verus! {

/// The views of a list of texts.
pub open spec fn views(s: Seq<String>) -> Seq<Seq<char>> {
    s.map_values(|t: String| t@)
}

/// A short list of files: all of them when there are at most three, else
/// the first three and how many more.
pub open spec fn files_preview_text(files: Seq<String>) -> Seq<char> {
    if files.len() <= 3 {
        joined(views(files), ", "@)
    } else {
        joined(views(files.take(3)), ", "@) + ", ... (+"@ + decimal((files.len() - 3) as nat)
            + " more)"@
    }
}

/// Lists a commit's files briefly.
pub fn files_preview(files: &Vec<String>) -> (r: String)
    ensures
        r@ == files_preview_text(files@),
{
    if files.len() <= 3 {
        return join_texts(files, ", ");
    }
    let mut first: Vec<String> = Vec::new();
    first.push(files[0].clone());
    first.push(files[1].clone());
    first.push(files[2].clone());
    assert(first@ =~= files@.take(3));
    let mut r = join_texts(&first, ", ");
    r.append(", ... (+");
    let n = decimal_string((files.len() - 3) as u64);
    r.append(n.as_str());
    r.append(" more)");
    r
}

/// How an untracked commit is listed, numbered from one.
pub open spec fn untracked_entry_of(index: nat, c: CommitInfo) -> Seq<char> {
    "  "@ + decimal(index + 1) + ". ["@ + decode_utf8(encode_utf8(c.sha@).subrange(0, 8)) + "] "@
        + c.summary@ + " ("@ + minute_text(c.timestamp.secs_spec(), c.timestamp.nanos_spec())
        + ")\n"@ + "      Author: "@ + c.author_name@ + " <"@ + c.author_email@ + ">\n"@
        + if c.files_changed@.len() > 0 {
        "      Files: "@ + files_preview_text(c.files_changed@) + "\n"@
    } else {
        Seq::empty()
    } + "\n"@
}

/// Lists one untracked commit; `index` counts from zero.
pub fn untracked_entry(index: usize, c: &CommitInfo) -> (r: String)
    requires
        index < usize::MAX,
        shortenable(c.sha@),
    ensures
        r@ == untracked_entry_of(index as nat, *c),
{
    let mut r = String::from_str("  ");
    let n = decimal_string((index + 1) as u64);
    r.append(n.as_str());
    r.append(". [");
    let h = head_bytes(c.sha.as_str(), 8);
    r.append(h.as_str());
    r.append("] ");
    r.append(c.summary.as_str());
    r.append(" (");
    let t = c.timestamp.to_minute_text();
    r.append(t.as_str());
    r.append(")\n");
    r.append("      Author: ");
    r.append(c.author_name.as_str());
    r.append(" <");
    r.append(c.author_email.as_str());
    r.append(">\n");
    let mut f = String::new();
    if c.files_changed.len() > 0 {
        f.append("      Files: ");
        let p = files_preview(&c.files_changed);
        f.append(p.as_str());
        f.append("\n");
    }
    r.append(f.as_str());
    r.append("\n");
    r
}

/// The intent made for a commit that Smelt did not track: the commit's
/// summary as goal, its author and time, marked as synthetic, in progress
/// until it is stored as committed.
pub fn synthetic_intent(c: &CommitInfo) -> (r: IntentRecord)
    ensures
        r.id & v4_mask() == v4_bits(),
        r.goal == c.summary,
        r.created_at == c.timestamp,
        r.author.name == c.author_name,
        r.author.email == c.author_email,
        r.author.author_type == AuthorType::Human,
        r.rationale matches Some(t) && t@ == "Synthetic intent created by smelt sync"@,
        r.constraints@.len() == 0,
        r.status is InProgress,
        r.baseline_snapshot_id is None,
{
    IntentRecord {
        id: new_id(),
        created_at: c.timestamp,
        author: Author {
            name: c.author_name.clone(),
            email: c.author_email.clone(),
            author_type: AuthorType::Human,
        },
        goal: c.summary.clone(),
        rationale: Some(String::from_str("Synthetic intent created by smelt sync")),
        constraints: Vec::new(),
        context_links: ContextLinks::default(),
        status: IntentStatus::InProgress,
        baseline_snapshot_id: None,
    }
}

/// The line telling of a synthetic intent made for a commit.
pub fn synthetic_created_line(intent_id: u128, sha: &str) -> (r: String)
    requires
        shortenable(sha@),
    ensures
        r@ == "  Created intent "@ + uuid_text(intent_id).subrange(0, 8) + " for commit "@
            + decode_utf8(encode_utf8(sha@).subrange(0, 8)),
{
    let mut r = String::from_str("  Created intent ");
    let i = short_id(intent_id);
    r.append(i.as_str());
    r.append(" for commit ");
    let h = head_bytes(sha, 8);
    r.append(h.as_str());
    r
}

/// The number of tracked and of untracked commits among those scanned.
pub open spec fn tracked_counts(flags: Seq<bool>) -> (nat, nat)
    decreases flags.len(),
{
    if flags.len() == 0 {
        (0, 0)
    } else {
        let (t, u) = tracked_counts(flags.drop_last());
        if flags.last() {
            (t + 1, u)
        } else {
            (t, u + 1)
        }
    }
}

/// Counts tracked and untracked commits.
pub fn count_tracked(flags: &Vec<bool>) -> (r: (usize, usize))
    ensures
        r.0 as nat == tracked_counts(flags@).0,
        r.1 as nat == tracked_counts(flags@).1,
        r.0 + r.1 == flags@.len(),
{
    let mut t: usize = 0;
    let mut u: usize = 0;
    let mut k: usize = 0;
    while k < flags.len()
        invariant
            k <= flags@.len(),
            t as nat == tracked_counts(flags@.take(k as int)).0,
            u as nat == tracked_counts(flags@.take(k as int)).1,
            t + u == k,
        decreases flags.len() - k,
    {
        assert(flags@.take(k + 1).drop_last() =~= flags@.take(k as int));
        if flags[k] {
            t = t + 1;
        } else {
            u = u + 1;
        }
        k = k + 1;
    }
    assert(flags@.take(flags@.len() as int) =~= flags@);
    (t, u)
}

/// What a scan found: that everything is tracked, or how many commits are not.
pub fn scan_summary(untracked: usize, scanned: usize) -> (r: String)
    ensures
        untracked == 0 ==> r@ == "All "@ + decimal(scanned as nat) + " commits are tracked by Smelt."@,
        untracked > 0 ==> r@ == "Found "@ + decimal(untracked as nat) + " untracked commits (out of "@
            + decimal(scanned as nat) + " scanned):"@,
{
    if untracked == 0 {
        let mut r = String::from_str("All ");
        let n = decimal_string(scanned as u64);
        r.append(n.as_str());
        r.append(" commits are tracked by Smelt.");
        r
    } else {
        let mut r = String::from_str("Found ");
        let u = decimal_string(untracked as u64);
        r.append(u.as_str());
        r.append(" untracked commits (out of ");
        let n = decimal_string(scanned as u64);
        r.append(n.as_str());
        r.append(" scanned):");
        r
    }
}

/// The sync status report.
pub open spec fn sync_status_text_of(scanned: nat, known: nat, untracked: nat) -> Seq<char> {
    "Sync Status\n"@ + "-----------\n"@ + "Commits scanned: "@ + decimal(scanned) + "\n"@
        + "Tracked by Smelt: "@ + decimal(known) + "\n"@ + "Untracked: "@ + decimal(untracked)
        + "\n"@ + if untracked > 0 {
        "\nRun 'smelt sync' to create synthetic intents for untracked commits.\n"@
    } else {
        Seq::empty()
    }
}

/// Reports how many of the scanned commits Smelt tracks.
pub fn sync_status_text(scanned: usize, known: usize, untracked: usize) -> (r: String)
    ensures
        r@ == sync_status_text_of(scanned as nat, known as nat, untracked as nat),
{
    let mut r = String::from_str("Sync Status\n");
    r.append("-----------\n");
    r.append("Commits scanned: ");
    let a = decimal_string(scanned as u64);
    r.append(a.as_str());
    r.append("\n");
    r.append("Tracked by Smelt: ");
    let b = decimal_string(known as u64);
    r.append(b.as_str());
    r.append("\n");
    r.append("Untracked: ");
    let c = decimal_string(untracked as u64);
    r.append(c.as_str());
    r.append("\n");
    let mut tip = String::new();
    if untracked > 0 {
        tip.append("\nRun 'smelt sync' to create synthetic intents for untracked commits.\n");
    }
    r.append(tip.as_str());
    r
}

} // verus!
