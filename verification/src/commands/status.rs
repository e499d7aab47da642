//! `smelt status`: which changed files are shown, and the recent intents
//! in the full report.

use vstd::prelude::*;
use vstd::string::StringSliceAdditionalSpecFns;
use vstd::utf8::encode_utf8;
use crate::cli::short_id;
use crate::ids::uuid_text;
use crate::mcp::intents::capped;
use crate::text::{contains, contains_bytes, starts_with, starts_with_bytes, str_eq};
use crate::types::intent::{IntentRecord, IntentStatus};

verus! {

/// Whether a path lies in Smelt's own directory: it is `.smelt` or starts
/// with the component `.smelt`, or has a `/.smelt/` component inside.
pub open spec fn internal_path(p: Seq<char>) -> bool {
    p == ".smelt"@ || starts_with_bytes(encode_utf8(p), encode_utf8(".smelt/"@)) || contains_bytes(
        encode_utf8(p),
        encode_utf8("/.smelt/"@),
    )
}

/// Decides whether a path lies in Smelt's own directory.
pub fn is_internal_path(p: &str) -> (r: bool)
    ensures
        r == internal_path(p@),
{
    str_eq(p, ".smelt") || starts_with(p, ".smelt/") || contains(p, "/.smelt/")
}

/// The paths outside Smelt's own directory, in order.
pub open spec fn visible(s: Seq<String>) -> Seq<String>
    decreases s.len(),
{
    if s.len() == 0 {
        Seq::empty()
    } else if internal_path(s.last()@) {
        visible(s.drop_last())
    } else {
        visible(s.drop_last()).push(s.last())
    }
}

/// Keeps the changed files outside Smelt's own directory.
pub fn visible_changes(files: Vec<String>) -> (r: Vec<String>)
    ensures
        r@ == visible(files@),
{
    let mut rest = files;
    let ghost all = rest@;
    let ghost mut k: int = 0;
    let mut r: Vec<String> = Vec::new();
    while rest.len() > 0
        invariant
            0 <= k <= all.len(),
            rest@ == all.skip(k),
            r@ == visible(all.take(k)),
        decreases rest.len(),
    {
        let x = rest.remove(0);
        proof {
            assert(all.skip(k)[0] == x);
            assert(rest@ =~= all.skip(k + 1));
            assert(all.take(k + 1).drop_last() =~= all.take(k));
            assert(all.take(k + 1).last() == x);
            k = k + 1;
        }
        if !is_internal_path(x.as_str()) {
            r.push(x);
        }
    }
    proof {
        assert(all.take(k) =~= all);
    }
    r
}

/// The word a full status report uses for an intent's status.
pub open spec fn recent_word(s: IntentStatus) -> Seq<char> {
    match s {
        IntentStatus::Committed { .. } => "committed"@,
        IntentStatus::InProgress => "in progress"@,
        IntentStatus::Rejected { .. } => "rejected"@,
        _ => "other"@,
    }
}

/// One line per intent: short id, goal and status word.
pub open spec fn recent_lines(s: Seq<IntentRecord>) -> Seq<char>
    decreases s.len(),
{
    if s.len() == 0 {
        Seq::empty()
    } else {
        recent_lines(s.drop_last()) + "  "@ + uuid_text(s.last().id).subrange(0, 8) + " - "@
            + s.last().goal@ + " ("@ + recent_word(s.last().status) + ")\n"@
    }
}

/// The recent intents of a full status report: the first five.
pub fn recent_intents(intents: &Vec<IntentRecord>) -> (r: String)
    ensures
        r@ == recent_lines(capped(intents@, 5)),
{
    let mut r = String::new();
    let mut k: usize = 0;
    while k < intents.len() && k < 5
        invariant
            k <= intents@.len(),
            k <= 5,
            r@ == recent_lines(intents@.take(k as int)),
        decreases intents.len() - k,
    {
        assert(intents@.take(k + 1).drop_last() =~= intents@.take(k as int));
        let i = &intents[k];
        r.append("  ");
        let s = short_id(i.id);
        r.append(s.as_str());
        r.append(" - ");
        r.append(i.goal.as_str());
        r.append(" (");
        let w = match &i.status {
            IntentStatus::Committed { .. } => "committed",
            IntentStatus::InProgress => "in progress",
            IntentStatus::Rejected { .. } => "rejected",
            _ => "other",
        };
        r.append(w);
        r.append(")\n");
        k = k + 1;
    }
    assert(capped(intents@, 5) =~= intents@.take(k as int));
    r
}

} // verus!
