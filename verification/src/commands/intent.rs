//! `smelt intent`: what is said of a created intent, a listing, and one
//! intent in full.

use vstd::prelude::*;
use crate::cli::{format_status, formattable, short_id, status_text};
use crate::ids::{id_to_string, uuid_text};
use crate::mcp::status::named_constraint_lines;
use crate::time::{minute_text, second_text};
use crate::types::intent::IntentRecord;
use crate::types::snapshot::SnapshotId;

verus! {

/// What is said of a newly created intent.
pub open spec fn created_intent_text_of(intent_id: u128, goal: Seq<char>, baseline: SnapshotId) -> Seq<
    char,
> {
    "Created intent: "@ + uuid_text(intent_id).subrange(0, 8) + "\n\n"@ + "  Goal: "@ + goal
        + "\n"@ + "  Status: In Progress\n"@ + "  Baseline snapshot: "@ + uuid_text(
        baseline,
    ).subrange(0, 8) + "\n\n"@
        + "Now make your code changes, then run 'smelt status' to see semantic changes.\n"@
}

/// Tells of a newly created intent: its short id, goal and baseline.
pub fn created_intent_text(intent_id: u128, goal: &str, baseline: SnapshotId) -> (r: String)
    ensures
        r@ == created_intent_text_of(intent_id, goal@, baseline),
{
    let mut r = String::from_str("Created intent: ");
    let i = short_id(intent_id);
    r.append(i.as_str());
    r.append("\n\n");
    r.append("  Goal: ");
    r.append(goal);
    r.append("\n");
    r.append("  Status: In Progress\n");
    r.append("  Baseline snapshot: ");
    let b = short_id(baseline);
    r.append(b.as_str());
    r.append("\n\n");
    r.append("Now make your code changes, then run 'smelt status' to see semantic changes.\n");
    r
}

/// The two lines of one intent in a listing.
pub open spec fn listed_intent(i: IntentRecord) -> Seq<char> {
    "  "@ + " "@ + " "@ + uuid_text(i.id).subrange(0, 8) + " - "@ + i.goal@ + "\n"@
        + "      Created: "@ + minute_text(i.created_at.secs_spec(), i.created_at.nanos_spec())
        + " | Status: "@ + status_text(i.status) + "\n"@
}

/// The lines of intents in a listing.
pub open spec fn listed_intents(s: Seq<IntentRecord>) -> Seq<char>
    decreases s.len(),
{
    if s.len() == 0 {
        Seq::empty()
    } else {
        listed_intents(s.drop_last()) + listed_intent(s.last())
    }
}

/// A listing of intents.
pub open spec fn intent_listing_text(s: Seq<IntentRecord>) -> Seq<char> {
    if s.len() == 0 {
        "No intents found.\n"@
    } else {
        "Intents:\n\n"@ + listed_intents(s)
    }
}

/// Whether every status in a list can be shown.
pub open spec fn all_formattable(s: Seq<IntentRecord>) -> bool {
    forall|j: int| 0 <= j < s.len() ==> formattable(#[trigger] s[j].status)
}

fn listed_intent_text(i: &IntentRecord) -> (r: String)
    requires
        formattable(i.status),
    ensures
        r@ == listed_intent(*i),
{
    let mut r = String::from_str("  ");
    r.append(" ");
    r.append(" ");
    let s = short_id(i.id);
    r.append(s.as_str());
    r.append(" - ");
    r.append(i.goal.as_str());
    r.append("\n");
    r.append("      Created: ");
    let t = i.created_at.to_minute_text();
    r.append(t.as_str());
    r.append(" | Status: ");
    let st = format_status(&i.status);
    r.append(st.as_str());
    r.append("\n");
    r
}

/// Lists intents, two lines each.
pub fn intent_listing(intents: &Vec<IntentRecord>) -> (r: String)
    requires
        all_formattable(intents@),
    ensures
        r@ == intent_listing_text(intents@),
{
    if intents.len() == 0 {
        return String::from_str("No intents found.\n");
    }
    let mut lines = String::new();
    let mut k: usize = 0;
    while k < intents.len()
        invariant
            k <= intents@.len(),
            all_formattable(intents@),
            lines@ == listed_intents(intents@.take(k as int)),
        decreases intents.len() - k,
    {
        assert(intents@.take(k + 1).drop_last() =~= intents@.take(k as int));
        assert(formattable(intents@[k as int].status));
        let e = listed_intent_text(&intents[k]);
        lines.append(e.as_str());
        k = k + 1;
    }
    assert(intents@.take(intents@.len() as int) =~= intents@);
    let mut r = String::from_str("Intents:\n\n");
    r.append(lines.as_str());
    r
}

/// One intent in full.
pub open spec fn intent_detail_text(i: IntentRecord) -> Seq<char> {
    "Intent: "@ + uuid_text(i.id) + "\n\n"@ + "  Goal:      "@ + i.goal@ + "\n"@ + match i.rationale {
        Some(r) => "  Rationale: "@ + r@ + "\n"@,
        None => Seq::empty(),
    } + "  Author:    "@ + i.author.name@ + " <"@ + i.author.email@ + ">\n"@ + "  Created:   "@
        + second_text(i.created_at.secs_spec(), i.created_at.nanos_spec()) + "\n"@
        + "  Status:    "@ + status_text(i.status) + "\n"@ + match i.baseline_snapshot_id {
        Some(b) => "  Baseline:  "@ + uuid_text(b) + "\n"@,
        None => Seq::empty(),
    } + if i.constraints@.len() > 0 {
        "\n  Constraints:\n"@ + named_constraint_lines(i.constraints@)
    } else {
        Seq::empty()
    }
}

/// Shows one intent in full.
pub fn intent_detail(i: &IntentRecord) -> (r: String)
    requires
        formattable(i.status),
    ensures
        r@ == intent_detail_text(*i),
{
    let mut r = String::from_str("Intent: ");
    let id = id_to_string(i.id);
    r.append(id.as_str());
    r.append("\n\n");
    r.append("  Goal:      ");
    r.append(i.goal.as_str());
    r.append("\n");
    let mut ra = String::new();
    match &i.rationale {
        Some(x) => {
            ra.append("  Rationale: ");
            ra.append(x.as_str());
            ra.append("\n");
        },
        None => {},
    }
    r.append(ra.as_str());
    r.append("  Author:    ");
    r.append(i.author.name.as_str());
    r.append(" <");
    r.append(i.author.email.as_str());
    r.append(">\n");
    r.append("  Created:   ");
    let t = i.created_at.to_second_text();
    r.append(t.as_str());
    r.append("\n");
    r.append("  Status:    ");
    let st = format_status(&i.status);
    r.append(st.as_str());
    r.append("\n");
    let mut b = String::new();
    match i.baseline_snapshot_id {
        Some(s) => {
            b.append("  Baseline:  ");
            let x = id_to_string(s);
            b.append(x.as_str());
            b.append("\n");
        },
        None => {},
    }
    r.append(b.as_str());
    let mut c = String::new();
    if i.constraints.len() > 0 {
        c.append("\n  Constraints:\n");
        let cs = &i.constraints;
        let mut k: usize = 0;
        let mut lines = String::new();
        while k < cs.len()
            invariant
                k <= cs@.len(),
                lines@ == named_constraint_lines(cs@.take(k as int)),
            decreases cs.len() - k,
        {
            assert(cs@.take(k + 1).drop_last() =~= cs@.take(k as int));
            lines.append("    - ");
            lines.append(cs[k].name.as_str());
            lines.append(": ");
            lines.append(cs[k].value.as_str());
            lines.append("\n");
            k = k + 1;
        }
        assert(cs@.take(cs@.len() as int) =~= cs@);
        c.append(lines.as_str());
    }
    r.append(c.as_str());
    r
}

} // verus!
