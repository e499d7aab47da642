//! The intent tools: creating an intent from a tool call, listing intents
//! through a status filter, and abandoning one.

use vstd::prelude::*;
use crate::cli::{cuttable, short_id, truncate, truncated};
use crate::graph::SmeltGraph;
use crate::ids::{new_id, uuid_text, v4_bits, v4_mask};
use crate::mcp::tools::{required_param, status_debug, status_debug_text};
use crate::text::{decimal, decimal_string, str_eq};
use crate::time::{minute_text, Timestamp};
use crate::types::intent::{Author, AuthorType, Constraint, ContextLinks, IntentRecord, IntentStatus};

verus! {

/// Whether the constraints are those a tool's user asked for: one per
/// value, in order, each named `user` and required.
pub open spec fn user_constraints(cs: Seq<Constraint>, values: Seq<String>) -> bool {
    &&& cs.len() == values.len()
    &&& forall|j: int|
        0 <= j < cs.len() ==> #[trigger] cs[j].name@ == "user"@ && cs[j].value == values[j]
            && cs[j].required
}

/// The constraints for the values a tool's user gave.
fn constraints_from(values: Vec<String>) -> (r: Vec<Constraint>)
    ensures
        user_constraints(r@, values@),
{
    let mut values = values;
    let ghost all = values@;
    let mut r: Vec<Constraint> = Vec::new();
    while values.len() > 0
        invariant
            r@.len() + values@.len() == all.len(),
            values@ == all.skip(r@.len() as int),
            forall|j: int|
                0 <= j < r@.len() ==> #[trigger] r@[j].name@ == "user"@ && r@[j].value == all[j]
                    && r@[j].required,
        decreases values.len(),
    {
        let v = values.remove(0);
        proof {
            assert(all.skip(r@.len() as int)[0] == v);
            assert(values@ =~= all.skip(r@.len() as int + 1));
        }
        r.push(Constraint { name: String::from_str("user"), value: v, required: true });
    }
    r
}

/// A new intent for a tool call: for the given goal (a required parameter),
/// with the description as its rationale and the constraints the user gave,
/// authored by the AI assistant, in progress, with a baseline snapshot taken
/// in the graph, which starts tracking it.
pub fn plan_intent_create(
    graph: &mut SmeltGraph,
    goal: Option<String>,
    description: Option<String>,
    constraints: Vec<String>,
) -> (r: Result<IntentRecord, String>)
    ensures
        goal is None ==> (r matches Err(m) && m@ == "Missing required parameter: goal"@
            && *final(graph) == *old(graph)),
        goal matches Some(g) ==> (r matches Ok(i) && i.id & v4_mask() == v4_bits() && i.goal == g && i.rationale == description
            && i.author.name@ == "AI Assistant"@ && i.author.email@ == "ai@smelt.dev"@
            && i.author.author_type == AuthorType::AI && user_constraints(i.constraints@, constraints@)
            && i.context_links.issues@.len() == 0 && i.context_links.pull_requests@.len() == 0
            && i.context_links.documentation@.len() == 0 && i.context_links.other@.len() == 0
            && i.status is InProgress && (i.baseline_snapshot_id matches Some(s) && s != 0)
            && final(graph).intent_nodes(i.id) == Some(Seq::<u64>::empty())),
        r is Ok ==> forall|other: u128|
            (r matches Ok(i) && other != i.id) ==> final(graph).intent_nodes(other)
                == old(graph).intent_nodes(other),
{
    let goal = match required_param(goal, "goal") {
        Ok(g) => g,
        Err(m) => {
            proof {
                reveal_strlit("Missing required parameter: ");
                reveal_strlit("goal");
                reveal_strlit("Missing required parameter: goal");
                assert(m@ =~= "Missing required parameter: goal"@);
            }
            return Err(m);
        },
    };
    let intent_id = new_id();
    let baseline = match graph.snapshot_for_intent(intent_id) {
        Ok(id) => id,
        Err(e) => return Err(e.message()),
    };
    Ok(IntentRecord {
        id: intent_id,
        created_at: Timestamp::now(),
        author: Author {
            name: String::from_str("AI Assistant"),
            email: String::from_str("ai@smelt.dev"),
            author_type: AuthorType::AI,
        },
        goal,
        rationale: description,
        constraints: constraints_from(constraints),
        context_links: ContextLinks::default(),
        status: IntentStatus::InProgress,
        baseline_snapshot_id: Some(baseline),
    })
}

/// One `  - value` line for each constraint.
pub open spec fn constraint_lines(cs: Seq<Constraint>) -> Seq<char>
    decreases cs.len(),
{
    if cs.len() == 0 {
        Seq::empty()
    } else {
        constraint_lines(cs.drop_last()) + "  - "@ + cs.last().value@ + "\n"@
    }
}

/// The report of a created intent.
pub open spec fn intent_created_text(i: IntentRecord) -> Seq<char> {
    "✅ Intent created successfully!\n\n"@ + "ID: "@ + uuid_text(i.id).subrange(0, 8) + "\n"@
        + "Goal: "@ + i.goal@ + "\n"@ + "Status: "@ + status_debug(i.status) + "\n"@
        + match i.rationale {
        Some(d) => "Description: "@ + d@ + "\n"@,
        None => Seq::empty(),
    } + if i.constraints@.len() > 0 {
        "\nConstraints:\n"@ + constraint_lines(i.constraints@)
    } else {
        Seq::empty()
    } + "\nNext steps:\n"@ + "  1. Make your changes\n"@ + "  2. Check status: smelt_status\n"@
        + "  3. Validate: smelt_validate\n"@ + "  4. Commit: smelt_commit\n"@
}

fn constraint_lines_text(cs: &Vec<Constraint>) -> (r: String)
    ensures
        r@ == constraint_lines(cs@),
{
    let mut r = String::new();
    let mut k: usize = 0;
    while k < cs.len()
        invariant
            k <= cs@.len(),
            r@ == constraint_lines(cs@.take(k as int)),
        decreases cs.len() - k,
    {
        assert(cs@.take(k + 1).drop_last() =~= cs@.take(k as int));
        r.append("  - ");
        r.append(cs[k].value.as_str());
        r.append("\n");
        k = k + 1;
    }
    assert(cs@.take(cs@.len() as int) =~= cs@);
    r
}

/// Reports a created intent.
pub fn intent_created_report(intent: &IntentRecord) -> (r: String)
    ensures
        r@ == intent_created_text(*intent),
{
    let mut r = String::from_str("✅ Intent created successfully!\n\n");
    r.append("ID: ");
    let id = short_id(intent.id);
    r.append(id.as_str());
    r.append("\n");
    r.append("Goal: ");
    r.append(intent.goal.as_str());
    r.append("\n");
    r.append("Status: ");
    let st = status_debug_text(&intent.status);
    r.append(st.as_str());
    r.append("\n");
    let mut desc = String::new();
    match &intent.rationale {
        Some(d) => {
            desc.append("Description: ");
            desc.append(d.as_str());
            desc.append("\n");
        },
        None => {},
    }
    r.append(desc.as_str());
    let mut cons = String::new();
    if intent.constraints.len() > 0 {
        cons.append("\nConstraints:\n");
        let lines = constraint_lines_text(&intent.constraints);
        cons.append(lines.as_str());
    }
    r.append(cons.as_str());
    r.append("\nNext steps:\n");
    r.append("  1. Make your changes\n");
    r.append("  2. Check status: smelt_status\n");
    r.append("  3. Validate: smelt_validate\n");
    r.append("  4. Commit: smelt_commit\n");
    r
}

/// Which intents a listing shows.
#[derive(Clone, Copy, Debug, PartialEq, Eq, Structural)]
pub enum ListFilter {
    /// Those that can still be worked on.
    Active,
    /// Those committed.
    Completed,
    /// Those abandoned.
    Abandoned,
    /// All of them.
    All,
}

/// The filter a word names; any other word shows all intents.
pub open spec fn list_filter_named(word: Seq<char>) -> ListFilter {
    if word == "active"@ {
        ListFilter::Active
    } else if word == "completed"@ {
        ListFilter::Completed
    } else if word == "abandoned"@ {
        ListFilter::Abandoned
    } else {
        ListFilter::All
    }
}

/// Reads the filter a word names.
pub fn list_filter(word: &str) -> (r: ListFilter)
    ensures
        r == list_filter_named(word@),
{
    if str_eq(word, "active") {
        ListFilter::Active
    } else if str_eq(word, "completed") {
        ListFilter::Completed
    } else if str_eq(word, "abandoned") {
        ListFilter::Abandoned
    } else {
        ListFilter::All
    }
}

/// Whether an intent with this status passes the filter.
pub open spec fn passes(f: ListFilter, s: IntentStatus) -> bool {
    match f {
        ListFilter::Active => s.is_active_spec(),
        ListFilter::Completed => s is Committed,
        ListFilter::Abandoned => s is Abandoned,
        ListFilter::All => true,
    }
}

/// The intents that pass the filter, in their order.
pub open spec fn selected(s: Seq<IntentRecord>, f: ListFilter) -> Seq<IntentRecord>
    decreases s.len(),
{
    if s.len() == 0 {
        Seq::empty()
    } else if passes(f, s.last().status) {
        selected(s.drop_last(), f).push(s.last())
    } else {
        selected(s.drop_last(), f)
    }
}

/// The first `n` items, or all when there are fewer.
pub open spec fn capped<A>(s: Seq<A>, n: nat) -> Seq<A> {
    if s.len() <= n {
        s
    } else {
        s.take(n as int)
    }
}

/// Every intent the filter keeps passes it.
proof fn lemma_selected_pass(s: Seq<IntentRecord>, f: ListFilter)
    ensures
        forall|j: int| 0 <= j < selected(s, f).len() ==> passes(f, #[trigger] selected(s, f)[j].status),
        selected(s, f).len() <= s.len(),
    decreases s.len(),
{
    if s.len() > 0 {
        lemma_selected_pass(s.drop_last(), f);
    }
}

/// A listing shows at most `limit` intents, and only intents that pass its
/// filter.
pub proof fn lemma_listing_within_limit(s: Seq<IntentRecord>, f: ListFilter, limit: nat)
    ensures
        capped(selected(s, f), limit).len() <= limit,
        capped(selected(s, f), limit).len() <= s.len(),
        forall|j: int|
            0 <= j < capped(selected(s, f), limit).len() ==> passes(
                f,
                #[trigger] capped(selected(s, f), limit)[j].status,
            ),
{
    lemma_selected_pass(s, f);
    let sel = selected(s, f);
    if sel.len() > limit {
        assert forall|j: int| 0 <= j < capped(sel, limit).len() implies passes(
            f,
            #[trigger] capped(sel, limit)[j].status,
        ) by {
            assert(capped(sel, limit)[j] == sel[j]);
        }
    }
}

/// Keeps the intents that pass the filter, in their order, and at most
/// `limit` of them.
pub fn filter_intents(intents: Vec<IntentRecord>, filter: ListFilter, limit: usize) -> (r: Vec<
    IntentRecord,
>)
    ensures
        r@ == capped(selected(intents@, filter), limit as nat),
{
    let mut rest = intents;
    let ghost all = rest@;
    let ghost mut k: int = 0;
    let mut r: Vec<IntentRecord> = Vec::new();
    while rest.len() > 0
        invariant
            0 <= k <= all.len(),
            rest@ == all.skip(k),
            r@ == capped(selected(all.take(k), filter), limit as nat),
        decreases rest.len(),
    {
        let x = rest.remove(0);
        proof {
            assert(all.skip(k)[0] == x);
            assert(rest@ =~= all.skip(k + 1));
            assert(all.take(k + 1).drop_last() =~= all.take(k));
            assert(all.take(k + 1).last() == x);
        }
        let keep = match filter {
            ListFilter::Active => x.status.is_active(),
            ListFilter::Completed => match &x.status {
                IntentStatus::Committed { .. } => true,
                _ => false,
            },
            ListFilter::Abandoned => match &x.status {
                IntentStatus::Abandoned => true,
                _ => false,
            },
            ListFilter::All => true,
        };
        proof {
            let p = selected(all.take(k), filter);
            if keep {
                let q = p.push(x);
                if p.len() >= limit {
                    assert(q.take(limit as int) =~= p.take(limit as int));
                }
            }
            k = k + 1;
        }
        if keep && r.len() < limit {
            r.push(x);
        }
    }
    proof {
        assert(all.take(k) =~= all);
    }
    r
}

/// The sign shown before an intent in a listing.
pub open spec fn status_icon(s: IntentStatus) -> Seq<char> {
    match s {
        IntentStatus::Draft => "📝"@,
        IntentStatus::InProgress => "🔄"@,
        IntentStatus::PendingValidation => "⏳"@,
        IntentStatus::Validated => "✅"@,
        IntentStatus::Committed { .. } => "✔️"@,
        IntentStatus::Rejected { .. } => "❌"@,
        IntentStatus::Abandoned => "🗑️"@,
    }
}

fn status_icon_text(s: &IntentStatus) -> (r: &'static str)
    ensures
        r@ == status_icon(*s),
{
    match s {
        IntentStatus::Draft => "📝",
        IntentStatus::InProgress => "🔄",
        IntentStatus::PendingValidation => "⏳",
        IntentStatus::Validated => "✅",
        IntentStatus::Committed { .. } => "✔️",
        IntentStatus::Rejected { .. } => "❌",
        IntentStatus::Abandoned => "🗑️",
    }
}

/// The lines of one intent in a listing.
pub open spec fn list_entry(i: IntentRecord) -> Seq<char> {
    status_icon(i.status) + " **"@ + uuid_text(i.id).subrange(0, 8) + "**\n"@ + "   Goal: "@
        + truncated(i.goal@, 60) + "\n"@ + "   Status: "@ + status_debug(i.status) + "\n"@
        + "   Created: "@ + minute_text(i.created_at.secs_spec(), i.created_at.nanos_spec())
        + "\n"@ + if i.constraints@.len() > 0 {
        "   Constraints: "@ + decimal(i.constraints@.len()) + "\n"@
    } else {
        Seq::empty()
    } + "\n"@
}

/// The lines of the intents in a listing.
pub open spec fn list_entries(s: Seq<IntentRecord>) -> Seq<char>
    decreases s.len(),
{
    if s.len() == 0 {
        Seq::empty()
    } else {
        list_entries(s.drop_last()) + list_entry(s.last())
    }
}

/// The listing of the intents that a filter kept.
pub open spec fn intent_list_text(s: Seq<IntentRecord>, filter_word: Seq<char>) -> Seq<char> {
    "📋 Intents\n"@ + "==========\n\n"@ + if s.len() == 0 {
        "No intents found with status: "@ + filter_word + "\n"@
            + "\nCreate one with smelt_intent_create."@
    } else {
        "Showing "@ + decimal(s.len()) + " intent(s) (filter: "@ + filter_word + ")\n\n"@
            + list_entries(s)
    }
}

/// Whether every intent's goal can be cut to `max_len` bytes.
pub open spec fn goals_cuttable(s: Seq<IntentRecord>, max_len: nat) -> bool {
    forall|j: int| 0 <= j < s.len() ==> cuttable(#[trigger] s[j].goal@, max_len)
}

fn list_entry_text(i: &IntentRecord) -> (r: String)
    requires
        cuttable(i.goal@, 60),
    ensures
        r@ == list_entry(*i),
{
    let mut r = String::from_str(status_icon_text(&i.status));
    r.append(" **");
    let id = short_id(i.id);
    r.append(id.as_str());
    r.append("**\n");
    r.append("   Goal: ");
    let g = truncate(i.goal.as_str(), 60);
    r.append(g.as_str());
    r.append("\n");
    r.append("   Status: ");
    let st = status_debug_text(&i.status);
    r.append(st.as_str());
    r.append("\n");
    r.append("   Created: ");
    let t = i.created_at.to_minute_text();
    r.append(t.as_str());
    r.append("\n");
    let mut c = String::new();
    if i.constraints.len() > 0 {
        c.append("   Constraints: ");
        let n = decimal_string(i.constraints.len() as u64);
        c.append(n.as_str());
        c.append("\n");
    }
    r.append(c.as_str());
    r.append("\n");
    r
}

/// Lists the intents a filter kept, under the filter's word.
pub fn intent_list_report(intents: &Vec<IntentRecord>, filter_word: &str) -> (r: String)
    requires
        goals_cuttable(intents@, 60),
    ensures
        r@ == intent_list_text(intents@, filter_word@),
{
    let mut r = String::from_str("📋 Intents\n");
    r.append("==========\n\n");
    let mut body = String::new();
    if intents.len() == 0 {
        body.append("No intents found with status: ");
        body.append(filter_word);
        body.append("\n");
        body.append("\nCreate one with smelt_intent_create.");
    } else {
        body.append("Showing ");
        let n = decimal_string(intents.len() as u64);
        body.append(n.as_str());
        body.append(" intent(s) (filter: ");
        body.append(filter_word);
        body.append(")\n\n");
        let mut entries = String::new();
        let mut k: usize = 0;
        while k < intents.len()
            invariant
                k <= intents@.len(),
                goals_cuttable(intents@, 60),
                entries@ == list_entries(intents@.take(k as int)),
            decreases intents.len() - k,
        {
            assert(intents@.take(k + 1).drop_last() =~= intents@.take(k as int));
            assert(cuttable(intents@[k as int].goal@, 60));
            let e = list_entry_text(&intents[k]);
            entries.append(e.as_str());
            k = k + 1;
        }
        assert(intents@.take(intents@.len() as int) =~= intents@);
        body.append(entries.as_str());
    }
    r.append(body.as_str());
    r
}

/// Whether an intent with this status may be abandoned: not once committed,
/// and not twice.
pub fn abandon_check(status: &IntentStatus) -> (r: Result<(), String>)
    ensures
        status is Committed ==> (r matches Err(m) && m@ == "Cannot abandon a committed intent."@),
        status is Abandoned ==> (r matches Err(m) && m@ == "Intent is already abandoned."@),
        !(status is Committed) && !(status is Abandoned) ==> r is Ok,
{
    match status {
        IntentStatus::Committed { .. } => Err(String::from_str("Cannot abandon a committed intent.")),
        IntentStatus::Abandoned => Err(String::from_str("Intent is already abandoned.")),
        _ => Ok(()),
    }
}

/// The report of an abandoned intent.
pub open spec fn abandoned_text(i: IntentRecord) -> Seq<char> {
    "🗑️ Intent abandoned successfully!\n\n"@ + "ID: "@ + uuid_text(i.id).subrange(0, 8) + "\n"@
        + "Goal: "@ + i.goal@ + "\n"@ + "Status: Abandoned\n"@
}

/// Reports an abandoned intent.
pub fn abandoned_report(intent: &IntentRecord) -> (r: String)
    ensures
        r@ == abandoned_text(*intent),
{
    let mut r = String::from_str("🗑️ Intent abandoned successfully!\n\n");
    r.append("ID: ");
    let id = short_id(intent.id);
    r.append(id.as_str());
    r.append("\n");
    r.append("Goal: ");
    r.append(intent.goal.as_str());
    r.append("\n");
    r.append("Status: Abandoned\n");
    r
}

} // verus!

verus! {

/// The completed intents are exactly the committed ones, in their order: the
/// "completed" filter keeps every intent whose status is `Committed` and no
/// other, so an abandoned or rejected intent is never listed as completed.
pub proof fn lemma_completed_means_committed(s: Seq<IntentRecord>)
    ensures
        selected(s, ListFilter::Completed) == s.filter(|x: IntentRecord| x.status is Committed),
        forall|j: int|
            0 <= j < selected(s, ListFilter::Completed).len() ==> (#[trigger] selected(
                s,
                ListFilter::Completed,
            )[j]).status is Committed,
        forall|x: IntentRecord|
            x.status is Abandoned || x.status is Rejected ==> !(#[trigger] selected(
                s,
                ListFilter::Completed,
            ).contains(x)),
    decreases s.len(),
{
    reveal(Seq::filter);
    if s.len() > 0 {
        lemma_completed_means_committed(s.drop_last());
    }
    lemma_selected_pass(s, ListFilter::Completed);
}

} // verus!

verus! {

/// The other filters keep exactly their statuses, in order: "active" keeps
/// drafts and intents in progress, pending validation or validated;
/// "abandoned" keeps the abandoned ones; "all" keeps every intent.
pub proof fn lemma_filters_keep_their_statuses(s: Seq<IntentRecord>)
    ensures
        selected(s, ListFilter::Active) == s.filter(
            |x: IntentRecord|
                x.status is Draft || x.status is InProgress || x.status is PendingValidation
                    || x.status is Validated,
        ),
        selected(s, ListFilter::Abandoned) == s.filter(|x: IntentRecord| x.status is Abandoned),
        selected(s, ListFilter::All) == s,
    decreases s.len(),
{
    reveal(Seq::filter);
    if s.len() > 0 {
        lemma_filters_keep_their_statuses(s.drop_last());
        assert(s.drop_last().push(s.last()) =~= s);
    } else {
        assert(s =~= Seq::<IntentRecord>::empty());
    }
}

} // verus!
