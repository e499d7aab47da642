//! The status tool: what it reports of one intent, or of all of them.

use vstd::prelude::*;
use crate::cli::{cuttable, short_id, truncate, truncated};
use crate::ids::uuid_text;
use crate::mcp::intents::{selected, ListFilter};
use crate::mcp::tools::{status_debug, status_debug_text};
use crate::text::{decimal, decimal_string};
use crate::time::minute_text;
use crate::types::delta::SemanticDelta;
use crate::types::intent::{Constraint, IntentRecord, IntentStatus};

verus! {

/// The heading of a status report, with the project's name when it is known.
pub open spec fn status_header_text(project: Option<Seq<char>>) -> Seq<char> {
    "📊 Smelt Status\n"@ + "===============\n\n"@ + match project {
        Some(p) => "Project: "@ + p + "\n"@,
        None => Seq::empty(),
    }
}

fn status_header(project: Option<&str>) -> (r: String)
    ensures
        r@ == status_header_text(match project {
            Some(p) => Some(p@),
            None => None,
        }),
{
    let mut r = String::from_str("📊 Smelt Status\n");
    r.append("===============\n\n");
    let mut p = String::new();
    match project {
        Some(name) => {
            p.append("Project: ");
            p.append(name);
            p.append("\n");
        },
        None => {},
    }
    r.append(p.as_str());
    r
}

/// One `    - name: value` line per constraint.
pub open spec fn named_constraint_lines(cs: Seq<Constraint>) -> Seq<char>
    decreases cs.len(),
{
    if cs.len() == 0 {
        Seq::empty()
    } else {
        named_constraint_lines(cs.drop_last()) + "    - "@ + cs.last().name@ + ": "@
            + cs.last().value@ + "\n"@
    }
}

/// One `    - n changes` line per delta.
pub open spec fn delta_lines(ds: Seq<SemanticDelta>) -> Seq<char>
    decreases ds.len(),
{
    if ds.len() == 0 {
        Seq::empty()
    } else {
        delta_lines(ds.drop_last()) + "    - "@ + decimal(ds.last().changes@.len()) + " changes\n"@
    }
}

/// The constraints section of an intent's status: present when it has some.
pub open spec fn constraints_section(cs: Seq<Constraint>) -> Seq<char> {
    if cs.len() > 0 {
        "  Constraints:\n"@ + named_constraint_lines(cs)
    } else {
        Seq::empty()
    }
}

/// The deltas section of an intent's status: present when deltas were
/// asked for and there are some.
pub open spec fn deltas_section(deltas: Option<Seq<SemanticDelta>>) -> Seq<char> {
    match deltas {
        Some(ds) => if ds.len() > 0 {
            "\n  Deltas: "@ + decimal(ds.len()) + " recorded\n"@ + delta_lines(ds)
        } else {
            Seq::empty()
        },
        None => Seq::empty(),
    }
}

/// The part of a status report about one intent; the deltas recorded for
/// it are listed when they were asked for and there are some.
pub open spec fn intent_status_text(i: IntentRecord, deltas: Option<Seq<SemanticDelta>>) -> Seq<
    char,
> {
    "\n📋 Intent: "@ + uuid_text(i.id).subrange(0, 8) + "\n"@ + "  Goal: "@ + i.goal@ + "\n"@
        + "  Status: "@ + status_debug(i.status) + "\n"@ + "  Created: "@ + minute_text(
        i.created_at.secs_spec(),
        i.created_at.nanos_spec(),
    ) + "\n"@ + constraints_section(i.constraints@) + deltas_section(deltas)
}

fn constraints_section_text(cs: &Vec<Constraint>) -> (r: String)
    ensures
        r@ == constraints_section(cs@),
{
    let mut cons = String::new();
    if cs.len() > 0 {
        cons.append("  Constraints:\n");
        let mut k: usize = 0;
        let mut lines = String::new();
        while k < cs.len()
            invariant
                k <= cs@.len(),
                lines@ == named_constraint_lines(cs@.take(k as int)),
            decreases cs.len() - k,
        {
            assert(cs@.take(k + 1).drop_last() =~= cs@.take(k as int));
            lines.append("    - ");
            lines.append(cs[k].name.as_str());
            lines.append(": ");
            lines.append(cs[k].value.as_str());
            lines.append("\n");
            k = k + 1;
        }
        assert(cs@.take(cs@.len() as int) =~= cs@);
        cons.append(lines.as_str());
    }
    cons
}

fn deltas_section_text(deltas: Option<&Vec<SemanticDelta>>) -> (r: String)
    ensures
        r@ == deltas_section(match deltas {
            Some(ds) => Some(ds@),
            None => None,
        }),
{
    let mut dl = String::new();
    match deltas {
        Some(ds) => {
            if ds.len() > 0 {
                dl.append("\n  Deltas: ");
                let n = decimal_string(ds.len() as u64);
                dl.append(n.as_str());
                dl.append(" recorded\n");
                let mut k: usize = 0;
                let mut lines = String::new();
                while k < ds.len()
                    invariant
                        k <= ds@.len(),
                        lines@ == delta_lines(ds@.take(k as int)),
                    decreases ds.len() - k,
                {
                    assert(ds@.take(k + 1).drop_last() =~= ds@.take(k as int));
                    lines.append("    - ");
                    let c = decimal_string(ds[k].changes.len() as u64);
                    lines.append(c.as_str());
                    lines.append(" changes\n");
                    k = k + 1;
                }
                assert(ds@.take(ds@.len() as int) =~= ds@);
                dl.append(lines.as_str());
            }
        },
        None => {},
    }
    dl
}

/// Reports the status of one intent, under the heading.
pub fn intent_status_report(
    project: Option<&str>,
    intent: &IntentRecord,
    deltas: Option<&Vec<SemanticDelta>>,
) -> (r: String)
    ensures
        r@ == status_header_text(match project {
            Some(p) => Some(p@),
            None => None,
        }) + intent_status_text(*intent, match deltas {
            Some(ds) => Some(ds@),
            None => None,
        }),
{
    let mut r = status_header(project);
    let ghost head = r@;
    r.append("\n📋 Intent: ");
    let id = short_id(intent.id);
    r.append(id.as_str());
    r.append("\n");
    r.append("  Goal: ");
    r.append(intent.goal.as_str());
    r.append("\n");
    r.append("  Status: ");
    let st = status_debug_text(&intent.status);
    r.append(st.as_str());
    r.append("\n");
    r.append("  Created: ");
    let t = intent.created_at.to_minute_text();
    r.append(t.as_str());
    r.append("\n");
    let cons = constraints_section_text(&intent.constraints);
    r.append(cons.as_str());
    let dl = deltas_section_text(deltas);
    r.append(dl.as_str());
    proof {
        let tail = intent_status_text(*intent, match deltas {
            Some(ds) => Some(ds@),
            None => None,
        });
        assert(r@ =~= head + tail);
    }
    r
}

/// The sign shown before an active intent.
pub open spec fn active_icon(s: IntentStatus) -> Seq<char> {
    match s {
        IntentStatus::Draft => "📝"@,
        IntentStatus::InProgress => "🔄"@,
        IntentStatus::PendingValidation => "⏳"@,
        IntentStatus::Validated => "✅"@,
        _ => "📋"@,
    }
}

fn active_icon_text(s: &IntentStatus) -> (r: &'static str)
    ensures
        r@ == active_icon(*s),
{
    match s {
        IntentStatus::Draft => "📝",
        IntentStatus::InProgress => "🔄",
        IntentStatus::PendingValidation => "⏳",
        IntentStatus::Validated => "✅",
        _ => "📋",
    }
}

/// One line per active intent: its sign, short id and goal cut to 50 bytes.
pub open spec fn active_lines(s: Seq<IntentRecord>) -> Seq<char>
    decreases s.len(),
{
    if s.len() == 0 {
        Seq::empty()
    } else {
        active_lines(s.drop_last()) + "  "@ + active_icon(s.last().status) + " "@ + uuid_text(
            s.last().id,
        ).subrange(0, 8) + " - "@ + truncated(s.last().goal@, 50) + "\n"@
    }
}

/// The section on active intents: how many, then one line each.
pub open spec fn active_section_text(intents: Seq<IntentRecord>) -> Seq<char> {
    let active = selected(intents, ListFilter::Active);
    "\n📋 Active Intents: "@ + decimal(active.len()) + "\n"@ + if active.len() == 0 {
        "  (none)\n"@
    } else {
        active_lines(active)
    }
}

/// The line counting committed intents.
pub open spec fn completed_text(intents: Seq<IntentRecord>) -> Seq<char> {
    "\n✅ Completed: "@ + decimal(selected(intents, ListFilter::Completed).len()) + "\n"@
}

/// The line on the graph's counts, where they could be read.
pub open spec fn graph_text(graph: Option<(usize, usize)>) -> Seq<char> {
    match graph {
        Some((n, e)) => "\n📈 Graph: "@ + decimal(n as nat) + " nodes, "@ + decimal(e as nat)
            + " edges\n"@,
        None => Seq::empty(),
    }
}

/// The line on remembered episodes, where they could be counted.
pub open spec fn memory_text(episodes: Option<usize>) -> Seq<char> {
    match episodes {
        Some(k) => "🧠 Memory: "@ + decimal(k as nat) + " episodes\n"@,
        None => Seq::empty(),
    }
}

/// The overview of all intents, with the graph's counts and the number of
/// remembered episodes where they could be read.
pub open spec fn overview_text(
    intents: Seq<IntentRecord>,
    graph: Option<(usize, usize)>,
    episodes: Option<usize>,
) -> Seq<char> {
    active_section_text(intents) + completed_text(intents) + graph_text(graph) + memory_text(
        episodes,
    )
}

/// Whether the goals of the active intents can be cut to `max_len` bytes.
pub open spec fn active_goals_cuttable(s: Seq<IntentRecord>, max_len: nat) -> bool {
    forall|j: int|
        0 <= j < s.len() && (#[trigger] s[j]).status.is_active_spec() ==> cuttable(
            s[j].goal@,
            max_len,
        )
}

fn count_selected(intents: &Vec<IntentRecord>, f: ListFilter) -> (r: usize)
    ensures
        r == selected(intents@, f).len(),
{
    let mut n: usize = 0;
    let mut k: usize = 0;
    while k < intents.len()
        invariant
            k <= intents@.len(),
            n == selected(intents@.take(k as int), f).len(),
            n <= k,
        decreases intents.len() - k,
    {
        assert(intents@.take(k + 1).drop_last() =~= intents@.take(k as int));
        let s = &intents[k].status;
        let keep = match f {
            ListFilter::Active => s.is_active(),
            ListFilter::Completed => match s {
                IntentStatus::Committed { .. } => true,
                _ => false,
            },
            ListFilter::Abandoned => match s {
                IntentStatus::Abandoned => true,
                _ => false,
            },
            ListFilter::All => true,
        };
        if keep {
            n = n + 1;
        }
        k = k + 1;
    }
    assert(intents@.take(intents@.len() as int) =~= intents@);
    n
}

fn active_lines_text(intents: &Vec<IntentRecord>) -> (r: String)
    requires
        active_goals_cuttable(intents@, 50),
    ensures
        r@ == active_lines(selected(intents@, ListFilter::Active)),
{
    let mut lines = String::new();
    let mut k: usize = 0;
    while k < intents.len()
        invariant
            k <= intents@.len(),
            active_goals_cuttable(intents@, 50),
            lines@ == active_lines(selected(intents@.take(k as int), ListFilter::Active)),
        decreases intents.len() - k,
    {
        let ghost p = selected(intents@.take(k as int), ListFilter::Active);
        assert(intents@.take(k + 1).drop_last() =~= intents@.take(k as int));
        let x = &intents[k];
        if x.status.is_active() {
            assert(cuttable(intents@[k as int].goal@, 50));
            assert(p.push(*x).drop_last() =~= p);
            lines.append("  ");
            lines.append(active_icon_text(&x.status));
            lines.append(" ");
            let id = short_id(x.id);
            lines.append(id.as_str());
            lines.append(" - ");
            let g = truncate(x.goal.as_str(), 50);
            lines.append(g.as_str());
            lines.append("\n");
        }
        k = k + 1;
    }
    assert(intents@.take(intents@.len() as int) =~= intents@);
    lines
}

fn graph_line(graph: Option<(usize, usize)>) -> (r: String)
    ensures
        r@ == graph_text(graph),
{
    let mut g = String::new();
    match graph {
        Some((nodes, edges)) => {
            g.append("\n📈 Graph: ");
            let a = decimal_string(nodes as u64);
            g.append(a.as_str());
            g.append(" nodes, ");
            let b = decimal_string(edges as u64);
            g.append(b.as_str());
            g.append(" edges\n");
        },
        None => {},
    }
    g
}

fn memory_line(episodes: Option<usize>) -> (r: String)
    ensures
        r@ == memory_text(episodes),
{
    let mut m = String::new();
    match episodes {
        Some(k) => {
            m.append("🧠 Memory: ");
            let a = decimal_string(k as u64);
            m.append(a.as_str());
            m.append(" episodes\n");
        },
        None => {},
    }
    m
}

fn active_section(intents: &Vec<IntentRecord>) -> (r: String)
    requires
        active_goals_cuttable(intents@, 50),
    ensures
        r@ == active_section_text(intents@),
{
    let active = count_selected(intents, ListFilter::Active);
    let mut r = String::from_str("\n📋 Active Intents: ");
    let n = decimal_string(active as u64);
    r.append(n.as_str());
    r.append("\n");
    let lines = if active == 0 {
        String::from_str("  (none)\n")
    } else {
        active_lines_text(intents)
    };
    r.append(lines.as_str());
    r
}

fn completed_line(intents: &Vec<IntentRecord>) -> (r: String)
    ensures
        r@ == completed_text(intents@),
{
    let mut r = String::from_str("\n✅ Completed: ");
    let c = decimal_string(count_selected(intents, ListFilter::Completed) as u64);
    r.append(c.as_str());
    r.append("\n");
    r
}

/// Reports all intents under the heading: the active ones one by one, the
/// number committed, and the graph's and memory's counts where known.
pub fn overview_report(
    project: Option<&str>,
    intents: &Vec<IntentRecord>,
    graph: Option<(usize, usize)>,
    episodes: Option<usize>,
) -> (r: String)
    requires
        active_goals_cuttable(intents@, 50),
    ensures
        r@ == status_header_text(match project {
            Some(p) => Some(p@),
            None => None,
        }) + overview_text(intents@, graph, episodes),
{
    let mut r = status_header(project);
    let ghost h = r@;
    let a = active_section(intents);
    r.append(a.as_str());
    let c = completed_line(intents);
    r.append(c.as_str());
    let g = graph_line(graph);
    r.append(g.as_str());
    let m = memory_line(episodes);
    r.append(m.as_str());
    assert(r@ =~= h + overview_text(intents@, graph, episodes));
    r
}

} // verus!
