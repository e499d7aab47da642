//! `smelt validate`: the delta validated for the working directory, and how
//! the validator's findings are printed.

use vstd::prelude::*;
use crate::ids::new_id;
use crate::mcp::validate::{of_severity, opt_line, Severity, ValidationOutcome, Violation};
use crate::text::{decimal, decimal_string};
use crate::time::Timestamp;
use crate::types::delta::{zero_impact, ImpactSummary, SemanticDelta};
use crate::types::intent::IntentRecord;
use crate::types::snapshot::SnapshotId;

verus! {

/// The delta validated for the working directory: for the intent if there
/// is one (else a fresh id), from its baseline (else the current snapshot)
/// to the current snapshot, with the number of changed files as its impact.
pub fn validation_delta_for(intent: Option<&IntentRecord>, current: SnapshotId, changed: usize) -> (r:
    SemanticDelta)
    ensures
        intent matches Some(i) ==> r.intent_id == i.id,
        r.from_snapshot == match intent {
            Some(i) => match i.baseline_snapshot_id {
                Some(b) => b,
                None => current,
            },
            None => current,
        },
        r.to_snapshot == current,
        r.changes@.len() == 0,
        r.impact_summary == (ImpactSummary { files_affected: changed, ..zero_impact() }),
{
    let intent_id = match intent {
        Some(i) => i.id,
        None => new_id(),
    };
    let baseline = match intent {
        Some(i) => match i.baseline_snapshot_id {
            Some(b) => b,
            None => current,
        },
        None => current,
    };
    let mut impact = ImpactSummary::default();
    impact.files_affected = changed;
    SemanticDelta {
        id: new_id(),
        intent_id,
        timestamp: Timestamp::now(),
        from_snapshot: baseline,
        to_snapshot: current,
        changes: Vec::new(),
        impact_summary: impact,
    }
}

/// A finding as the command prints it: sign, rule and message, then where
/// (when asked for) and how to fix.
pub open spec fn finding_lines(vs: Seq<Violation>, sign: Seq<char>, located: bool) -> Seq<char>
    decreases vs.len(),
{
    if vs.len() == 0 {
        Seq::empty()
    } else {
        let v = vs.last();
        finding_lines(vs.drop_last(), sign, located) + "  "@ + sign + " "@ + v.rule@ + " - "@
            + v.message@ + "\n"@ + if located {
            opt_line("     at "@, v.location) + opt_line("     → "@, v.suggestion)
        } else {
            Seq::empty()
        }
    }
}

fn opt_text(before: &str, text: &Option<String>) -> (r: String)
    ensures
        r@ == opt_line(before@, *text),
{
    let mut r = String::new();
    match text {
        Some(t) => {
            r.append(before);
            r.append(t.as_str());
            r.append("\n");
        },
        None => {},
    }
    r
}

/// Prints the findings of one severity.
pub fn findings_text(vs: &Vec<Violation>, s: Severity, sign: &str, located: bool) -> (r: String)
    ensures
        r@ == finding_lines(of_severity(vs@, s), sign@, located),
{
    let mut r = String::new();
    let mut k: usize = 0;
    while k < vs.len()
        invariant
            k <= vs@.len(),
            r@ == finding_lines(of_severity(vs@.take(k as int), s), sign@, located),
        decreases vs.len() - k,
    {
        let ghost p = of_severity(vs@.take(k as int), s);
        assert(vs@.take(k + 1).drop_last() =~= vs@.take(k as int));
        let v = &vs[k];
        if v.severity == s {
            assert(p.push(*v).drop_last() =~= p);
            r.append("  ");
            r.append(sign);
            r.append(" ");
            r.append(v.rule.as_str());
            r.append(" - ");
            r.append(v.message.as_str());
            r.append("\n");
            let mut extra = String::new();
            if located {
                let a = opt_text("     at ", &v.location);
                extra.append(a.as_str());
                let b = opt_text("     → ", &v.suggestion);
                extra.append(b.as_str());
            }
            r.append(extra.as_str());
        }
        k = k + 1;
    }
    assert(vs@.take(vs@.len() as int) =~= vs@);
    r
}

/// The heading of a section of findings, when there are any: a blank line,
/// then the title and the count.
pub fn section_heading(title: &str, count: usize) -> (r: String)
    ensures
        count == 0 ==> r@ == Seq::<char>::empty(),
        count > 0 ==> r@ == "\n"@ + title@ + " ("@ + decimal(count as nat) + "):\n"@,
{
    let mut r = String::new();
    if count > 0 {
        r.append("\n");
        r.append(title);
        r.append(" (");
        let n = decimal_string(count as u64);
        r.append(n.as_str());
        r.append("):\n");
    }
    r
}

/// The closing verdict of a validation.
pub fn validate_verdict(outcome: &ValidationOutcome) -> (r: String)
    ensures
        outcome.passed ==> r@ == "\n✅ Validation passed\n"@ + if outcome.warning_count > 0 {
            "   "@ + decimal(outcome.warning_count as nat)
                + " warning(s) - consider addressing before commit\n"@
        } else {
            Seq::empty()
        },
        !outcome.passed ==> r@ == "\n❌ Validation failed: "@ + decimal(outcome.error_count as nat)
            + " error(s)\n"@,
{
    if outcome.passed {
        let mut r = String::from_str("\n✅ Validation passed\n");
        let mut w = String::new();
        if outcome.warning_count > 0 {
            w.append("   ");
            let n = decimal_string(outcome.warning_count as u64);
            w.append(n.as_str());
            w.append(" warning(s) - consider addressing before commit\n");
        }
        r.append(w.as_str());
        r
    } else {
        let mut r = String::from_str("\n❌ Validation failed: ");
        let n = decimal_string(outcome.error_count as u64);
        r.append(n.as_str());
        r.append(" error(s)\n");
        r
    }
}

} // verus!
