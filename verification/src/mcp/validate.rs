//! The validate tool: which delta is validated, and how the validator's
//! findings are reported.
//!
//! The validator itself runs in the application; its findings reach this
//! module as [`ValidationOutcome`] values.

use vstd::prelude::*;
use crate::cli::{cuttable, short_id, truncate, truncated};
use crate::ids::{new_id, uuid_text};
use crate::mcp::intents::capped;
use crate::text::{
    decimal, decimal_string, lemma_occurs_in_middle, lemma_occurs_in_self, lemma_occurs_in_transitive,
    occurs_in,
};
use crate::time::Timestamp;
use crate::types::delta::{zero_impact, ImpactSummary, SemanticDelta};
use crate::types::intent::IntentRecord;

verus! {

/// How serious a finding is.
#[derive(Clone, Copy, Debug, PartialEq, Eq, Structural)]
pub enum Severity {
    /// Blocks a commit.
    Error,
    /// Should be looked at.
    Warning,
    /// For information only.
    Info,
}

/// One finding of the validator.
#[derive(Debug)]
pub struct Violation {
    /// The rule broken.
    pub rule: String,
    /// What is wrong.
    pub message: String,
    /// How serious it is.
    pub severity: Severity,
    /// Where it is, when known.
    pub location: Option<String>,
    /// How to fix it, when known.
    pub suggestion: Option<String>,
}

/// What the validator found.
#[derive(Debug)]
pub struct ValidationOutcome {
    /// Whether the change may be committed.
    pub passed: bool,
    /// Every finding, in order.
    pub violations: Vec<Violation>,
    /// Number of errors.
    pub error_count: usize,
    /// Number of warnings.
    pub warning_count: usize,
    /// Number of informational findings.
    pub info_count: usize,
}

/// The findings of one severity, in order.
pub open spec fn of_severity(vs: Seq<Violation>, s: Severity) -> Seq<Violation>
    decreases vs.len(),
{
    if vs.len() == 0 {
        Seq::empty()
    } else if vs.last().severity == s {
        of_severity(vs.drop_last(), s).push(vs.last())
    } else {
        of_severity(vs.drop_last(), s)
    }
}

/// An optional line: `before`, the text, and a newline, when there is a text.
pub open spec fn opt_line(before: Seq<char>, text: Option<String>) -> Seq<char> {
    match text {
        Some(t) => before + t@ + "\n"@,
        None => Seq::empty(),
    }
}

/// The lines of the errors: rule and message, then where and how to fix.
pub open spec fn error_lines(vs: Seq<Violation>) -> Seq<char>
    decreases vs.len(),
{
    if vs.len() == 0 {
        Seq::empty()
    } else {
        let v = vs.last();
        error_lines(vs.drop_last()) + "  - ["@ + v.rule@ + "] "@ + v.message@ + "\n"@ + opt_line(
            "    at: "@,
            v.location,
        ) + opt_line("    💡 "@, v.suggestion)
    }
}

/// The lines of the warnings: rule and message, then how to fix.
pub open spec fn warning_lines(vs: Seq<Violation>) -> Seq<char>
    decreases vs.len(),
{
    if vs.len() == 0 {
        Seq::empty()
    } else {
        let v = vs.last();
        warning_lines(vs.drop_last()) + "  - ["@ + v.rule@ + "] "@ + v.message@ + "\n"@
            + opt_line("    💡 "@, v.suggestion)
    }
}

/// The lines of informational findings: their messages.
pub open spec fn info_lines(vs: Seq<Violation>) -> Seq<char>
    decreases vs.len(),
{
    if vs.len() == 0 {
        Seq::empty()
    } else {
        info_lines(vs.drop_last()) + "  - "@ + vs.last().message@ + "\n"@
    }
}

/// The section on informational findings: the first five, and how many
/// more there are.
pub open spec fn info_section(vs: Seq<Violation>) -> Seq<char> {
    let infos = of_severity(vs, Severity::Info);
    if infos.len() > 0 {
        "ℹ️ Info:\n"@ + info_lines(capped(infos, 5)) + if infos.len() > 5 {
            "  ... and "@ + decimal((infos.len() - 5) as nat) + " more\n"@
        } else {
            Seq::empty()
        }
    } else {
        Seq::empty()
    }
}

/// The report of a validation.
pub open spec fn validation_text(intent: Option<IntentRecord>, o: ValidationOutcome) -> Seq<char> {
    "🔍 Validation Results\n"@ + "=====================\n\n"@ + match intent {
        Some(i) => "Intent: "@ + uuid_text(i.id).subrange(0, 8) + " ("@ + truncated(i.goal@, 40)
            + ")\n\n"@,
        None => Seq::empty(),
    } + if o.passed {
        "✅ Validation PASSED\n\n"@
    } else {
        "❌ Validation FAILED\n\n"@
    } + "Summary: "@ + decimal(o.error_count as nat) + " errors, "@ + decimal(
        o.warning_count as nat,
    ) + " warnings, "@ + decimal(o.info_count as nat) + " info\n\n"@ + if o.error_count > 0 {
        "🚫 Errors:\n"@ + error_lines(of_severity(o.violations@, Severity::Error)) + "\n"@
    } else {
        Seq::empty()
    } + if o.warning_count > 0 {
        "⚠️ Warnings:\n"@ + warning_lines(of_severity(o.violations@, Severity::Warning)) + "\n"@
    } else {
        Seq::empty()
    } + info_section(o.violations@) + if o.passed {
        "\n✅ Ready to commit with smelt_commit\n"@
    } else {
        "\n❌ Please fix the errors before committing\n"@
    }
}

fn opt_line_text(before: &str, text: &Option<String>) -> (r: String)
    ensures
        r@ == opt_line(before@, *text),
{
    let mut r = String::new();
    match text {
        Some(t) => {
            r.append(before);
            r.append(t.as_str());
            r.append("\n");
        },
        None => {},
    }
    r
}

fn error_lines_text(vs: &Vec<Violation>) -> (r: String)
    ensures
        r@ == error_lines(of_severity(vs@, Severity::Error)),
{
    let mut r = String::new();
    let mut k: usize = 0;
    while k < vs.len()
        invariant
            k <= vs@.len(),
            r@ == error_lines(of_severity(vs@.take(k as int), Severity::Error)),
        decreases vs.len() - k,
    {
        let ghost p = of_severity(vs@.take(k as int), Severity::Error);
        assert(vs@.take(k + 1).drop_last() =~= vs@.take(k as int));
        let v = &vs[k];
        if v.severity == Severity::Error {
            assert(p.push(*v).drop_last() =~= p);
            r.append("  - [");
            r.append(v.rule.as_str());
            r.append("] ");
            r.append(v.message.as_str());
            r.append("\n");
            let a = opt_line_text("    at: ", &v.location);
            r.append(a.as_str());
            let b = opt_line_text("    💡 ", &v.suggestion);
            r.append(b.as_str());
        }
        k = k + 1;
    }
    assert(vs@.take(vs@.len() as int) =~= vs@);
    r
}

fn warning_lines_text(vs: &Vec<Violation>) -> (r: String)
    ensures
        r@ == warning_lines(of_severity(vs@, Severity::Warning)),
{
    let mut r = String::new();
    let mut k: usize = 0;
    while k < vs.len()
        invariant
            k <= vs@.len(),
            r@ == warning_lines(of_severity(vs@.take(k as int), Severity::Warning)),
        decreases vs.len() - k,
    {
        let ghost p = of_severity(vs@.take(k as int), Severity::Warning);
        assert(vs@.take(k + 1).drop_last() =~= vs@.take(k as int));
        let v = &vs[k];
        if v.severity == Severity::Warning {
            assert(p.push(*v).drop_last() =~= p);
            r.append("  - [");
            r.append(v.rule.as_str());
            r.append("] ");
            r.append(v.message.as_str());
            r.append("\n");
            let b = opt_line_text("    💡 ", &v.suggestion);
            r.append(b.as_str());
        }
        k = k + 1;
    }
    assert(vs@.take(vs@.len() as int) =~= vs@);
    r
}

fn info_section_text(vs: &Vec<Violation>) -> (r: String)
    ensures
        r@ == info_section(vs@),
{
    let mut lines = String::new();
    let mut seen: usize = 0;
    let mut k: usize = 0;
    while k < vs.len()
        invariant
            k <= vs@.len(),
            seen == of_severity(vs@.take(k as int), Severity::Info).len(),
            seen <= k,
            lines@ == info_lines(capped(of_severity(vs@.take(k as int), Severity::Info), 5)),
        decreases vs.len() - k,
    {
        let ghost p = of_severity(vs@.take(k as int), Severity::Info);
        assert(vs@.take(k + 1).drop_last() =~= vs@.take(k as int));
        let v = &vs[k];
        if v.severity == Severity::Info {
            let ghost q = p.push(*v);
            if seen < 5 {
                assert(capped(q, 5) =~= capped(p, 5).push(*v));
                assert(capped(p, 5).push(*v).drop_last() =~= capped(p, 5));
                lines.append("  - ");
                lines.append(v.message.as_str());
                lines.append("\n");
            } else {
                assert(capped(q, 5) =~= capped(p, 5));
            }
            seen = seen + 1;
        }
        k = k + 1;
    }
    assert(vs@.take(vs@.len() as int) =~= vs@);
    let mut r = String::new();
    if seen > 0 {
        r.append("ℹ️ Info:\n");
        r.append(lines.as_str());
        let mut more = String::new();
        if seen > 5 {
            more.append("  ... and ");
            let n = decimal_string((seen - 5) as u64);
            more.append(n.as_str());
            more.append(" more\n");
        }
        r.append(more.as_str());
    }
    r
}

/// Reports a validation, for the intent validated against if any; its goal
/// is cut to 40 bytes.
pub fn validation_report(intent: Option<&IntentRecord>, outcome: &ValidationOutcome) -> (r: String)
    requires
        intent matches Some(i) ==> cuttable(i.goal@, 40),
    ensures
        r@ == validation_text(match intent {
            Some(i) => Some(*i),
            None => None,
        }, *outcome),
{
    let mut r = String::from_str("🔍 Validation Results\n");
    r.append("=====================\n\n");
    let mut head = String::new();
    match intent {
        Some(i) => {
            head.append("Intent: ");
            let id = short_id(i.id);
            head.append(id.as_str());
            head.append(" (");
            let g = truncate(i.goal.as_str(), 40);
            head.append(g.as_str());
            head.append(")\n\n");
        },
        None => {},
    }
    r.append(head.as_str());
    if outcome.passed {
        r.append("✅ Validation PASSED\n\n");
    } else {
        r.append("❌ Validation FAILED\n\n");
    }
    r.append("Summary: ");
    let e = decimal_string(outcome.error_count as u64);
    r.append(e.as_str());
    r.append(" errors, ");
    let w = decimal_string(outcome.warning_count as u64);
    r.append(w.as_str());
    r.append(" warnings, ");
    let n = decimal_string(outcome.info_count as u64);
    r.append(n.as_str());
    r.append(" info\n\n");
    let mut errs = String::new();
    if outcome.error_count > 0 {
        errs.append("🚫 Errors:\n");
        let lines = error_lines_text(&outcome.violations);
        errs.append(lines.as_str());
        errs.append("\n");
    }
    r.append(errs.as_str());
    let mut warns = String::new();
    if outcome.warning_count > 0 {
        warns.append("⚠️ Warnings:\n");
        let lines = warning_lines_text(&outcome.violations);
        warns.append(lines.as_str());
        warns.append("\n");
    }
    r.append(warns.as_str());
    let info = info_section_text(&outcome.violations);
    r.append(info.as_str());
    if outcome.passed {
        r.append("\n✅ Ready to commit with smelt_commit\n");
    } else {
        r.append("\n❌ Please fix the errors before committing\n");
    }
    r
}

/// The delta the tool validates: for an intent, the first delta recorded
/// for it, or else an empty one; without an intent, an empty one for no
/// intent (the nil id). An empty delta has a fresh id, the current time,
/// nil snapshots, no changes and no impact.
pub fn validation_delta(intent: Option<&IntentRecord>, recorded: Vec<SemanticDelta>) -> (r:
    SemanticDelta)
    ensures
        intent is Some && recorded@.len() > 0 ==> r == recorded@[0],
        !(intent is Some && recorded@.len() > 0) ==> {
            &&& r.intent_id == match intent {
                Some(i) => i.id,
                None => 0,
            }
            &&& r.from_snapshot == 0
            &&& r.to_snapshot == 0
            &&& r.changes@.len() == 0
            &&& r.impact_summary == zero_impact()
        },
{
    let mut recorded = recorded;
    match intent {
        Some(i) => {
            if recorded.len() > 0 {
                return recorded.remove(0);
            }
            empty_delta(i.id)
        },
        None => empty_delta(0),
    }
}

fn empty_delta(intent_id: u128) -> (r: SemanticDelta)
    ensures
        r.intent_id == intent_id,
        r.from_snapshot == 0,
        r.to_snapshot == 0,
        r.changes@.len() == 0,
        r.impact_summary == zero_impact(),
{
    SemanticDelta {
        id: new_id(),
        intent_id,
        timestamp: Timestamp::now(),
        from_snapshot: 0,
        to_snapshot: 0,
        changes: Vec::new(),
        impact_summary: ImpactSummary::default(),
    }
}

} // verus!

verus! {

/// The lines of a finding: its rule and message, where it is when that is
/// known, and how to fix it when that is known.
spec fn finding_lines(v: Violation) -> Seq<char> {
    "  - ["@ + v.rule@ + "] "@ + v.message@ + "\n"@ + match v.location {
        Some(l) => "    at: "@ + l@ + "\n"@,
        None => Seq::empty(),
    } + match v.suggestion {
        Some(t) => "    💡 "@ + t@ + "\n"@,
        None => Seq::empty(),
    }
}

proof fn lemma_error_lines_last(es: Seq<Violation>)
    requires
        es.len() > 0,
    ensures
        error_lines(es) == error_lines(es.drop_last()) + finding_lines(es.last()),
{
    let v = es.last();
    let rest = error_lines(es.drop_last());
    let a = opt_line("    at: "@, v.location);
    let b = opt_line("    💡 "@, v.suggestion);
    let head = "  - ["@ + v.rule@ + "] "@ + v.message@ + "\n"@;
    assert(error_lines(es) == rest + "  - ["@ + v.rule@ + "] "@ + v.message@ + "\n"@ + a + b);
    assert(rest + "  - ["@ + v.rule@ + "] "@ + v.message@ + "\n"@ =~= rest + head);
    assert(rest + head + a + b =~= rest + (head + a + b));
    assert(finding_lines(v) == head + a + b);
}

/// The lines reported for each error appear among the lines of the errors.
proof fn lemma_finding_lines_in_error_lines(es: Seq<Violation>, j: int)
    requires
        0 <= j < es.len(),
    ensures
        occurs_in(finding_lines(es[j]), error_lines(es)),
    decreases es.len(),
{
    let rest = error_lines(es.drop_last());
    let last = finding_lines(es.last());
    lemma_error_lines_last(es);
    if j == es.len() - 1 {
        lemma_occurs_in_self(last);
        lemma_occurs_in_middle(last, rest, last, Seq::empty());
        assert(rest + last + Seq::<char>::empty() =~= rest + last);
    } else {
        lemma_finding_lines_in_error_lines(es.drop_last(), j);
        assert(es.drop_last()[j] == es[j]);
        lemma_occurs_in_middle(finding_lines(es[j]), Seq::empty(), rest, last);
        assert(Seq::<char>::empty() + rest + last =~= rest + last);
    }
}

/// A finding of a given severity is among those of that severity.
proof fn lemma_of_severity_keeps(vs: Seq<Violation>, i: int, sev: Severity)
    requires
        0 <= i < vs.len(),
        vs[i].severity == sev,
    ensures
        exists|j: int| 0 <= j < of_severity(vs, sev).len() && #[trigger] of_severity(vs, sev)[j] == vs[i],
    decreases vs.len(),
{
    if i == vs.len() - 1 {
        let k = of_severity(vs.drop_last(), sev).len() as int;
        assert(of_severity(vs, sev)[k] == vs[i]);
    } else {
        lemma_of_severity_keeps(vs.drop_last(), i, sev);
        let j = choose|j: int|
            0 <= j < of_severity(vs.drop_last(), sev).len() && #[trigger] of_severity(vs.drop_last(), sev)[j]
                == vs.drop_last()[i];
        assert(of_severity(vs, sev)[j] == vs[i]);
    }
}

/// Every error is reported with its fix: when a validation finds errors, the
/// report holds, for each error, its rule and message, its location when it
/// has one, and then the line "    💡 " with its suggested fix when it has one.
pub proof fn lemma_errors_reported_with_fixes(intent: Option<IntentRecord>, o: ValidationOutcome, i: int)
    requires
        0 <= i < o.violations@.len(),
        o.violations@[i].severity == Severity::Error,
        o.error_count > 0,
    ensures
        occurs_in(
            "  - ["@ + o.violations@[i].rule@ + "] "@ + o.violations@[i].message@ + "\n"@
                + match o.violations@[i].location {
                Some(l) => "    at: "@ + l@ + "\n"@,
                None => Seq::empty(),
            } + match o.violations@[i].suggestion {
                Some(t) => "    💡 "@ + t@ + "\n"@,
                None => Seq::empty(),
            },
            validation_text(intent, o),
        ),
{
    let v = o.violations@[i];
    let block = finding_lines(v);
    let es = of_severity(o.violations@, Severity::Error);
    lemma_of_severity_keeps(o.violations@, i, Severity::Error);
    let j = choose|j: int| 0 <= j < es.len() && #[trigger] es[j] == v;
    lemma_finding_lines_in_error_lines(es, j);
    let errs = "🚫 Errors:\n"@ + error_lines(es) + "\n"@;
    lemma_occurs_in_middle(block, "🚫 Errors:\n"@, error_lines(es), "\n"@);
    let before = "🔍 Validation Results\n"@ + "=====================\n\n"@ + match intent {
        Some(i) => "Intent: "@ + uuid_text(i.id).subrange(0, 8) + " ("@ + truncated(i.goal@, 40)
            + ")\n\n"@,
        None => Seq::empty(),
    } + if o.passed {
        "✅ Validation PASSED\n\n"@
    } else {
        "❌ Validation FAILED\n\n"@
    } + "Summary: "@ + decimal(o.error_count as nat) + " errors, "@ + decimal(
        o.warning_count as nat,
    ) + " warnings, "@ + decimal(o.info_count as nat) + " info\n\n"@;
    let after = (if o.warning_count > 0 {
        "⚠️ Warnings:\n"@ + warning_lines(of_severity(o.violations@, Severity::Warning)) + "\n"@
    } else {
        Seq::empty()
    }) + info_section(o.violations@) + if o.passed {
        "\n✅ Ready to commit with smelt_commit\n"@
    } else {
        "\n❌ Please fix the errors before committing\n"@
    };
    lemma_occurs_in_self(errs);
    lemma_occurs_in_middle(errs, before, errs, after);
    assert(validation_text(intent, o) =~= before + errs + after);
    lemma_occurs_in_transitive(block, errs, validation_text(intent, o));
}

} // verus!

verus! {

/// The lines of a warning: its rule and message, and how to fix it when that
/// is known.
spec fn warning_finding_lines(v: Violation) -> Seq<char> {
    "  - ["@ + v.rule@ + "] "@ + v.message@ + "\n"@ + match v.suggestion {
        Some(t) => "    💡 "@ + t@ + "\n"@,
        None => Seq::empty(),
    }
}

proof fn lemma_warning_lines_last(ws: Seq<Violation>)
    requires
        ws.len() > 0,
    ensures
        warning_lines(ws) == warning_lines(ws.drop_last()) + warning_finding_lines(ws.last()),
{
    let v = ws.last();
    let rest = warning_lines(ws.drop_last());
    let b = opt_line("    💡 "@, v.suggestion);
    let head = "  - ["@ + v.rule@ + "] "@ + v.message@ + "\n"@;
    assert(rest + "  - ["@ + v.rule@ + "] "@ + v.message@ + "\n"@ =~= rest + head);
    assert(rest + head + b =~= rest + (head + b));
    assert(warning_finding_lines(v) == head + b);
}

proof fn lemma_finding_lines_in_warning_lines(ws: Seq<Violation>, j: int)
    requires
        0 <= j < ws.len(),
    ensures
        occurs_in(warning_finding_lines(ws[j]), warning_lines(ws)),
    decreases ws.len(),
{
    let rest = warning_lines(ws.drop_last());
    let last = warning_finding_lines(ws.last());
    lemma_warning_lines_last(ws);
    if j == ws.len() - 1 {
        lemma_occurs_in_self(last);
        lemma_occurs_in_middle(last, rest, last, Seq::empty());
        assert(rest + last + Seq::<char>::empty() =~= rest + last);
    } else {
        lemma_finding_lines_in_warning_lines(ws.drop_last(), j);
        assert(ws.drop_last()[j] == ws[j]);
        lemma_occurs_in_middle(warning_finding_lines(ws[j]), Seq::empty(), rest, last);
        assert(Seq::<char>::empty() + rest + last =~= rest + last);
    }
}

/// Every warning is reported with its fix: when a validation finds warnings,
/// the report holds, for each warning, its rule and message and then the line
/// "    💡 " with its suggested fix when it has one.
pub proof fn lemma_warnings_reported_with_fixes(intent: Option<IntentRecord>, o: ValidationOutcome, i: int)
    requires
        0 <= i < o.violations@.len(),
        o.violations@[i].severity == Severity::Warning,
        o.warning_count > 0,
    ensures
        occurs_in(
            "  - ["@ + o.violations@[i].rule@ + "] "@ + o.violations@[i].message@ + "\n"@
                + match o.violations@[i].suggestion {
                Some(t) => "    💡 "@ + t@ + "\n"@,
                None => Seq::empty(),
            },
            validation_text(intent, o),
        ),
{
    let v = o.violations@[i];
    let block = warning_finding_lines(v);
    let ws = of_severity(o.violations@, Severity::Warning);
    lemma_of_severity_keeps(o.violations@, i, Severity::Warning);
    let j = choose|j: int| 0 <= j < ws.len() && #[trigger] ws[j] == v;
    lemma_finding_lines_in_warning_lines(ws, j);
    let warns = "⚠️ Warnings:\n"@ + warning_lines(ws) + "\n"@;
    lemma_occurs_in_middle(block, "⚠️ Warnings:\n"@, warning_lines(ws), "\n"@);
    let before = ("🔍 Validation Results\n"@ + "=====================\n\n"@ + match intent {
        Some(i) => "Intent: "@ + uuid_text(i.id).subrange(0, 8) + " ("@ + truncated(i.goal@, 40)
            + ")\n\n"@,
        None => Seq::empty(),
    } + if o.passed {
        "✅ Validation PASSED\n\n"@
    } else {
        "❌ Validation FAILED\n\n"@
    } + "Summary: "@ + decimal(o.error_count as nat) + " errors, "@ + decimal(
        o.warning_count as nat,
    ) + " warnings, "@ + decimal(o.info_count as nat) + " info\n\n"@ + if o.error_count > 0 {
        "🚫 Errors:\n"@ + error_lines(of_severity(o.violations@, Severity::Error)) + "\n"@
    } else {
        Seq::empty()
    });
    let after = info_section(o.violations@) + if o.passed {
        "\n✅ Ready to commit with smelt_commit\n"@
    } else {
        "\n❌ Please fix the errors before committing\n"@
    };
    lemma_occurs_in_self(warns);
    lemma_occurs_in_middle(warns, before, warns, after);
    assert(validation_text(intent, o) =~= before + warns + after);
    lemma_occurs_in_transitive(block, warns, validation_text(intent, o));
}

} // verus!
