//! Semantic delta computation between two graph snapshots.

use vstd::prelude::*;
use crate::error::SmeltError;
use crate::ids::{new_id, v4_bits, v4_mask};
use crate::time::Timestamp;
use crate::types::delta::{zero_impact, ImpactSummary, SemanticChange, SemanticDelta};
use crate::types::intent::IntentId;
use crate::types::snapshot::{kinds_of, views_of, GraphSnapshot};

verus! {

/// The distinct texts of `xs`, in order of first appearance, that occur in
/// `ys` when `member` holds and do not occur there otherwise.
pub open spec fn pick(xs: Seq<Seq<char>>, ys: Seq<Seq<char>>, member: bool) -> Seq<Seq<char>>
    decreases xs.len(),
{
    if xs.len() == 0 {
        Seq::empty()
    } else {
        let prev = pick(xs.drop_last(), ys, member);
        let x = xs.last();
        if ys.contains(x) == member && !prev.contains(x) {
            prev.push(x)
        } else {
            prev
        }
    }
}

/// Files present after the change but not before.
pub open spec fn added_files(from: GraphSnapshot, to: GraphSnapshot) -> Seq<Seq<char>> {
    pick(views_of(to.files@), views_of(from.files@), false)
}

/// Files present before the change but not after.
pub open spec fn removed_files(from: GraphSnapshot, to: GraphSnapshot) -> Seq<Seq<char>> {
    pick(views_of(from.files@), views_of(to.files@), false)
}

/// Files present on both sides.
pub open spec fn common_files(from: GraphSnapshot, to: GraphSnapshot) -> Seq<Seq<char>> {
    pick(views_of(from.files@), views_of(to.files@), true)
}

/// `a - b`, or zero when `b` is larger.
pub open spec fn saturating_sub(a: int, b: int) -> int {
    if a > b { a - b } else { 0 }
}

/// The number of affected files: files added and removed, and as many common
/// files as there are new nodes.
pub open spec fn files_affected_spec(from: GraphSnapshot, to: GraphSnapshot) -> int {
    let common = common_files(from, to).len() as int;
    let grown = saturating_sub(to.node_count as int, from.node_count as int);
    added_files(from, to).len() + removed_files(from, to).len() + if common < grown {
        common
    } else {
        grown
    }
}

/// Whether a change is the addition of the file `path`, with no symbols counted.
pub open spec fn is_file_added(c: SemanticChange, path: Seq<char>) -> bool {
    match c {
        SemanticChange::FileAdded { path: p, symbol_count } => p@ == path && symbol_count == 0,
        _ => false,
    }
}

/// Whether a change is the removal of the file `path`, with no symbols counted.
pub open spec fn is_file_removed(c: SemanticChange, path: Seq<char>) -> bool {
    match c {
        SemanticChange::FileRemoved { path: p, symbol_count } => p@ == path && symbol_count == 0,
        _ => false,
    }
}

/// Whether `changes` lists, in order, the additions of `added` and then the
/// removals of `removed`.
pub open spec fn file_changes_are(
    changes: Seq<SemanticChange>,
    added: Seq<Seq<char>>,
    removed: Seq<Seq<char>>,
) -> bool {
    &&& changes.len() == added.len() + removed.len()
    &&& forall|i: int| 0 <= i < added.len() ==> is_file_added(#[trigger] changes[i], added[i])
    &&& forall|i: int|
        0 <= i < removed.len() ==> is_file_removed(#[trigger] changes[added.len() + i], removed[i])
}

/// Which group a node kind belongs to: 1 for functions, 2 for types, 0 otherwise.
pub open spec fn kind_category(kind: Seq<char>) -> int {
    if kind == "function"@ || kind == "method"@ {
        1
    } else if kind == "class"@ || kind == "struct"@ || kind == "enum"@ || kind == "type"@ {
        2
    } else {
        0
    }
}

/// The count recorded for `kind`, or zero when there is none.
pub open spec fn count_of(entries: Seq<(String, usize)>, kind: Seq<char>) -> nat
    decreases entries.len(),
{
    if entries.len() == 0 {
        0
    } else if entries.last().0@ == kind {
        entries.last().1 as nat
    } else {
        count_of(entries.drop_last(), kind)
    }
}

/// Nodes of group `cat` gained in kinds present after the change.
pub open spec fn grown(to: Seq<(String, usize)>, from: Seq<(String, usize)>, cat: int) -> nat
    decreases to.len(),
{
    if to.len() == 0 {
        0
    } else {
        let e = to.last();
        let before = count_of(from, e.0@);
        grown(to.drop_last(), from, cat) + if kind_category(e.0@) == cat && e.1 > before {
            (e.1 - before) as nat
        } else {
            0
        }
    }
}

/// Nodes of group `cat` lost in kinds present after the change.
pub open spec fn shrunk(to: Seq<(String, usize)>, from: Seq<(String, usize)>, cat: int) -> nat
    decreases to.len(),
{
    if to.len() == 0 {
        0
    } else {
        let e = to.last();
        let before = count_of(from, e.0@);
        shrunk(to.drop_last(), from, cat) + if kind_category(e.0@) == cat && e.1 < before {
            (before - e.1) as nat
        } else {
            0
        }
    }
}

/// Nodes of group `cat` in kinds that are absent after the change.
pub open spec fn vanished(from: Seq<(String, usize)>, to: Seq<(String, usize)>, cat: int) -> nat
    decreases from.len(),
{
    if from.len() == 0 {
        0
    } else {
        let e = from.last();
        vanished(from.drop_last(), to, cat) + if kind_category(e.0@) == cat && !kinds_of(
            to,
        ).contains(e.0@) {
            e.1 as nat
        } else {
            0
        }
    }
}

/// The change in node count, computed as the difference of the counts taken
/// as `i32`.
pub open spec fn node_delta(from: GraphSnapshot, to: GraphSnapshot) -> int {
    (to.node_count as i32) as int - (from.node_count as i32) as int
}

/// The impact summary of the change from `from` to `to`.
pub open spec fn impact_spec(from: GraphSnapshot, to: GraphSnapshot) -> ImpactSummary {
    let t = to.nodes_by_kind@;
    let f = from.nodes_by_kind@;
    ImpactSummary {
        files_affected: files_affected_spec(from, to) as usize,
        functions_added: grown(t, f, 1) as usize,
        functions_removed: (shrunk(t, f, 1) + vanished(f, t, 1)) as usize,
        types_added: grown(t, f, 2) as usize,
        types_removed: (shrunk(t, f, 2) + vanished(f, t, 2)) as usize,
        dependencies_added: saturating_sub(to.edge_count as int, from.edge_count as int) as usize,
        dependencies_removed: saturating_sub(from.edge_count as int, to.edge_count as int) as usize,
        complexity_delta: node_delta(from, to) as i32,
        ..zero_impact()
    }
}

/// When the counts of the delta fit in the integer types that hold them, so
/// that no addition overflows.
pub open spec fn delta_fits(from: GraphSnapshot, to: GraphSnapshot) -> bool {
    let t = to.nodes_by_kind@;
    let f = from.nodes_by_kind@;
    &&& files_affected_spec(from, to) <= usize::MAX
    &&& grown(t, f, 1) <= usize::MAX
    &&& grown(t, f, 2) <= usize::MAX
    &&& shrunk(t, f, 1) + vanished(f, t, 1) <= usize::MAX
    &&& shrunk(t, f, 2) + vanished(f, t, 2) <= usize::MAX
    &&& i32::MIN <= node_delta(from, to) <= i32::MAX
}

/// Whether `v` holds `x`.
fn contains_text(v: &Vec<String>, x: &String) -> (r: bool)
    ensures
        r == views_of(v@).contains(x@),
{
    let mut i: usize = 0;
    while i < v.len()
        invariant
            i <= v@.len(),
            forall|j: int| 0 <= j < i ==> v@[j]@ != x@,
        decreases v.len() - i,
    {
        if v[i] == *x {
            assert(views_of(v@)[i as int] == x@);
            return true;
        }
        i = i + 1;
    }
    assert forall|j: int| 0 <= j < views_of(v@).len() implies views_of(v@)[j] != x@ by {
        assert(views_of(v@)[j] == v@[j]@);
    }
    false
}

/// The distinct entries of `xs`, in order, whose membership in `ys` is `member`.
fn pick_texts(xs: &Vec<String>, ys: &Vec<String>, member: bool) -> (r: Vec<String>)
    ensures
        views_of(r@) == pick(views_of(xs@), views_of(ys@), member),
{
    let mut r: Vec<String> = Vec::new();
    let mut i: usize = 0;
    while i < xs.len()
        invariant
            i <= xs@.len(),
            views_of(r@) == pick(views_of(xs@).take(i as int), views_of(ys@), member),
        decreases xs.len() - i,
    {
        let ghost xv = views_of(xs@);
        let ghost before = views_of(r@);
        assert(xv.take(i + 1).drop_last() =~= xv.take(i as int));
        assert(xv.take(i + 1).last() == xs@[i as int]@);
        let x = &xs[i];
        let in_ys = contains_text(ys, x);
        let seen = contains_text(&r, x);
        if in_ys == member && !seen {
            r.push(x.clone());
            assert(views_of(r@) =~= before.push(x@));
        }
        i = i + 1;
    }
    assert(views_of(xs@).take(xs@.len() as int) =~= views_of(xs@));
    r
}

/// Whether `s` reads `lit`.
fn is_named(s: &String, lit: &str) -> (r: bool)
    ensures
        r == (s@ == lit@),
{
    let t = String::from_str(lit);
    *s == t
}

/// The group of a node kind: 1 for functions, 2 for types, 0 otherwise.
fn category_of(kind: &String) -> (r: u8)
    ensures
        r as int == kind_category(kind@),
{
    if is_named(kind, "function") || is_named(kind, "method") {
        1
    } else if is_named(kind, "class") || is_named(kind, "struct") || is_named(kind, "enum")
        || is_named(kind, "type") {
        2
    } else {
        0
    }
}

/// The count recorded for `kind`, or zero.
fn lookup_count(entries: &Vec<(String, usize)>, kind: &String) -> (r: usize)
    ensures
        r as nat == count_of(entries@, kind@),
{
    let mut found: usize = 0;
    let mut i: usize = 0;
    while i < entries.len()
        invariant
            i <= entries@.len(),
            found as nat == count_of(entries@.take(i as int), kind@),
        decreases entries.len() - i,
    {
        assert(entries@.take(i + 1).drop_last() =~= entries@.take(i as int));
        if entries[i].0 == *kind {
            found = entries[i].1;
        }
        i = i + 1;
    }
    assert(entries@.take(entries@.len() as int) =~= entries@);
    found
}

/// Whether some entry counts `kind`.
fn has_kind(entries: &Vec<(String, usize)>, kind: &String) -> (r: bool)
    ensures
        r == kinds_of(entries@).contains(kind@),
{
    let mut i: usize = 0;
    while i < entries.len()
        invariant
            i <= entries@.len(),
            forall|j: int| 0 <= j < i ==> entries@[j].0@ != kind@,
        decreases entries.len() - i,
    {
        if entries[i].0 == *kind {
            assert(kinds_of(entries@)[i as int] == kind@);
            return true;
        }
        i = i + 1;
    }
    assert forall|j: int| 0 <= j < kinds_of(entries@).len() implies kinds_of(entries@)[j] != kind@ by {
        assert(kinds_of(entries@)[j] == entries@[j].0@);
    }
    false
}

proof fn lemma_grown_mono(to: Seq<(String, usize)>, from: Seq<(String, usize)>, cat: int, i: int)
    requires
        0 <= i <= to.len(),
    ensures
        grown(to.take(i), from, cat) <= grown(to, from, cat),
        shrunk(to.take(i), from, cat) <= shrunk(to, from, cat),
    decreases to.len() - i,
{
    if i < to.len() {
        lemma_grown_mono(to, from, cat, i + 1);
        assert(to.take(i + 1).drop_last() =~= to.take(i));
    } else {
        assert(to.take(i) =~= to);
    }
}

proof fn lemma_vanished_mono(from: Seq<(String, usize)>, to: Seq<(String, usize)>, cat: int, i: int)
    requires
        0 <= i <= from.len(),
    ensures
        vanished(from.take(i), to, cat) <= vanished(from, to, cat),
    decreases from.len() - i,
{
    if i < from.len() {
        lemma_vanished_mono(from, to, cat, i + 1);
        assert(from.take(i + 1).drop_last() =~= from.take(i));
    } else {
        assert(from.take(i) =~= from);
    }
}

/// Appends the file additions and removals between the snapshots and records
/// how many files the change affects.
fn compute_file_changes(
    from: &GraphSnapshot,
    to: &GraphSnapshot,
    changes: &mut Vec<SemanticChange>,
    impact: &mut ImpactSummary,
)
    requires
        files_affected_spec(*from, *to) <= usize::MAX,
    ensures
        final(changes)@.subrange(0, old(changes)@.len() as int) == old(changes)@,
        file_changes_are(
            final(changes)@.subrange(old(changes)@.len() as int, final(changes)@.len() as int),
            added_files(*from, *to),
            removed_files(*from, *to),
        ),
        *final(impact) == (ImpactSummary {
            files_affected: files_affected_spec(*from, *to) as usize,
            ..*old(impact)
        }),
{
    let added = pick_texts(&to.files, &from.files, false);
    let removed = pick_texts(&from.files, &to.files, false);
    let common = pick_texts(&from.files, &to.files, true);
    let ghost start = changes@.len() as int;
    let ghost initial = changes@;
    assert(added@.len() == views_of(added@).len());
    assert(removed@.len() == views_of(removed@).len());
    assert(common@.len() == views_of(common@).len());

    let mut i: usize = 0;
    while i < added.len()
        invariant
            i <= added@.len(),
            0 <= start,
            changes@.len() == start + i,
            changes@.subrange(0, start) == initial,
            forall|j: int| 0 <= j < i ==> is_file_added(#[trigger] changes@[start + j], added@[j]@),
        decreases added.len() - i,
    {
        let ghost prev = changes@;
        changes.push(SemanticChange::FileAdded { path: added[i].clone(), symbol_count: 0 });
        assert(changes@ == prev.push(changes@.last()));
        assert(changes@.subrange(0, start) =~= prev.subrange(0, start));
        i = i + 1;
    }
    let mut k: usize = 0;
    while k < removed.len()
        invariant
            k <= removed@.len(),
            0 <= start,
            changes@.len() == start + added@.len() + k,
            changes@.subrange(0, start) == initial,
            forall|j: int|
                0 <= j < added@.len() ==> is_file_added(#[trigger] changes@[start + j], added@[j]@),
            forall|j: int|
                0 <= j < k ==> is_file_removed(
                    #[trigger] changes@[start + added@.len() + j],
                    removed@[j]@,
                ),
        decreases removed.len() - k,
    {
        let ghost prev = changes@;
        changes.push(SemanticChange::FileRemoved { path: removed[k].clone(), symbol_count: 0 });
        assert(changes@ == prev.push(changes@.last()));
        assert(changes@.subrange(0, start) =~= prev.subrange(0, start));
        k = k + 1;
    }
    let ghost tail = changes@.subrange(start, changes@.len() as int);
    assert forall|j: int|
        0 <= j < added_files(*from, *to).len() implies is_file_added(
        #[trigger] tail[j],
        added_files(*from, *to)[j],
    ) by {
        assert(views_of(added@)[j] == added@[j]@);
        assert(tail[j] == changes@[start + j]);
    }
    assert forall|j: int|
        0 <= j < removed_files(*from, *to).len() implies is_file_removed(
        #[trigger] tail[added_files(*from, *to).len() + j],
        removed_files(*from, *to)[j],
    ) by {
        assert(views_of(removed@)[j] == removed@[j]@);
        assert(tail[added@.len() + j] == changes@[start + added@.len() + j]);
    }

    let grown_nodes: usize = if to.node_count > from.node_count {
        to.node_count - from.node_count
    } else {
        0
    };
    let modified: usize = if common.len() < grown_nodes {
        common.len()
    } else {
        grown_nodes
    };
    impact.files_affected = added.len() + removed.len() + modified;
}

/// Records how many functions and types were added and removed, judged from
/// the node counts by kind, and the change in dependencies and node count.
fn compute_node_changes(
    from: &GraphSnapshot,
    to: &GraphSnapshot,
    _changes: &mut Vec<SemanticChange>,
    impact: &mut ImpactSummary,
)
    requires
        delta_fits(*from, *to),
        old(impact).functions_added == 0,
        old(impact).functions_removed == 0,
        old(impact).types_added == 0,
        old(impact).types_removed == 0,
        old(impact).dependencies_added == 0,
        old(impact).dependencies_removed == 0,
    ensures
        final(_changes)@ == old(_changes)@,
        *final(impact) == (ImpactSummary {
            functions_added: impact_spec(*from, *to).functions_added,
            functions_removed: impact_spec(*from, *to).functions_removed,
            types_added: impact_spec(*from, *to).types_added,
            types_removed: impact_spec(*from, *to).types_removed,
            dependencies_added: impact_spec(*from, *to).dependencies_added,
            dependencies_removed: impact_spec(*from, *to).dependencies_removed,
            complexity_delta: impact_spec(*from, *to).complexity_delta,
            ..*old(impact)
        }),
{
    let ghost t = to.nodes_by_kind@;
    let ghost f = from.nodes_by_kind@;
    let ghost base = *impact;
    let mut i: usize = 0;
    while i < to.nodes_by_kind.len()
        invariant
            i <= t.len(),
            t == to.nodes_by_kind@,
            f == from.nodes_by_kind@,
            delta_fits(*from, *to),
            impact.functions_added == grown(t.take(i as int), f, 1),
            impact.types_added == grown(t.take(i as int), f, 2),
            impact.functions_removed == shrunk(t.take(i as int), f, 1),
            impact.types_removed == shrunk(t.take(i as int), f, 2),
            *impact == (ImpactSummary {
                functions_added: impact.functions_added,
                functions_removed: impact.functions_removed,
                types_added: impact.types_added,
                types_removed: impact.types_removed,
                ..base
            }),
        decreases t.len() - i,
    {
        proof {
            assert(t.take(i + 1).drop_last() =~= t.take(i as int));
            assert(t.take(i + 1).last() == t[i as int]);
            lemma_grown_mono(t, f, 1, i + 1);
            lemma_grown_mono(t, f, 2, i + 1);
            lemma_vanished_mono(f, t, 1, 0);
            lemma_vanished_mono(f, t, 2, 0);
        }
        let kind = &to.nodes_by_kind[i].0;
        let to_count = to.nodes_by_kind[i].1;
        let from_count = lookup_count(&from.nodes_by_kind, kind);
        let cat = category_of(kind);
        if to_count > from_count {
            let added = to_count - from_count;
            if cat == 1 {
                impact.functions_added = impact.functions_added + added;
            } else if cat == 2 {
                impact.types_added = impact.types_added + added;
            }
        } else if to_count < from_count {
            let removed = from_count - to_count;
            if cat == 1 {
                impact.functions_removed = impact.functions_removed + removed;
            } else if cat == 2 {
                impact.types_removed = impact.types_removed + removed;
            }
        }
        i = i + 1;
    }
    assert(t.take(t.len() as int) =~= t);
    let ghost mid = *impact;
    let mut j: usize = 0;
    while j < from.nodes_by_kind.len()
        invariant
            j <= f.len(),
            t == to.nodes_by_kind@,
            f == from.nodes_by_kind@,
            delta_fits(*from, *to),
            impact.functions_removed == shrunk(t, f, 1) + vanished(f.take(j as int), t, 1),
            impact.types_removed == shrunk(t, f, 2) + vanished(f.take(j as int), t, 2),
            *impact == (ImpactSummary {
                functions_removed: impact.functions_removed,
                types_removed: impact.types_removed,
                ..mid
            }),
        decreases f.len() - j,
    {
        proof {
            assert(f.take(j + 1).drop_last() =~= f.take(j as int));
            assert(f.take(j + 1).last() == f[j as int]);
            lemma_vanished_mono(f, t, 1, j + 1);
            lemma_vanished_mono(f, t, 2, j + 1);
        }
        let kind = &from.nodes_by_kind[j].0;
        let from_count = from.nodes_by_kind[j].1;
        if !has_kind(&to.nodes_by_kind, kind) {
            let cat = category_of(kind);
            if cat == 1 {
                impact.functions_removed = impact.functions_removed + from_count;
            } else if cat == 2 {
                impact.types_removed = impact.types_removed + from_count;
            }
        }
        j = j + 1;
    }
    assert(f.take(f.len() as int) =~= f);
    if to.edge_count > from.edge_count {
        impact.dependencies_added = to.edge_count - from.edge_count;
    } else if to.edge_count < from.edge_count {
        impact.dependencies_removed = from.edge_count - to.edge_count;
    }
    let node_delta: i32 = to.node_count as i32 - from.node_count as i32;
    impact.complexity_delta = node_delta;
}

/// The delta from `from` to `to` for an intent, with the given id and time:
/// the file additions, then the file removals, and the impact summary.
pub fn compute_delta_at(
    intent_id: IntentId,
    from: &GraphSnapshot,
    to: &GraphSnapshot,
    id: u128,
    timestamp: Timestamp,
) -> (r: SemanticDelta)
    requires
        from.well_formed(),
        to.well_formed(),
        delta_fits(*from, *to),
    ensures
        r.id == id,
        r.intent_id == intent_id,
        r.timestamp == timestamp,
        r.from_snapshot == from.id,
        r.to_snapshot == to.id,
        file_changes_are(r.changes@, added_files(*from, *to), removed_files(*from, *to)),
        r.impact_summary == impact_spec(*from, *to),
{
    let mut changes: Vec<SemanticChange> = Vec::new();
    let mut impact = ImpactSummary::default();
    compute_file_changes(from, to, &mut changes, &mut impact);
    assert(changes@.subrange(0, changes@.len() as int) =~= changes@);
    compute_node_changes(from, to, &mut changes, &mut impact);
    SemanticDelta {
        id,
        intent_id,
        timestamp,
        from_snapshot: from.id,
        to_snapshot: to.id,
        changes,
        impact_summary: impact,
    }
}

/// Computes the semantic delta between two snapshots for an intent, with a
/// fresh id and the current time. It always succeeds.
pub fn compute_delta(intent_id: IntentId, from: &GraphSnapshot, to: &GraphSnapshot) -> (r: Result<
    SemanticDelta,
    SmeltError,
>)
    requires
        from.well_formed(),
        to.well_formed(),
        delta_fits(*from, *to),
    ensures
        r matches Ok(d) && d.id & v4_mask() == v4_bits() && d.intent_id == intent_id
            && d.from_snapshot == from.id && d.to_snapshot
            == to.id && file_changes_are(d.changes@, added_files(*from, *to), removed_files(*from, *to))
            && d.impact_summary == impact_spec(*from, *to),
{
    let id = new_id();
    let now = Timestamp::now();
    Ok(compute_delta_at(intent_id, from, to, id, now))
}

/// Detailed delta computation over the graph's nodes, which is not
/// available yet: it always fails with `DeltaComputation`.
pub fn compute_detailed_delta(
    intent_id: IntentId,
    from: &GraphSnapshot,
    to: &GraphSnapshot,
    graph: &crate::graph::SmeltGraph,
) -> (r: Result<SemanticDelta, SmeltError>)
    ensures
        r matches Err(SmeltError::DeltaComputation(m)) && m@
            == "Detailed delta computation not yet implemented"@,
{
    Err(SmeltError::DeltaComputation(String::from_str("Detailed delta computation not yet implemented")))
}

} // verus!

verus! {

/// A kind that is the only one on both sides, going from `a` nodes to `b`:
/// a function kind ("function" or "method") counts its growth as functions
/// added and its loss as functions removed; a type kind ("class", "struct",
/// "enum" or "type") counts them as types added and removed; any other kind
/// counts as neither.
pub proof fn lemma_kind_groups(from: GraphSnapshot, to: GraphSnapshot, kind: Seq<char>, a: usize, b: usize)
    requires
        from.nodes_by_kind@.len() == 1,
        from.nodes_by_kind@[0].0@ == kind,
        from.nodes_by_kind@[0].1 == a,
        to.nodes_by_kind@.len() == 1,
        to.nodes_by_kind@[0].0@ == kind,
        to.nodes_by_kind@[0].1 == b,
    ensures
        kind == "function"@ || kind == "method"@ ==> {
            &&& impact_spec(from, to).functions_added == if b > a { b - a } else { 0 }
            &&& impact_spec(from, to).functions_removed == if a > b { a - b } else { 0 }
            &&& impact_spec(from, to).types_added == 0
            &&& impact_spec(from, to).types_removed == 0
        },
        kind == "class"@ || kind == "struct"@ || kind == "enum"@ || kind == "type"@ ==> {
            &&& impact_spec(from, to).types_added == if b > a { b - a } else { 0 }
            &&& impact_spec(from, to).types_removed == if a > b { a - b } else { 0 }
            &&& impact_spec(from, to).functions_added == 0
            &&& impact_spec(from, to).functions_removed == 0
        },
        kind != "function"@ && kind != "method"@ && kind != "class"@ && kind != "struct"@ && kind
            != "enum"@ && kind != "type"@ ==> {
            &&& impact_spec(from, to).functions_added == 0
            &&& impact_spec(from, to).functions_removed == 0
            &&& impact_spec(from, to).types_added == 0
            &&& impact_spec(from, to).types_removed == 0
        },
{
    reveal_strlit("function");
    reveal_strlit("method");
    reveal_strlit("class");
    reveal_strlit("struct");
    reveal_strlit("enum");
    reveal_strlit("type");
    let f = from.nodes_by_kind@;
    let t = to.nodes_by_kind@;
    assert(f.drop_last().len() == 0);
    assert(t.drop_last().len() == 0);
    assert(count_of(f, kind) == a);
    assert(kinds_of(t)[0] == kind);
    assert(kinds_of(t).contains(kind));
    assert(grown(t.drop_last(), f, 1) == 0);
    assert(grown(t.drop_last(), f, 2) == 0);
    assert(shrunk(t.drop_last(), f, 1) == 0);
    assert(shrunk(t.drop_last(), f, 2) == 0);
    assert(vanished(f.drop_last(), t, 1) == 0);
    assert(vanished(f.drop_last(), t, 2) == 0);
    if kind == "function"@ || kind == "method"@ {
        assert(kind_category(kind) == 1);
        assert(!(kind == "class"@ || kind == "struct"@ || kind == "enum"@ || kind == "type"@)) by {
            assert(kind.len() == 8 || kind[0] == 'm');
        }
    } else if kind == "class"@ || kind == "struct"@ || kind == "enum"@ || kind == "type"@ {
        assert(kind != "function"@) by {
            assert(kind.len() != 8 || kind[0] != 'f');
        }
        assert(kind != "method"@) by {
            assert(kind.len() != 6 || kind[0] != 'm');
        }
        assert(kind_category(kind) == 2);
    } else {
        assert(kind_category(kind) == 0);
    }
}

/// A function kind that disappears takes its nodes with it: when "function"
/// or "method" is the only kind before and there is none after, all its `a`
/// nodes count as functions removed.
pub proof fn lemma_vanished_functions_are_removed(from: GraphSnapshot, to: GraphSnapshot, kind: Seq<char>, a: usize)
    requires
        kind == "function"@ || kind == "method"@,
        from.nodes_by_kind@.len() == 1,
        from.nodes_by_kind@[0].0@ == kind,
        from.nodes_by_kind@[0].1 == a,
        to.nodes_by_kind@.len() == 0,
    ensures
        impact_spec(from, to).functions_removed == a,
        impact_spec(from, to).functions_added == 0,
        impact_spec(from, to).types_removed == 0,
{
    let f = from.nodes_by_kind@;
    let t = to.nodes_by_kind@;
    assert(f.drop_last().len() == 0);
    assert(!kinds_of(t).contains(kind));
    assert(kind_category(kind) == 1);
    assert(vanished(f.drop_last(), t, 1) == 0);
    assert(vanished(f.drop_last(), t, 2) == 0);
}

} // verus!
