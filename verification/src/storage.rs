//! How intents and deltas are laid out as database rows, and read back.
//!
//! The database itself is driven by the application; the library decides what
//! goes into each column and what a row means.

use vstd::prelude::*;
use serde_json;
use crate::error::SmeltError;
use crate::ids::{id_to_string, ok_id, parse_id, uuid_parse, uuid_text};
use crate::text::{clone_opt, str_eq};
use crate::time::{in_four_digit_years, ok_instant, rfc3339_parse, rfc3339_text, Timestamp};
use crate::types::delta::{ImpactSummary, SemanticChange, SemanticDelta};
use crate::types::intent::{Author, AuthorType, Constraint, ContextLinks, IntentId, IntentRecord, IntentStatus};

verus! {

/// The JSON text `serde_json::to_string` gives for a list of strings, if any.
pub uninterp spec fn json_of_strings(items: Seq<Seq<char>>) -> Option<Seq<char>>;

/// The list of strings `serde_json::from_str` reads from a text, if any.
pub uninterp spec fn strings_of_json(text: Seq<char>) -> Option<Seq<Seq<char>>>;

/// The views of a list of strings.
pub open spec fn texts(v: Seq<String>) -> Seq<Seq<char>> {
    v.map_values(|s: String| s@)
}

/// Calls `serde_json::to_string` on a list of strings; `None` on its error.
/// A list of strings always serializes (each string is written as an escaped
/// JSON string into an in-memory buffer, which cannot fail), and
/// `serde_json::from_str` reads the text written back as the same list.
#[verifier::external_body]
fn strings_to_json(items: &Vec<String>) -> (r: Option<String>)
    ensures
        r is Some,
        match r {
            Some(t) => json_of_strings(texts(items@)) == Some(t@) && strings_of_json(t@) == Some(
                texts(items@),
            ),
            None => json_of_strings(texts(items@)) is None,
        },
{
    serde_json::to_string(items).ok()
}

/// Calls `serde_json::from_str` to read a list of strings; `None` on its error.
#[verifier::external_body]
fn strings_from_json(text: &str) -> (r: Option<Vec<String>>)
    ensures
        match r {
            Some(v) => strings_of_json(text@) == Some(texts(v@)),
            None => strings_of_json(text@) is None,
        },
{
    serde_json::from_str::<Vec<String>>(text).ok()
}

/// An intent status as plain values.
pub enum StatusView {
    Draft,
    InProgress,
    PendingValidation,
    Validated,
    Committed(Seq<char>),
    Rejected(Seq<Seq<char>>),
    Abandoned,
}

/// The plain value of a status.
pub open spec fn status_view(s: IntentStatus) -> StatusView {
    match s {
        IntentStatus::Draft => StatusView::Draft,
        IntentStatus::InProgress => StatusView::InProgress,
        IntentStatus::PendingValidation => StatusView::PendingValidation,
        IntentStatus::Validated => StatusView::Validated,
        IntentStatus::Committed { git_sha } => StatusView::Committed(git_sha@),
        IntentStatus::Rejected { violations } => StatusView::Rejected(texts(violations@)),
        IntentStatus::Abandoned => StatusView::Abandoned,
    }
}

/// The label stored in the status column.
pub open spec fn status_label(s: StatusView) -> Seq<char> {
    match s {
        StatusView::Draft => "Draft"@,
        StatusView::InProgress => "InProgress"@,
        StatusView::PendingValidation => "PendingValidation"@,
        StatusView::Validated => "Validated"@,
        StatusView::Committed(_) => "Committed"@,
        StatusView::Rejected(_) => "Rejected"@,
        StatusView::Abandoned => "Abandoned"@,
    }
}

/// The text stored in the status data column: the SHA of a commit, the JSON
/// list of violations (empty if it cannot be written), or nothing.
pub open spec fn status_data(s: StatusView) -> Option<Seq<char>> {
    match s {
        StatusView::Committed(sha) => Some(sha),
        StatusView::Rejected(v) => Some(
            match json_of_strings(v) {
                Some(t) => t,
                None => Seq::empty(),
            },
        ),
        _ => None,
    }
}

/// The status that the two status columns denote; an unknown label reads as a draft.
pub open spec fn status_of_columns(label: Seq<char>, data: Option<Seq<char>>) -> StatusView {
    if label == "Draft"@ {
        StatusView::Draft
    } else if label == "InProgress"@ {
        StatusView::InProgress
    } else if label == "PendingValidation"@ {
        StatusView::PendingValidation
    } else if label == "Validated"@ {
        StatusView::Validated
    } else if label == "Committed"@ {
        StatusView::Committed(
            match data {
                Some(d) => d,
                None => Seq::empty(),
            },
        )
    } else if label == "Rejected"@ {
        StatusView::Rejected(
            match data {
                Some(d) => match strings_of_json(d) {
                    Some(v) => v,
                    None => Seq::empty(),
                },
                None => Seq::empty(),
            },
        )
    } else if label == "Abandoned"@ {
        StatusView::Abandoned
    } else {
        StatusView::Draft
    }
}

/// The two status columns of a status: its label and its data.
pub fn serialize_status(status: &IntentStatus) -> (r: (String, Option<String>))
    ensures
        r.0@ == status_label(status_view(*status)),
        status_of_columns(r.0@, opt_text(r.1)) == status_view(*status),
        match (r.1, status_data(status_view(*status))) {
            (Some(a), Some(b)) => a@ == b,
            (None, None) => true,
            _ => false,
        },
{
    proof { lemma_status_columns_roundtrip(*status); }
    match status {
        IntentStatus::Draft => (String::from_str("Draft"), None),
        IntentStatus::InProgress => (String::from_str("InProgress"), None),
        IntentStatus::PendingValidation => (String::from_str("PendingValidation"), None),
        IntentStatus::Validated => (String::from_str("Validated"), None),
        IntentStatus::Committed { git_sha } => (String::from_str("Committed"), Some(git_sha.clone())),
        IntentStatus::Rejected { violations } => {
            let data = match strings_to_json(violations) {
                Some(t) => t,
                None => String::new(),
            };
            (String::from_str("Rejected"), Some(data))
        },
        IntentStatus::Abandoned => (String::from_str("Abandoned"), None),
    }
}

/// The status that the two status columns denote.
pub fn status_from_columns(label: &str, data: Option<String>) -> (r: IntentStatus)
    ensures
        status_view(r) == status_of_columns(
            label@,
            match data {
                Some(d) => Some(d@),
                None => None,
            },
        ),
{
    if str_eq(label, "Draft") {
        IntentStatus::Draft
    } else if str_eq(label, "InProgress") {
        IntentStatus::InProgress
    } else if str_eq(label, "PendingValidation") {
        IntentStatus::PendingValidation
    } else if str_eq(label, "Validated") {
        IntentStatus::Validated
    } else if str_eq(label, "Committed") {
        let git_sha = match data {
            Some(d) => d,
            None => String::new(),
        };
        IntentStatus::Committed { git_sha }
    } else if str_eq(label, "Rejected") {
        let violations = match data {
            Some(d) => match strings_from_json(d.as_str()) {
                Some(v) => v,
                None => Vec::new(),
            },
            None => Vec::new(),
        };
        proof {
            assert(texts(Seq::<String>::empty()) =~= Seq::<Seq<char>>::empty());
        }
        IntentStatus::Rejected { violations }
    } else if str_eq(label, "Abandoned") {
        IntentStatus::Abandoned
    } else {
        IntentStatus::Draft
    }
}

/// The status read back from the columns a status is stored as: the status
/// itself, except that a rejection's violations are those read from the JSON
/// that was stored for them.
pub open spec fn status_read_back(s: IntentStatus) -> StatusView {
    match s {
        IntentStatus::Rejected { violations } => StatusView::Rejected(
            match json_of_strings(texts(violations@)) {
                Some(t) => match strings_of_json(t) {
                    Some(v) => v,
                    None => Seq::empty(),
                },
                None => match strings_of_json(Seq::empty()) {
                    Some(v) => v,
                    None => Seq::empty(),
                },
            },
        ),
        _ => status_view(s),
    }
}

/// Reading back the columns that a status is stored as gives the status back,
/// except that a rejection's violations are read from their stored JSON.
pub proof fn lemma_status_columns_roundtrip(s: IntentStatus)
    ensures
        status_of_columns(status_label(status_view(s)), status_data(status_view(s)))
            == status_read_back(s),
{
    reveal_strlit("Draft");
    reveal_strlit("InProgress");
    reveal_strlit("PendingValidation");
    reveal_strlit("Validated");
    reveal_strlit("Committed");
    reveal_strlit("Rejected");
    reveal_strlit("Abandoned");
    assert("Draft"@.len() == 5);
    assert("InProgress"@.len() == 10);
    assert("PendingValidation"@.len() == 17);
    assert("Validated"@.len() == 9);
    assert("Committed"@.len() == 9);
    assert("Rejected"@.len() == 8);
    assert("Abandoned"@.len() == 9);
    assert("Validated"@[0] != "Committed"@[0]);
    assert("Validated"@[0] != "Abandoned"@[0]);
    assert("Committed"@[0] != "Abandoned"@[0]);
}

/// The label stored for an author type, as `{:?}` prints it.
pub open spec fn author_label(t: AuthorType) -> Seq<char> {
    match t {
        AuthorType::Human => "Human"@,
        AuthorType::AI => "AI"@,
        AuthorType::Hybrid => "Hybrid"@,
    }
}

/// The author type a stored label denotes; an unknown label reads as human.
pub open spec fn author_of_label(label: Seq<char>) -> AuthorType {
    if label == "Human"@ {
        AuthorType::Human
    } else if label == "AI"@ {
        AuthorType::AI
    } else if label == "Hybrid"@ {
        AuthorType::Hybrid
    } else {
        AuthorType::Human
    }
}

/// The label stored for an author type.
pub fn author_type_label(t: AuthorType) -> (r: &'static str)
    ensures
        r@ == author_label(t),
{
    match t {
        AuthorType::Human => "Human",
        AuthorType::AI => "AI",
        AuthorType::Hybrid => "Hybrid",
    }
}

/// The author type a stored label denotes.
pub fn author_type_from_label(label: &str) -> (r: AuthorType)
    ensures
        r == author_of_label(label@),
{
    if str_eq(label, "Human") {
        AuthorType::Human
    } else if str_eq(label, "AI") {
        AuthorType::AI
    } else if str_eq(label, "Hybrid") {
        AuthorType::Hybrid
    } else {
        AuthorType::Human
    }
}

/// Every author type is read back as stored.
pub proof fn lemma_author_label_roundtrip(t: AuthorType)
    ensures
        author_of_label(author_label(t)) == t,
{
    reveal_strlit("Human");
    reveal_strlit("AI");
    reveal_strlit("Hybrid");
    assert("Human"@.len() == 5);
    assert("AI"@.len() == 2);
    assert("Hybrid"@.len() == 6);
}

} // verus!

verus! {

/// The columns an intent is stored as.
#[derive(Debug)]
pub struct IntentRow {
    pub id: String,
    pub created_at: String,
    pub author_name: String,
    pub author_email: String,
    pub author_type: String,
    pub goal: String,
    pub rationale: Option<String>,
    pub constraints: String,
    pub context_links: String,
    pub status: String,
    pub status_data: Option<String>,
    pub baseline_snapshot_id: Option<String>,
}

/// The columns a semantic delta is stored as.
#[derive(Debug)]
pub struct DeltaRow {
    pub id: String,
    pub intent_id: String,
    pub timestamp: String,
    pub from_snapshot: String,
    pub to_snapshot: String,
    pub changes: String,
    pub impact_summary: String,
}

/// The views of an optional text.
pub open spec fn opt_text(s: Option<String>) -> Option<Seq<char>> {
    match s {
        Some(t) => Some(t@),
        None => None,
    }
}

/// The id that an optional stored id denotes: nothing when absent or unreadable.
pub open spec fn opt_id_of_text(s: Option<String>) -> Option<u128> {
    match s {
        Some(t) => match uuid_parse(t@) {
            Ok(v) => Some(v),
            Err(_) => None,
        },
        None => None,
    }
}

/// Whether `row` holds the intent `i`: each column as `intent_to_row` writes it.
pub open spec fn row_holds(row: IntentRow, i: IntentRecord) -> bool {
    &&& row.id@ == uuid_text(i.id)
    &&& uuid_parse(row.id@) == ok_id(i.id)
    &&& row.created_at@ == rfc3339_text(i.created_at.secs_spec(), i.created_at.nanos_spec())
    &&& in_four_digit_years(i.created_at.secs_spec(), i.created_at.nanos_spec()) ==> rfc3339_parse(
        row.created_at@,
    ) == ok_instant((i.created_at.secs_spec(), i.created_at.nanos_spec()))
    &&& row.author_name@ == i.author.name@
    &&& row.author_email@ == i.author.email@
    &&& row.author_type@ == author_label(i.author.author_type)
    &&& row.goal@ == i.goal@
    &&& opt_text(row.rationale) == opt_text(i.rationale)
    &&& row.status@ == status_label(status_view(i.status))
    &&& opt_text(row.status_data) == status_data(status_view(i.status))
    &&& status_of_columns(row.status@, opt_text(row.status_data)) == status_view(i.status)
    &&& opt_id_of_text(row.baseline_snapshot_id) == i.baseline_snapshot_id
    &&& match (row.baseline_snapshot_id, i.baseline_snapshot_id) {
        (Some(t), Some(b)) => t@ == uuid_text(b),
        (None, None) => true,
        _ => false,
    }
}

/// The row an intent is stored as, given the JSON texts of its constraints and
/// of its context links.
pub fn intent_to_row(intent: &IntentRecord, constraints_json: String, context_links_json: String) -> (r:
    IntentRow)
    ensures
        row_holds(r, *intent),
        r.constraints == constraints_json,
        r.context_links == context_links_json,
{
    let (status, status_data) = serialize_status(&intent.status);
    let baseline_snapshot_id = match intent.baseline_snapshot_id {
        Some(b) => Some(id_to_string(b)),
        None => None,
    };
    IntentRow {
        id: id_to_string(intent.id),
        created_at: intent.created_at.to_rfc3339(),
        author_name: intent.author.name.clone(),
        author_email: intent.author.email.clone(),
        author_type: String::from_str(author_type_label(intent.author.author_type)),
        goal: intent.goal.clone(),
        rationale: clone_opt(&intent.rationale),
        constraints: constraints_json,
        context_links: context_links_json,
        status,
        status_data,
        baseline_snapshot_id,
    }
}

/// Whether `a` is the intent `b` again: the same id, creation time, author,
/// goal, rationale, constraints, context links, status and baseline.
pub open spec fn same_intent(a: IntentRecord, b: IntentRecord) -> bool {
    &&& a.id == b.id
    &&& a.created_at.secs_spec() == b.created_at.secs_spec()
    &&& a.created_at.nanos_spec() == b.created_at.nanos_spec()
    &&& a.author.name@ == b.author.name@
    &&& a.author.email@ == b.author.email@
    &&& a.author.author_type == b.author.author_type
    &&& a.goal@ == b.goal@
    &&& opt_text(a.rationale) == opt_text(b.rationale)
    &&& a.constraints == b.constraints
    &&& a.context_links == b.context_links
    &&& status_view(a.status) == status_view(b.status)
    &&& a.baseline_snapshot_id == b.baseline_snapshot_id
}

/// `prefix` followed by `s`.
fn prefixed_message(prefix: &str, s: String) -> (r: String)
    ensures
        r@ == prefix@ + s@,
{
    let mut r = String::from_str(prefix);
    r.append(s.as_str());
    r
}

/// Reads an intent back from its row, given its constraints and context links
/// as read from their JSON columns. The checks come in this order: the id, the
/// creation time, the constraints, the context links.
pub fn intent_from_row(
    row: IntentRow,
    constraints: Result<Vec<Constraint>, String>,
    context_links: Result<ContextLinks, String>,
) -> (r: Result<IntentRecord, SmeltError>)
    ensures
        match uuid_parse(row.id@) {
            Err(e) => r matches Err(SmeltError::Parse(m)) && m@ == "Invalid UUID: "@ + e,
            Ok(id) => match rfc3339_parse(row.created_at@) {
                Err(e) => r matches Err(SmeltError::Parse(m)) && m@ == "Invalid datetime: "@ + e,
                Ok(t) => match constraints {
                    Err(e) => r matches Err(SmeltError::Serialization(m)) && m == e,
                    Ok(c) => match context_links {
                        Err(e) => r matches Err(SmeltError::Serialization(m)) && m == e,
                        Ok(l) => r matches Ok(rec) && rec.id == id && rec.created_at.secs_spec()
                            == t.0 && rec.created_at.nanos_spec() == t.1 && rec.author.name
                            == row.author_name && rec.author.email == row.author_email
                            && rec.author.author_type == author_of_label(row.author_type@)
                            && rec.goal == row.goal && rec.rationale == row.rationale
                            && rec.constraints == c && rec.context_links == l && status_view(
                            rec.status,
                        ) == status_of_columns(row.status@, opt_text(row.status_data))
                            && rec.baseline_snapshot_id == opt_id_of_text(row.baseline_snapshot_id),
                    },
                },
            },
        },
        forall|i: IntentRecord|
            #![trigger row_holds(row, i)]
            row_holds(row, i) && in_four_digit_years(i.created_at.secs_spec(), i.created_at.nanos_spec())
                && constraints == Ok::<Vec<Constraint>, String>(i.constraints) && context_links == Ok::<
                ContextLinks,
                String,
            >(i.context_links) ==> (r matches Ok(rec) && same_intent(rec, i)),
{
    let ghost row0 = row;
    let ghost constraints0 = constraints;
    let ghost links0 = context_links;
    let id = match parse_id(row.id.as_str()) {
        Ok(id) => id,
        Err(e) => return Err(SmeltError::Parse(prefixed_message("Invalid UUID: ", e))),
    };
    let created_at = match Timestamp::parse_rfc3339(row.created_at.as_str()) {
        Ok(t) => t,
        Err(e) => return Err(SmeltError::Parse(prefixed_message("Invalid datetime: ", e))),
    };
    let author_type = author_type_from_label(row.author_type.as_str());
    let constraints = match constraints {
        Ok(c) => c,
        Err(e) => return Err(SmeltError::Serialization(e)),
    };
    let context_links = match context_links {
        Ok(l) => l,
        Err(e) => return Err(SmeltError::Serialization(e)),
    };
    let status = status_from_columns(row.status.as_str(), row.status_data);
    let baseline_snapshot_id = match row.baseline_snapshot_id {
        Some(t) => match parse_id(t.as_str()) {
            Ok(v) => Some(v),
            Err(_) => None,
        },
        None => None,
    };
    let rec = IntentRecord {
        id,
        created_at,
        author: Author { name: row.author_name, email: row.author_email, author_type },
        goal: row.goal,
        rationale: row.rationale,
        constraints,
        context_links,
        status,
        baseline_snapshot_id,
    };
    proof {
        assert forall|i: IntentRecord|
            #![trigger row_holds(row0, i)]
            row_holds(row0, i) && in_four_digit_years(i.created_at.secs_spec(), i.created_at.nanos_spec())
                && constraints0 == Ok::<Vec<Constraint>, String>(i.constraints) && links0 == Ok::<
                ContextLinks,
                String,
            >(i.context_links) implies same_intent(rec, i) by {
            lemma_intent_row_roundtrip(row0, i);
        }
    }
    Ok(rec)
}

/// The row a delta is stored as, given the JSON texts of its changes and of its
/// impact summary.
pub fn delta_to_row(delta: &SemanticDelta, changes_json: String, impact_json: String) -> (r: DeltaRow)
    ensures
        r.id@ == uuid_text(delta.id),
        r.intent_id@ == uuid_text(delta.intent_id),
        r.timestamp@ == rfc3339_text(delta.timestamp.secs_spec(), delta.timestamp.nanos_spec()),
        r.from_snapshot@ == uuid_text(delta.from_snapshot),
        r.to_snapshot@ == uuid_text(delta.to_snapshot),
        r.changes == changes_json,
        r.impact_summary == impact_json,
{
    DeltaRow {
        id: id_to_string(delta.id),
        intent_id: id_to_string(delta.intent_id),
        timestamp: delta.timestamp.to_rfc3339(),
        from_snapshot: id_to_string(delta.from_snapshot),
        to_snapshot: id_to_string(delta.to_snapshot),
        changes: changes_json,
        impact_summary: impact_json,
    }
}

/// The error for an id column that does not hold a UUID.
pub open spec fn bad_uuid(r: Result<SemanticDelta, SmeltError>, e: Seq<char>) -> bool {
    r matches Err(SmeltError::Parse(m)) && m@ == "Invalid UUID: "@ + e
}

/// Reads a delta back from its row, given its changes and impact summary as
/// read from their JSON columns. The checks come in this order: the id, the
/// intent id, the time, the two snapshot ids, the changes, the summary.
pub fn delta_from_row(
    row: DeltaRow,
    changes: Result<Vec<SemanticChange>, String>,
    impact: Result<ImpactSummary, String>,
) -> (r: Result<SemanticDelta, SmeltError>)
    ensures
        match uuid_parse(row.id@) {
            Err(e) => bad_uuid(r, e),
            Ok(id) => match uuid_parse(row.intent_id@) {
                Err(e) => bad_uuid(r, e),
                Ok(intent_id) => match rfc3339_parse(row.timestamp@) {
                    Err(e) => r matches Err(SmeltError::Parse(m)) && m@ == "Invalid datetime: "@ + e,
                    Ok(t) => match uuid_parse(row.from_snapshot@) {
                        Err(e) => bad_uuid(r, e),
                        Ok(from) => match uuid_parse(row.to_snapshot@) {
                            Err(e) => bad_uuid(r, e),
                            Ok(to) => match changes {
                                Err(e) => r matches Err(SmeltError::Serialization(m)) && m == e,
                                Ok(c) => match impact {
                                    Err(e) => r matches Err(SmeltError::Serialization(m)) && m == e,
                                    Ok(s) => r matches Ok(d) && d.id == id && d.intent_id == intent_id
                                        && d.timestamp.secs_spec() == t.0 && d.timestamp.nanos_spec()
                                        == t.1 && d.from_snapshot == from && d.to_snapshot == to
                                        && d.changes == c && d.impact_summary == s,
                                },
                            },
                        },
                    },
                },
            },
        },
{
    let id = match parse_id(row.id.as_str()) {
        Ok(v) => v,
        Err(e) => return Err(SmeltError::Parse(prefixed_message("Invalid UUID: ", e))),
    };
    let intent_id = match parse_id(row.intent_id.as_str()) {
        Ok(v) => v,
        Err(e) => return Err(SmeltError::Parse(prefixed_message("Invalid UUID: ", e))),
    };
    let timestamp = match Timestamp::parse_rfc3339(row.timestamp.as_str()) {
        Ok(t) => t,
        Err(e) => return Err(SmeltError::Parse(prefixed_message("Invalid datetime: ", e))),
    };
    let from_snapshot = match parse_id(row.from_snapshot.as_str()) {
        Ok(v) => v,
        Err(e) => return Err(SmeltError::Parse(prefixed_message("Invalid UUID: ", e))),
    };
    let to_snapshot = match parse_id(row.to_snapshot.as_str()) {
        Ok(v) => v,
        Err(e) => return Err(SmeltError::Parse(prefixed_message("Invalid UUID: ", e))),
    };
    let changes = match changes {
        Ok(c) => c,
        Err(e) => return Err(SmeltError::Serialization(e)),
    };
    let impact_summary = match impact {
        Ok(s) => s,
        Err(e) => return Err(SmeltError::Serialization(e)),
    };
    Ok(SemanticDelta { id, intent_id, timestamp, from_snapshot, to_snapshot, changes, impact_summary })
}

/// The outcome of a status update that touched `updated` rows: the intent was
/// not found when no row was touched.
pub fn update_outcome(id: IntentId, updated: usize) -> (r: Result<(), SmeltError>)
    ensures
        updated == 0 ==> (r matches Err(SmeltError::IntentNotFound(m)) && m@ == uuid_text(id)),
        updated != 0 ==> r is Ok,
{
    if updated == 0 {
        return Err(SmeltError::IntentNotFound(id_to_string(id)));
    }
    Ok(())
}

/// The pattern that matches the ids starting with `prefix`.
pub fn prefix_pattern(prefix: &str) -> (r: String)
    ensures
        r@ == prefix@ + "%"@,
{
    let mut r = String::from_str(prefix);
    r.append("%");
    r
}

/// The query that lists intents, newest first, of one status or of all.
pub fn list_intents_query(status: Option<&IntentStatus>) -> (r: String)
    ensures
        r@ == match status {
            Some(s) => "SELECT * FROM intents WHERE status = '"@ + status_label(status_view(*s))
                + "' ORDER BY created_at DESC"@,
            None => "SELECT * FROM intents ORDER BY created_at DESC"@,
        },
{
    match status {
        Some(s) => {
            let (label, _) = serialize_status(s);
            let mut r = String::from_str("SELECT * FROM intents WHERE status = '");
            r.append(label.as_str());
            r.append("' ORDER BY created_at DESC");
            r
        },
        None => String::from_str("SELECT * FROM intents ORDER BY created_at DESC"),
    }
}

/// Whether a commit is tracked, from the number of committed intents that name it.
pub fn is_tracked_count(count: i64) -> (r: bool)
    ensures
        r == (count > 0),
{
    count > 0
}

} // verus!

verus! {

/// An intent written as a row reads back as the same intent: the same id and
/// creation time (for the years 0000 to 9999, which chrono's RFC 3339 parser
/// accepts), author, goal, rationale, baseline and status, a rejection's
/// violations included.
pub proof fn lemma_intent_row_roundtrip(row: IntentRow, i: IntentRecord)
    requires
        row_holds(row, i),
        in_four_digit_years(i.created_at.secs_spec(), i.created_at.nanos_spec()),
    ensures
        uuid_parse(row.id@) == ok_id(i.id),
        rfc3339_parse(row.created_at@) == ok_instant(
            (i.created_at.secs_spec(), i.created_at.nanos_spec()),
        ),
        row.author_name@ == i.author.name@,
        row.author_email@ == i.author.email@,
        author_of_label(row.author_type@) == i.author.author_type,
        row.goal@ == i.goal@,
        opt_text(row.rationale) == opt_text(i.rationale),
        status_of_columns(row.status@, opt_text(row.status_data)) == status_view(i.status),
        opt_id_of_text(row.baseline_snapshot_id) == i.baseline_snapshot_id,
{
    lemma_author_label_roundtrip(i.author.author_type);
    lemma_status_columns_roundtrip(i.status);
}

} // verus!
