//! The HTTP API: its request and response bodies, the paths it works in,
//! and the answer each endpoint gives for what the application found.
//!
//! The application serves HTTP, opens the database, the graph and the
//! memory, and sends the replies built here.

use vstd::prelude::*;
use vstd::string::{StrSliceExecFns, StringSliceAdditionalSpecFns};
use vstd::utf8::{decode_utf8, encode_utf8};
use crate::graph::SmeltGraph;
use crate::ids::{id_to_string, new_id, uuid_parse, uuid_text, v4_bits, v4_mask};
use crate::mcp::commit::shortenable;
use crate::mcp::validate::{of_severity, Severity, ValidationOutcome, Violation};
use crate::storage::{author_label, author_type_label};
use crate::text::{decimal, decimal_string, head_bytes};
use crate::time::{rfc3339_text, Timestamp};
use crate::types::delta::{zero_impact, ImpactSummary, SemanticDelta};
use crate::types::intent::{Author, AuthorType, ContextLinks, IntentRecord, IntentStatus};

verus! {

/// The answer to a health check.
#[derive(Debug)]
pub struct HealthResponse {
    /// `ok`.
    pub status: String,
    /// The server's version.
    pub version: String,
}

/// What the server found of the Smelt directory.
#[derive(Debug)]
pub struct StatusResponse {
    /// Whether the database could be opened.
    pub initialized: bool,
    /// Whether the database could be opened.
    pub database_ok: bool,
    /// Whether the graph could be opened.
    pub graph_ok: bool,
    /// Whether the memory directory exists.
    pub memory_ok: bool,
    /// How many intents the database holds (0 when they could not be listed).
    pub intent_count: usize,
}

/// The body of a failed request.
#[derive(Debug)]
pub struct ErrorResponse {
    /// What went wrong.
    pub error: String,
    /// What to do about it.
    pub suggestion: Option<String>,
}

/// An intent as the API shows it.
#[derive(Debug)]
pub struct IntentResponse {
    /// Its id, hyphenated.
    pub id: String,
    /// Its goal.
    pub goal: String,
    /// Its rationale.
    pub rationale: Option<String>,
    /// Its status, as a short word.
    pub status: String,
    /// Its author.
    pub author: AuthorResponse,
    /// When it was created, in RFC 3339.
    pub created_at: String,
}

/// An author as the API shows it.
#[derive(Debug)]
pub struct AuthorResponse {
    /// Name.
    pub name: String,
    /// Email address.
    pub email: String,
    /// `Human`, `AI` or `Hybrid`.
    pub author_type: String,
}

/// A delta as the API shows it.
#[derive(Debug)]
pub struct DeltaResponse {
    /// Its id.
    pub id: String,
    /// The intent it belongs to.
    pub intent_id: String,
    /// When it was computed, in RFC 3339.
    pub timestamp: String,
    /// Files affected.
    pub files_affected: usize,
    /// Functions added.
    pub functions_added: usize,
    /// Functions removed.
    pub functions_removed: usize,
    /// Functions modified.
    pub functions_modified: usize,
    /// Breaking changes.
    pub breaking_changes: usize,
}

/// The body of a request to create an intent.
#[derive(Debug)]
pub struct CreateIntentRequest {
    /// The goal.
    pub goal: String,
    /// Why.
    pub rationale: Option<String>,
    /// Who, if not the default API user.
    pub author_name: Option<String>,
    /// Their address, if not the default.
    pub author_email: Option<String>,
}

/// The body of a request to validate.
#[derive(Debug)]
pub struct ValidateRequest {
    /// The intent to validate against, by id prefix.
    pub intent_id: Option<String>,
}

/// The body of a memory search.
#[derive(Debug)]
pub struct MemorySearchRequest {
    /// What to look for.
    pub query: String,
    /// How many results at most (5 when absent).
    pub limit: Option<usize>,
}

/// The body of feedback on an episode.
#[derive(Debug)]
pub struct FeedbackRequest {
    /// Whether the episode helped.
    pub helpful: bool,
}

/// `dir` joined with the relative path `name`, as `Path::join` does on
/// Unix: a separator goes between them unless `dir` is empty or already
/// ends with one.
pub open spec fn path_join(dir: Seq<char>, name: Seq<char>) -> Seq<char> {
    if dir.len() == 0 || dir.last() == '/' {
        dir + name
    } else {
        dir + "/"@ + name
    }
}

fn join_path(dir: &str, name: &str) -> (r: String)
    ensures
        r@ == path_join(dir@, name@),
{
    let mut r = String::from_str(dir);
    let n = dir.unicode_len();
    let no_sep = if n > 0 {
        let c = dir.get_char(n - 1);
        c == '/'
    } else {
        true
    };
    if no_sep {
        r.append(name);
    } else {
        proof {
            reveal_strlit("/");
        }
        r.append("/");
        r.append(name);
    }
    r
}

/// The paths the API works in: the Smelt directory and, in it, the
/// database, the graph and the memory.
#[derive(Debug, Clone)]
pub struct AppState {
    /// The `.smelt` directory.
    pub smelt_dir: String,
    /// The intent database.
    pub db_path: String,
    /// The graph directory.
    pub graph_path: String,
    /// The memory directory.
    pub memory_path: String,
}

impl AppState {
    /// The paths under a Smelt directory.
    pub fn new(smelt_dir: &str) -> (r: Self)
        ensures
            r.smelt_dir@ == smelt_dir@,
            r.db_path@ == path_join(smelt_dir@, "smelt.db"@),
            r.graph_path@ == path_join(smelt_dir@, "graph"@),
            r.memory_path@ == path_join(smelt_dir@, "memory"@),
    {
        AppState {
            smelt_dir: String::from_str(smelt_dir),
            db_path: join_path(smelt_dir, "smelt.db"),
            graph_path: join_path(smelt_dir, "graph"),
            memory_path: join_path(smelt_dir, "memory"),
        }
    }
}

/// The answer to a health check: `ok`, at the server's version.
pub fn health(version: &str) -> (r: HealthResponse)
    ensures
        r.status@ == "ok"@,
        r.version@ == version@,
{
    HealthResponse { status: String::from_str("ok"), version: String::from_str(version) }
}

/// What the status endpoint reports: nothing works when the database could
/// not be opened; otherwise the database works, the intents are counted
/// when they could be listed (0 when not), and the graph and memory are as
/// found.
pub fn status_response(database_opened: bool, listed: Option<usize>, graph_ok: bool, memory_ok: bool)
    -> (r: StatusResponse)
    ensures
        !database_opened ==> !r.initialized && !r.database_ok && !r.graph_ok && !r.memory_ok
            && r.intent_count == 0,
        database_opened ==> r.initialized && r.database_ok && r.graph_ok == graph_ok && r.memory_ok
            == memory_ok && r.intent_count == match listed {
            Some(n) => n,
            None => 0,
        },
{
    if !database_opened {
        return StatusResponse {
            initialized: false,
            database_ok: false,
            graph_ok: false,
            memory_ok: false,
            intent_count: 0,
        };
    }
    let intent_count = match listed {
        Some(n) => n,
        None => 0,
    };
    StatusResponse { initialized: true, database_ok: true, graph_ok, memory_ok, intent_count }
}

/// The word the API uses for a status; a committed one carries the first 8
/// bytes of its SHA and a rejected one its number of violations.
pub open spec fn api_status_word(s: IntentStatus) -> Seq<char> {
    match s {
        IntentStatus::InProgress => "in_progress"@,
        IntentStatus::Committed { git_sha } => "committed:"@ + decode_utf8(
            encode_utf8(git_sha@).subrange(0, 8),
        ),
        IntentStatus::Abandoned => "abandoned"@,
        IntentStatus::Draft => "draft"@,
        IntentStatus::PendingValidation => "pending_validation"@,
        IntentStatus::Validated => "validated"@,
        IntentStatus::Rejected { violations } => "rejected:"@ + decimal(violations@.len()),
    }
}

/// Whether the API can show a status: a committed one needs a SHA of at
/// least 8 bytes that can be cut there.
pub open spec fn showable(s: IntentStatus) -> bool {
    s matches IntentStatus::Committed { git_sha } ==> shortenable(git_sha@)
}

fn api_status_text(s: &IntentStatus) -> (r: String)
    requires
        showable(*s),
    ensures
        r@ == api_status_word(*s),
{
    match s {
        IntentStatus::InProgress => String::from_str("in_progress"),
        IntentStatus::Committed { git_sha } => {
            let mut r = String::from_str("committed:");
            let head = head_bytes(git_sha.as_str(), 8);
            r.append(head.as_str());
            r
        },
        IntentStatus::Abandoned => String::from_str("abandoned"),
        IntentStatus::Draft => String::from_str("draft"),
        IntentStatus::PendingValidation => String::from_str("pending_validation"),
        IntentStatus::Validated => String::from_str("validated"),
        IntentStatus::Rejected { violations } => {
            let mut r = String::from_str("rejected:");
            let n = decimal_string(violations.len() as u64);
            r.append(n.as_str());
            r
        },
    }
}

/// An intent as the API shows it.
pub fn intent_to_response(intent: &IntentRecord) -> (r: IntentResponse)
    requires
        showable(intent.status),
    ensures
        r.id@ == uuid_text(intent.id),
        r.goal == intent.goal,
        r.rationale == intent.rationale,
        r.status@ == api_status_word(intent.status),
        r.author.name == intent.author.name,
        r.author.email == intent.author.email,
        r.author.author_type@ == author_label(intent.author.author_type),
        r.created_at@ == rfc3339_text(intent.created_at.secs_spec(), intent.created_at.nanos_spec()),
{
    IntentResponse {
        id: id_to_string(intent.id),
        goal: intent.goal.clone(),
        rationale: crate::text::clone_opt(&intent.rationale),
        status: api_status_text(&intent.status),
        author: AuthorResponse {
            name: intent.author.name.clone(),
            email: intent.author.email.clone(),
            author_type: String::from_str(author_type_label(intent.author.author_type)),
        },
        created_at: intent.created_at.to_rfc3339(),
    }
}

/// A delta as the API shows it.
pub fn delta_to_response(delta: &SemanticDelta) -> (r: DeltaResponse)
    ensures
        r.id@ == uuid_text(delta.id),
        r.intent_id@ == uuid_text(delta.intent_id),
        r.timestamp@ == rfc3339_text(delta.timestamp.secs_spec(), delta.timestamp.nanos_spec()),
        r.files_affected == delta.impact_summary.files_affected,
        r.functions_added == delta.impact_summary.functions_added,
        r.functions_removed == delta.impact_summary.functions_removed,
        r.functions_modified == delta.impact_summary.functions_modified,
        r.breaking_changes == delta.impact_summary.breaking_changes,
{
    DeltaResponse {
        id: id_to_string(delta.id),
        intent_id: id_to_string(delta.intent_id),
        timestamp: delta.timestamp.to_rfc3339(),
        files_affected: delta.impact_summary.files_affected,
        functions_added: delta.impact_summary.functions_added,
        functions_removed: delta.impact_summary.functions_removed,
        functions_modified: delta.impact_summary.functions_modified,
        breaking_changes: delta.impact_summary.breaking_changes,
    }
}

/// One finding as the validation endpoint shows it.
#[derive(Debug)]
pub struct ValidationIssue {
    /// The rule broken.
    pub rule: String,
    /// What is wrong.
    pub message: String,
    /// Where, when known.
    pub location: Option<String>,
    /// How to fix it, when known.
    pub suggestion: Option<String>,
}

/// The answer of the validation endpoint.
#[derive(Debug)]
pub struct ValidationResponse {
    /// Whether no errors were found.
    pub passed: bool,
    /// Number of errors.
    pub error_count: usize,
    /// Number of warnings.
    pub warning_count: usize,
    /// The errors, in order.
    pub errors: Vec<ValidationIssue>,
    /// The warnings, in order.
    pub warnings: Vec<ValidationIssue>,
}

/// The answer to feedback on an episode.
#[derive(Debug)]
pub struct FeedbackResponse {
    /// Whether it was recorded.
    pub success: bool,
    /// What was recorded.
    pub message: String,
}

/// The body of a reply.
#[derive(Debug)]
pub enum ApiBody {
    /// A health check.
    Health(HealthResponse),
    /// The status of the Smelt directory.
    Status(StatusResponse),
    /// One intent.
    Intent(IntentResponse),
    /// All intents.
    Intents(Vec<IntentResponse>),
    /// One delta.
    Delta(DeltaResponse),
    /// A validation.
    Validation(ValidationResponse),
    /// Recorded feedback.
    Feedback(FeedbackResponse),
    /// A failure.
    Error(ErrorResponse),
}

/// A reply: its HTTP status code and body.
#[derive(Debug)]
pub struct ApiReply {
    /// The HTTP status code.
    pub status: u16,
    /// The body.
    pub body: ApiBody,
}

/// Whether a reply is the failure with this code, error text and suggestion.
pub open spec fn is_error_reply(r: ApiReply, code: u16, error: Seq<char>, suggestion: Option<Seq<char>>)
    -> bool {
    &&& r.status == code
    &&& r.body matches ApiBody::Error(e)
    &&& e.error@ == error
    &&& match suggestion {
        Some(s) => e.suggestion matches Some(t) && t@ == s,
        None => e.suggestion is None,
    }
}

/// A failed reply.
pub fn error_reply(status: u16, error: String, suggestion: Option<&str>) -> (r: ApiReply)
    ensures
        is_error_reply(r, status, error@, match suggestion {
            Some(s) => Some(s@),
            None => None,
        }),
{
    let suggestion = match suggestion {
        Some(s) => Some(String::from_str(s)),
        None => None,
    };
    ApiReply { status, body: ApiBody::Error(ErrorResponse { error, suggestion }) }
}

/// The reply to a failure of the server, with the failure's text.
pub fn internal_error(error: String) -> (r: ApiReply)
    ensures
        is_error_reply(r, 500, error@, None),
{
    error_reply(500, error, None)
}

fn prefixed(prefix: &str, s: &str) -> (r: String)
    ensures
        r@ == prefix@ + s@,
{
    let mut r = String::from_str(prefix);
    r.append(s);
    r
}

/// Whether every intent can be shown by the API.
pub open spec fn all_showable(s: Seq<IntentRecord>) -> bool {
    forall|j: int| 0 <= j < s.len() ==> showable(#[trigger] s[j].status)
}

/// The reply to a listing of the intents: all of them, in order, or the
/// failure to read them.
pub fn list_intents_reply(listed: Result<Vec<IntentRecord>, String>) -> (r: ApiReply)
    requires
        listed matches Ok(v) ==> all_showable(v@),
    ensures
        listed matches Err(e) ==> is_error_reply(r, 500, e@, None),
        listed matches Ok(v) ==> (r.body matches ApiBody::Intents(out) && r.status == 200 && out@.len()
            == v@.len() && forall|j: int|
            0 <= j < v@.len() ==> (#[trigger] out@[j]).id@ == uuid_text(v@[j].id)
                && out@[j].status@ == api_status_word(v@[j].status)),
{
    match listed {
        Err(e) => internal_error(e),
        Ok(intents) => {
            let mut out: Vec<IntentResponse> = Vec::new();
            let mut k: usize = 0;
            while k < intents.len()
                invariant
                    k <= intents@.len(),
                    all_showable(intents@),
                    out@.len() == k,
                    forall|j: int|
                        0 <= j < k ==> (#[trigger] out@[j]).id@ == uuid_text(intents@[j].id)
                            && out@[j].status@ == api_status_word(intents@[j].status),
                decreases intents.len() - k,
            {
                assert(showable(intents@[k as int].status));
                out.push(intent_to_response(&intents[k]));
                k = k + 1;
            }
            ApiReply { status: 200, body: ApiBody::Intents(out) }
        },
    }
}

/// A new intent asked for through the API: the requested goal and
/// rationale, the requested author or else `API User <api@smelt.local>`,
/// authored as AI, in progress, with no constraints or links, and with a
/// baseline snapshot taken in the graph, which starts tracking it.
pub fn api_intent(graph: &mut SmeltGraph, req: CreateIntentRequest) -> (r: IntentRecord)
    ensures
        r.goal == req.goal,
        r.rationale == req.rationale,
        match req.author_name {
            Some(n) => r.author.name == n,
            None => r.author.name@ == "API User"@,
        },
        match req.author_email {
            Some(e) => r.author.email == e,
            None => r.author.email@ == "api@smelt.local"@,
        },
        r.author.author_type == AuthorType::AI,
        r.constraints@.len() == 0,
        r.context_links.issues@.len() == 0,
        r.context_links.pull_requests@.len() == 0,
        r.context_links.documentation@.len() == 0,
        r.context_links.other@.len() == 0,
        r.status is InProgress,
        r.baseline_snapshot_id is Some,
        final(graph).intent_nodes(r.id) == Some(Seq::<u64>::empty()),
        forall|other: u128|
            other != r.id ==> final(graph).intent_nodes(other) == old(graph).intent_nodes(other),
{
    let intent_id = new_id();
    let snapshot_id = match graph.snapshot_for_intent(intent_id) {
        Ok(id) => Some(id),
        Err(_) => None,
    };
    let name = match req.author_name {
        Some(n) => n,
        None => String::from_str("API User"),
    };
    let email = match req.author_email {
        Some(e) => e,
        None => String::from_str("api@smelt.local"),
    };
    IntentRecord {
        id: intent_id,
        created_at: Timestamp::now(),
        author: Author { name, email, author_type: AuthorType::AI },
        goal: req.goal,
        rationale: req.rationale,
        constraints: Vec::new(),
        context_links: ContextLinks::default(),
        status: IntentStatus::InProgress,
        baseline_snapshot_id: snapshot_id,
    }
}

/// The reply to creating an intent: the intent, once stored, or the
/// failure to store it.
pub fn created_reply(stored: Result<(), String>, intent: &IntentRecord) -> (r: ApiReply)
    requires
        showable(intent.status),
    ensures
        stored is Ok ==> (r.body matches ApiBody::Intent(i) && r.status == 201 && i.id@ == uuid_text(
            intent.id,
        )),
        stored matches Err(e) ==> is_error_reply(r, 500, e@, None),
{
    match stored {
        Ok(()) => ApiReply { status: 201, body: ApiBody::Intent(intent_to_response(intent)) },
        Err(e) => internal_error(e),
    }
}

/// The reply to a lookup of an intent by id prefix.
pub fn get_intent_reply(id: &str, found: Result<Option<IntentRecord>, String>) -> (r: ApiReply)
    requires
        found matches Ok(Some(i)) ==> showable(i.status),
    ensures
        found matches Ok(Some(i)) ==> (r.body matches ApiBody::Intent(x) && r.status == 200 && x.id@
            == uuid_text(i.id) && x.status@ == api_status_word(i.status)),
        found matches Ok(None) ==> is_error_reply(r, 404, "Intent not found: "@ + id@, Some(
            "Use GET /api/v1/intents to list available intents."@,
        )),
        found matches Err(e) ==> is_error_reply(r, 500, e@, None),
{
    match found {
        Ok(Some(intent)) => ApiReply { status: 200, body: ApiBody::Intent(intent_to_response(&intent)) },
        Ok(None) => error_reply(
            404,
            prefixed("Intent not found: ", id),
            Some("Use GET /api/v1/intents to list available intents."),
        ),
        Err(e) => internal_error(e),
    }
}

/// The id in a request path, or the reply to one that is not a UUID.
pub fn path_id(id: &str) -> (r: Result<u128, ApiReply>)
    ensures
        uuid_parse(id@) is Ok <==> r is Ok,
        r matches Ok(v) ==> uuid_parse(id@) == Ok::<u128, Seq<char>>(v),
        r matches Err(x) ==> is_error_reply(x, 400, "Invalid UUID format"@, None),
{
    match crate::ids::parse_id(id) {
        Ok(v) => Ok(v),
        Err(_) => Err(error_reply(400, String::from_str("Invalid UUID format"), None)),
    }
}

/// The reply to a lookup of a delta by id.
pub fn get_delta_reply(id: &str, found: Result<Option<SemanticDelta>, String>) -> (r: ApiReply)
    ensures
        found matches Ok(Some(d)) ==> (r.body matches ApiBody::Delta(x) && r.status == 200 && x.id@
            == uuid_text(d.id)),
        found matches Ok(None) ==> is_error_reply(r, 404, "Delta not found: "@ + id@, None),
        found matches Err(e) ==> is_error_reply(r, 500, e@, None),
{
    match found {
        Ok(Some(d)) => ApiReply { status: 200, body: ApiBody::Delta(delta_to_response(&d)) },
        Ok(None) => error_reply(404, prefixed("Delta not found: ", id), None),
        Err(e) => internal_error(e),
    }
}

/// The intent whose delta is asked for, or the reply when it cannot be
/// found.
pub fn intent_for_delta(id: &str, found: Result<Option<IntentRecord>, String>) -> (r: Result<
    IntentRecord,
    ApiReply,
>)
    ensures
        found matches Ok(Some(i)) ==> r == Ok::<IntentRecord, ApiReply>(i),
        found matches Ok(None) ==> (r matches Err(x) && is_error_reply(
            x,
            404,
            "Intent not found: "@ + id@,
            None,
        )),
        found matches Err(e) ==> (r matches Err(x) && is_error_reply(x, 500, e@, None)),
{
    match found {
        Ok(Some(i)) => Ok(i),
        Ok(None) => Err(error_reply(404, prefixed("Intent not found: ", id), None)),
        Err(e) => Err(internal_error(e)),
    }
}

/// The reply to a lookup of an intent's delta.
pub fn intent_delta_reply(found: Result<Option<SemanticDelta>, String>) -> (r: ApiReply)
    ensures
        found matches Ok(Some(d)) ==> (r.body matches ApiBody::Delta(x) && r.status == 200 && x.id@
            == uuid_text(d.id)),
        found matches Ok(None) ==> is_error_reply(r, 404, "No delta found for this intent"@, Some(
            "Delta is created when the intent is committed."@,
        )),
        found matches Err(e) ==> is_error_reply(r, 500, e@, None),
{
    match found {
        Ok(Some(d)) => ApiReply { status: 200, body: ApiBody::Delta(delta_to_response(&d)) },
        Ok(None) => error_reply(
            404,
            String::from_str("No delta found for this intent"),
            Some("Delta is created when the intent is committed."),
        ),
        Err(e) => internal_error(e),
    }
}

/// The intent a validation is asked against: none when no id was given,
/// else the outcome of the lookup; a failed lookup is a bad request.
pub fn validation_intent(lookup: Option<Result<Option<IntentRecord>, String>>) -> (r: Result<
    Option<IntentRecord>,
    ApiReply,
>)
    ensures
        lookup is None ==> r == Ok::<Option<IntentRecord>, ApiReply>(None),
        lookup matches Some(Ok(found)) ==> r == Ok::<Option<IntentRecord>, ApiReply>(found),
        lookup matches Some(Err(e)) ==> (r matches Err(x) && is_error_reply(x, 400, e@, None)),
{
    match lookup {
        None => Ok(None),
        Some(Ok(found)) => Ok(found),
        Some(Err(e)) => Err(error_reply(400, e, None)),
    }
}

/// The delta the endpoint validates: empty, for the intent given or else
/// for a fresh id, with nil snapshots and no impact.
pub fn api_validation_delta(intent: Option<&IntentRecord>) -> (r: SemanticDelta)
    ensures
        intent matches Some(i) ==> r.intent_id == i.id,
        intent is None ==> r.intent_id & v4_mask() == v4_bits(),
        r.id & v4_mask() == v4_bits(),
        r.from_snapshot == 0,
        r.to_snapshot == 0,
        r.changes@.len() == 0,
        r.impact_summary == zero_impact(),
{
    let intent_id = match intent {
        Some(i) => i.id,
        None => new_id(),
    };
    SemanticDelta {
        id: new_id(),
        intent_id,
        timestamp: Timestamp::now(),
        from_snapshot: 0,
        to_snapshot: 0,
        changes: Vec::new(),
        impact_summary: ImpactSummary::default(),
    }
}

/// Whether issues show the findings one for one.
pub open spec fn issues_of(out: Seq<ValidationIssue>, vs: Seq<Violation>) -> bool {
    &&& out.len() == vs.len()
    &&& forall|j: int|
        0 <= j < vs.len() ==> (#[trigger] out[j]).rule == vs[j].rule && out[j].message
            == vs[j].message && out[j].location == vs[j].location && out[j].suggestion
            == vs[j].suggestion
}

fn issues_of_severity(vs: &Vec<Violation>, s: Severity) -> (r: Vec<ValidationIssue>)
    ensures
        issues_of(r@, of_severity(vs@, s)),
{
    let mut r: Vec<ValidationIssue> = Vec::new();
    let mut k: usize = 0;
    while k < vs.len()
        invariant
            k <= vs@.len(),
            issues_of(r@, of_severity(vs@.take(k as int), s)),
        decreases vs.len() - k,
    {
        assert(vs@.take(k + 1).drop_last() =~= vs@.take(k as int));
        let v = &vs[k];
        if v.severity == s {
            r.push(
                ValidationIssue {
                    rule: v.rule.clone(),
                    message: v.message.clone(),
                    location: crate::text::clone_opt(&v.location),
                    suggestion: crate::text::clone_opt(&v.suggestion),
                },
            );
        }
        k = k + 1;
    }
    assert(vs@.take(vs@.len() as int) =~= vs@);
    r
}

/// The reply to a validation: whether no errors were found, the counts,
/// and the errors and warnings in order.
pub fn validation_reply(outcome: &ValidationOutcome) -> (r: ApiReply)
    ensures
        r.status == 200,
        r.body matches ApiBody::Validation(v) && v.passed == (outcome.error_count == 0)
            && v.error_count == outcome.error_count && v.warning_count == outcome.warning_count
            && issues_of(v.errors@, of_severity(outcome.violations@, Severity::Error))
            && issues_of(v.warnings@, of_severity(outcome.violations@, Severity::Warning)),
{
    let errors = issues_of_severity(&outcome.violations, Severity::Error);
    let warnings = issues_of_severity(&outcome.violations, Severity::Warning);
    ApiReply {
        status: 200,
        body: ApiBody::Validation(
            ValidationResponse {
                passed: outcome.error_count == 0,
                error_count: outcome.error_count,
                warning_count: outcome.warning_count,
                errors,
                warnings,
            },
        ),
    }
}

/// The reply when the memory directory does not exist; a search is told
/// how to create it.
pub fn memory_unavailable(for_search: bool) -> (r: ApiReply)
    ensures
        is_error_reply(r, 503, "Memory system not available"@, if for_search {
            Some("Initialize memory with 'smelt init'."@)
        } else {
            None
        }),
{
    let suggestion = if for_search {
        Some("Initialize memory with 'smelt init'.")
    } else {
        None
    };
    error_reply(503, String::from_str("Memory system not available"), suggestion)
}

/// How many episodes a search returns at most: as asked, else 5.
pub fn search_limit(req: &MemorySearchRequest) -> (r: usize)
    ensures
        r == match req.limit {
            Some(n) => n,
            None => 5,
        },
{
    match req.limit {
        Some(n) => n,
        None => 5,
    }
}

/// The reply when no episode has the id asked for.
pub fn episode_not_found(id: &str) -> (r: ApiReply)
    ensures
        is_error_reply(r, 404, "Episode not found: "@ + id@, None),
{
    error_reply(404, prefixed("Episode not found: ", id), None)
}

/// The reply to feedback on an episode: what was recorded, or the failure
/// to record it.
pub fn feedback_reply(id: &str, helpful: bool, recorded: Result<(), String>) -> (r: ApiReply)
    ensures
        recorded is Ok ==> (r.body matches ApiBody::Feedback(f) && r.status == 200 && f.success
            && f.message@ == "Feedback recorded: episode "@ + id@ + " marked as "@ + if helpful {
            "helpful"@
        } else {
            "not helpful"@
        }),
        recorded matches Err(e) ==> is_error_reply(r, 500, e@, None),
{
    match recorded {
        Ok(()) => {
            let mut m = prefixed("Feedback recorded: episode ", id);
            m.append(" marked as ");
            if helpful {
                m.append("helpful");
            } else {
                m.append("not helpful");
            }
            ApiReply {
                status: 200,
                body: ApiBody::Feedback(FeedbackResponse { success: true, message: m }),
            }
        },
        Err(e) => internal_error(e),
    }
}

} // verus!
