use smelt::api::{
    api_intent, api_validation_delta, created_reply, delta_to_response, error_reply, feedback_reply, get_delta_reply,
    get_intent_reply, health, intent_delta_reply, intent_for_delta, intent_to_response, list_intents_reply,
    memory_unavailable, path_id, search_limit, status_response, validation_intent, validation_reply, ApiBody,
    AppState, CreateIntentRequest, MemorySearchRequest,
};
use smelt::graph::SmeltGraph;
use smelt::mcp::validate::{Severity, ValidationOutcome, Violation};
use smelt::time::Timestamp;
use smelt::types::delta::{ImpactSummary, SemanticDelta};
use smelt::types::intent::{Author, AuthorType, ContextLinks, IntentRecord, IntentStatus};

const ID: u128 = 0x0123_4567_89ab_4def_8123_4567_89ab_cdef;

fn intent(status: IntentStatus) -> IntentRecord {
    IntentRecord {
        id: ID,
        created_at: Timestamp::from_parts(0, 0).unwrap(),
        author: Author { name: "A".to_string(), email: "a@x".to_string(), author_type: AuthorType::Hybrid },
        goal: "goal".to_string(),
        rationale: Some("why".to_string()),
        constraints: Vec::new(),
        context_links: ContextLinks::default(),
        status,
        baseline_snapshot_id: None,
    }
}

fn error_of(body: &ApiBody) -> (&str, Option<&str>) {
    match body {
        ApiBody::Error(e) => (e.error.as_str(), e.suggestion.as_deref()),
        _ => panic!("expected an error body"),
    }
}

#[test]
fn app_state_paths() {
    let s = AppState::new("/tmp/p/.smelt");
    assert_eq!(s.db_path, "/tmp/p/.smelt/smelt.db");
    assert_eq!(s.graph_path, "/tmp/p/.smelt/graph");
    assert_eq!(s.memory_path, "/tmp/p/.smelt/memory");
    let t = AppState::new("dir/");
    assert_eq!(t.db_path, "dir/smelt.db");
    let e = AppState::new("");
    assert_eq!(e.memory_path, "memory");
    assert_eq!(std::path::Path::new("dir/").join("graph").to_str().unwrap(), t.graph_path);
}

#[test]
fn health_and_status() {
    let h = health("1.2.3");
    assert_eq!((h.status.as_str(), h.version.as_str()), ("ok", "1.2.3"));
    let s = status_response(false, Some(3), true, true);
    assert!(!s.initialized && !s.database_ok && !s.graph_ok && !s.memory_ok);
    assert_eq!(s.intent_count, 0);
    let s = status_response(true, None, true, false);
    assert!(s.initialized && s.database_ok && s.graph_ok && !s.memory_ok);
    assert_eq!(s.intent_count, 0);
    assert_eq!(status_response(true, Some(7), false, false).intent_count, 7);
}

#[test]
fn intent_responses_use_short_status_words() {
    let r = intent_to_response(&intent(IntentStatus::Committed { git_sha: "0123456789abcdef".to_string() }));
    assert_eq!(r.id, "01234567-89ab-4def-8123-456789abcdef");
    assert_eq!(r.status, "committed:01234567");
    assert_eq!(r.author.author_type, "Hybrid");
    assert_eq!(r.created_at, "1970-01-01T00:00:00+00:00");
    assert_eq!(intent_to_response(&intent(IntentStatus::InProgress)).status, "in_progress");
    assert_eq!(intent_to_response(&intent(IntentStatus::PendingValidation)).status, "pending_validation");
    assert_eq!(
        intent_to_response(&intent(IntentStatus::Rejected { violations: vec!["a".into(), "b".into()] })).status,
        "rejected:2"
    );
}

#[test]
fn delta_response_copies_counts() {
    let mut impact = ImpactSummary::default();
    impact.files_affected = 3;
    impact.breaking_changes = 1;
    let d = SemanticDelta {
        id: ID,
        intent_id: 1,
        timestamp: Timestamp::from_parts(60, 0).unwrap(),
        from_snapshot: 0,
        to_snapshot: 0,
        changes: Vec::new(),
        impact_summary: impact,
    };
    let r = delta_to_response(&d);
    assert_eq!(r.intent_id, "00000000-0000-0000-0000-000000000001");
    assert_eq!(r.timestamp, "1970-01-01T00:01:00+00:00");
    assert_eq!((r.files_affected, r.breaking_changes), (3, 1));
}

#[test]
fn lookups_answer_with_codes() {
    let r = get_intent_reply("abc", Ok(None));
    assert_eq!(r.status, 404);
    assert_eq!(
        error_of(&r.body),
        ("Intent not found: abc", Some("Use GET /api/v1/intents to list available intents."))
    );
    let r = get_intent_reply("abc", Err("db".to_string()));
    assert_eq!((r.status, error_of(&r.body)), (500, ("db", None)));
    let r = get_intent_reply("abc", Ok(Some(intent(IntentStatus::Draft))));
    assert_eq!(r.status, 200);
    let bad = path_id("not-a-uuid").err().unwrap();
    assert_eq!((bad.status, error_of(&bad.body)), (400, ("Invalid UUID format", None)));
    assert_eq!(path_id("01234567-89ab-4def-8123-456789abcdef").ok(), Some(ID));
    let r = get_delta_reply("x", Ok(None));
    assert_eq!((r.status, error_of(&r.body)), (404, ("Delta not found: x", None)));
    let r = intent_delta_reply(Ok(None));
    assert_eq!(
        (r.status, error_of(&r.body)),
        (404, ("No delta found for this intent", Some("Delta is created when the intent is committed.")))
    );
    let missing = intent_for_delta("p", Ok(None)).err().unwrap();
    assert_eq!(error_of(&missing.body), ("Intent not found: p", None));
}

#[test]
fn listing_and_creation() {
    let r = list_intents_reply(Ok(vec![intent(IntentStatus::Validated)]));
    match r.body {
        ApiBody::Intents(v) => {
            assert_eq!(v.len(), 1);
            assert_eq!(v[0].status, "validated");
        }
        _ => panic!("expected intents"),
    }
    assert_eq!(list_intents_reply(Err("e".into())).status, 500);
    let mut graph = SmeltGraph::open(0, 0);
    let req = CreateIntentRequest { goal: "g".into(), rationale: None, author_name: None, author_email: None };
    let i = api_intent(&mut graph, req);
    assert_eq!((i.author.name.as_str(), i.author.email.as_str()), ("API User", "api@smelt.local"));
    assert_eq!(i.author.author_type, AuthorType::AI);
    assert!(i.baseline_snapshot_id.is_some());
    assert_eq!(created_reply(Ok(()), &i).status, 201);
    assert_eq!(created_reply(Err("x".into()), &i).status, 500);
}

#[test]
fn validation_endpoint() {
    assert!(validation_intent(None).unwrap().is_none());
    let bad = validation_intent(Some(Err("boom".into()))).err().unwrap();
    assert_eq!((bad.status, error_of(&bad.body)), (400, ("boom", None)));
    let d = api_validation_delta(None);
    assert!(d.intent_id != 0);
    let outcome = ValidationOutcome {
        passed: false,
        violations: vec![Violation {
            rule: "r".into(),
            message: "m".into(),
            severity: Severity::Error,
            location: None,
            suggestion: None,
        }],
        error_count: 1,
        warning_count: 0,
        info_count: 0,
    };
    match validation_reply(&outcome).body {
        ApiBody::Validation(v) => {
            assert!(!v.passed);
            assert_eq!(v.errors.len(), 1);
            assert_eq!(v.errors[0].rule, "r");
            assert!(v.warnings.is_empty());
        }
        _ => panic!("expected validation"),
    }
}

#[test]
fn memory_endpoints() {
    let r = memory_unavailable(true);
    assert_eq!(
        (r.status, error_of(&r.body)),
        (503, ("Memory system not available", Some("Initialize memory with 'smelt init'.")))
    );
    assert_eq!(error_of(&memory_unavailable(false).body).1, None);
    assert_eq!(search_limit(&MemorySearchRequest { query: "q".into(), limit: None }), 5);
    assert_eq!(search_limit(&MemorySearchRequest { query: "q".into(), limit: Some(9) }), 9);
    match feedback_reply("e1", true, Ok(())).body {
        ApiBody::Feedback(f) => assert_eq!(f.message, "Feedback recorded: episode e1 marked as helpful"),
        _ => panic!("expected feedback"),
    }
    let r = error_reply(418, "tea".into(), Some("brew"));
    assert_eq!((r.status, error_of(&r.body)), (418, ("tea", Some("brew"))));
}
