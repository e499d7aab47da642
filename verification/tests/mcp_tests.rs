use serde_json::Value;
use smelt::graph::SmeltGraph;
use smelt::mcp::commit::{commit_delta_for, commit_message, commit_report, first_active, init_report, init_step, require_staged, InitStep};
use smelt::mcp::intents::{
    abandon_check, abandoned_report, filter_intents, intent_created_report, intent_list_report, list_filter,
    plan_intent_create, ListFilter,
};
use smelt::mcp::memory::{capture_params, episode_matches, episode_outcome, feedback_params, feedback_report, EpisodeOutcome};
use smelt::mcp::protocol::{InitializeResult, JsonRpcError, JsonRpcResponse, ToolResult};
use smelt::mcp::server::{Action, McpServer, Method};
use smelt::mcp::status::{intent_status_report, overview_report};
use smelt::mcp::tools::{require_loaded, status_debug_text, tool_kind, tool_result, unknown_tool, ToolKind};
use smelt::mcp::validate::{validation_delta, validation_report, Severity, ValidationOutcome, Violation};
use smelt::time::Timestamp;
use smelt::types::intent::{Author, AuthorType, ContextLinks, IntentRecord, IntentStatus};

fn intent(id: u128, goal: &str, status: IntentStatus) -> IntentRecord {
    IntentRecord {
        id,
        created_at: Timestamp::from_parts(0, 0).unwrap(),
        author: Author { name: "A".to_string(), email: "a@x".to_string(), author_type: AuthorType::Human },
        goal: goal.to_string(),
        rationale: None,
        constraints: Vec::new(),
        context_links: ContextLinks::default(),
        status,
        baseline_snapshot_id: None,
    }
}

const ID: u128 = 0x0123_4567_89ab_4def_8123_4567_89ab_cdef;

#[test]
fn server_test_initialize() {
    let mut server = McpServer::new();
    assert!(!server.is_initialized());
    let m = server.dispatch("initialize").unwrap();
    assert_eq!(m, Method::Initialize);
    assert!(server.is_initialized());
    let result = InitializeResult::for_version("0.1.0");
    assert_eq!(result.protocol_version, "2024-11-05");
    assert_eq!(result.server_info.name, "smelt-mcp");
}

#[test]
fn test_tools_list() {
    let mut server = McpServer::new();
    assert_eq!(server.dispatch("tools/list").unwrap(), Method::ToolsList);
    let tools = ToolKind::all();
    assert_eq!(tools.len(), 10);
    let names: Vec<&str> = tools.iter().map(|t| t.name()).collect();
    for n in [
        "smelt_init",
        "smelt_status",
        "smelt_validate",
        "smelt_commit",
        "smelt_intent_create",
        "smelt_intent_list",
        "smelt_intent_abandon",
        "smelt_memory_search",
        "smelt_memory_capture",
        "smelt_memory_feedback",
    ] {
        assert!(names.contains(&n));
        assert_eq!(tool_kind(n).map(|k| k.name()), Some(n));
    }
}

#[test]
fn test_method_not_found() {
    let mut server = McpServer::new();
    let error = server.dispatch("unknown/method").err().unwrap();
    assert_eq!(error.code, JsonRpcError::METHOD_NOT_FOUND);
    assert_eq!(error.message, "Method not found: unknown/method");
    assert!(!server.is_initialized());
}

#[test]
fn test_shutdown() {
    let mut server = McpServer::new();
    server.dispatch("initialize").unwrap();
    assert!(server.is_initialized());
    assert_eq!(server.dispatch("shutdown").unwrap(), Method::Shutdown);
    assert!(!server.is_initialized());
}

#[test]
fn other_methods_leave_session_alone() {
    let mut server = McpServer::new();
    server.dispatch("initialize").unwrap();
    server.dispatch("initialized").unwrap();
    server.dispatch("tools/call").unwrap();
    let _ = server.dispatch("nope");
    assert!(server.is_initialized());
}

#[test]
fn error_constructors_carry_codes_and_prefixes() {
    let e = JsonRpcError::parse_error("bad");
    assert_eq!((e.code, e.message.as_str()), (-32700, "Parse error: bad"));
    let e = JsonRpcError::invalid_request("x");
    assert_eq!((e.code, e.message.as_str()), (-32600, "Invalid request: x"));
    let e = JsonRpcError::invalid_params("y");
    assert_eq!((e.code, e.message.as_str()), (-32602, "Invalid params: y"));
    let e = JsonRpcError::internal_error("z");
    assert_eq!((e.code, e.message.as_str()), (-32603, "Internal error: z"));
    let missing = McpServer::tool_call_name(None).err().unwrap();
    assert_eq!(missing.message, "Invalid params: Missing tool name");
    assert_eq!(McpServer::tool_call_name(Some("t".to_string())).unwrap(), "t");
}

#[test]
fn responses_carry_result_or_error() {
    let ok = JsonRpcResponse::success(serde_json::Value::from(1), serde_json::Value::Bool(true));
    assert_eq!(ok.jsonrpc, "2.0");
    assert!(ok.result.is_some() && ok.error.is_none());
    let r = McpServer::respond(None, Err(JsonRpcError::method_not_found("m")));
    assert_eq!(r.id, serde_json::Value::Null);
    assert!(r.result.is_none());
    assert_eq!(r.error.unwrap().code, -32601);
}

#[test]
fn test_tool_result() {
    let result = ToolResult::success("Hello, world!".to_string());
    assert_eq!(result.content.len(), 1);
    assert_eq!(result.content[0].content_type, "text");
    assert_eq!(result.content[0].text, "Hello, world!");
    assert!(result.is_error.is_none());

    let error_result = ToolResult::error("Something went wrong".to_string());
    assert_eq!(error_result.is_error, Some(true));
}

#[test]
fn tool_failures_are_prefixed() {
    let r = tool_result(Err("boom".to_string()));
    assert_eq!(r.content[0].text, "Error: boom");
    assert_eq!(r.is_error, Some(true));
    assert_eq!(unknown_tool("x"), "Unknown tool: x");
    assert!(tool_kind("x").is_none());
}

#[test]
fn loading_outcomes() {
    assert!(require_loaded(Ok(true)).is_ok());
    assert_eq!(require_loaded(Ok(false)).unwrap_err(), "Smelt is not initialized. Run smelt_init first.");
    assert_eq!(require_loaded(Err("io".to_string())).unwrap_err(), "Failed to load Smelt: io");
}

#[test]
fn test_intent_create() {
    let mut graph = SmeltGraph::open(0, 0);
    let created = plan_intent_create(
        &mut graph,
        Some("Add user authentication".to_string()),
        Some("Implement OAuth2 login flow".to_string()),
        vec!["no_breaking_changes".to_string(), "maintain_api_compatibility".to_string()],
    )
    .unwrap();
    assert_eq!(created.author.name, "AI Assistant");
    assert_eq!(created.constraints.len(), 2);
    assert!(graph.nodes_for_intent(created.id).is_some());
    let output = intent_created_report(&created);
    assert!(output.contains("Intent created successfully"));
    assert!(output.contains("Add user authentication"));
    assert!(output.contains("Status: InProgress\n"));
    assert!(output.contains("Description: Implement OAuth2 login flow\n"));
    assert!(output.contains("\nConstraints:\n  - no_breaking_changes\n  - maintain_api_compatibility\n"));
}

#[test]
fn intent_create_needs_a_goal() {
    let mut graph = SmeltGraph::open(0, 0);
    let err = plan_intent_create(&mut graph, None, None, vec![]).unwrap_err();
    assert_eq!(err, "Missing required parameter: goal");
}

#[test]
fn test_intent_list_empty() {
    let listed = filter_intents(Vec::new(), list_filter("all"), 50);
    let output = intent_list_report(&listed, "all");
    assert!(output.contains("No intents found"));
    assert_eq!(
        output,
        "📋 Intents\n==========\n\nNo intents found with status: all\n\nCreate one with smelt_intent_create."
    );
}

#[test]
fn listing_filters_and_limits() {
    let all = vec![
        intent(1, "one", IntentStatus::Draft),
        intent(2, "two", IntentStatus::Committed { git_sha: "abcdef12".to_string() }),
        intent(3, "three", IntentStatus::InProgress),
        intent(4, "four", IntentStatus::Abandoned),
        intent(5, "five", IntentStatus::Validated),
    ];
    assert_eq!(list_filter("active"), ListFilter::Active);
    assert_eq!(list_filter("whatever"), ListFilter::All);
    let active = filter_intents(all, ListFilter::Active, 2);
    let ids: Vec<u128> = active.iter().map(|i| i.id).collect();
    assert_eq!(ids, vec![1, 3]);
    let report = intent_list_report(&active, "active");
    assert!(report.starts_with("📋 Intents\n==========\n\nShowing 2 intent(s) (filter: active)\n\n"));
    assert!(report.contains("📝 **00000000**\n   Goal: one\n   Status: Draft\n   Created: 1970-01-01 00:00\n\n"));
}

#[test]
fn abandon_rules() {
    assert_eq!(
        abandon_check(&IntentStatus::Committed { git_sha: "x".to_string() }).unwrap_err(),
        "Cannot abandon a committed intent."
    );
    assert_eq!(abandon_check(&IntentStatus::Abandoned).unwrap_err(), "Intent is already abandoned.");
    assert!(abandon_check(&IntentStatus::Draft).is_ok());
    let i = intent(ID, "g", IntentStatus::Abandoned);
    assert_eq!(
        abandoned_report(&i),
        "🗑️ Intent abandoned successfully!\n\nID: 01234567\nGoal: g\nStatus: Abandoned\n"
    );
}

#[test]
fn status_debug_matches_derive() {
    let statuses = vec![
        IntentStatus::Draft,
        IntentStatus::InProgress,
        IntentStatus::Committed { git_sha: "a\"b".to_string() },
        IntentStatus::Rejected { violations: vec!["x".to_string(), "y\n".to_string()] },
        IntentStatus::Rejected { violations: vec![] },
        IntentStatus::Abandoned,
    ];
    for s in &statuses {
        assert_eq!(status_debug_text(s), format!("{:?}", s));
    }
}

#[test]
fn commit_message_and_report() {
    let i = intent(ID, "Ship it", IntentStatus::InProgress);
    assert_eq!(
        commit_message("msg", Some(&i)),
        "msg\n\n[smelt] intent: 01234567-89ab-4def-8123-456789abcdef\ngoal: Ship it"
    );
    assert_eq!(commit_message("msg", None), "msg");
    assert_eq!(
        require_staged(0).unwrap_err(),
        "No staged changes to commit. Use 'git add' to stage changes first."
    );
    assert!(require_staged(2).is_ok());
    let report = commit_report("0123456789abcdef", "m", 2, true);
    assert_eq!(
        report,
        "✅ Commit created successfully!\n\nSHA: 01234567\nMessage: m\nFiles changed: 2\n\n📋 Intent marked as committed.\n\n💡 Tip: Use smelt_memory_capture to save this experience for future reference."
    );
}

#[test]
fn first_active_skips_terminal() {
    let v = vec![
        intent(1, "a", IntentStatus::Abandoned),
        intent(2, "b", IntentStatus::PendingValidation),
        intent(3, "c", IntentStatus::Draft),
    ];
    assert_eq!(first_active(v).map(|i| i.id), Some(2));
    assert!(first_active(vec![intent(1, "a", IntentStatus::Abandoned)]).is_none());
}

#[test]
fn init_tool_steps() {
    match init_step(Ok(true)) {
        InitStep::Done(Ok(m)) => assert_eq!(m, "Smelt initialized successfully (loaded existing configuration)."),
        _ => panic!("expected done"),
    }
    assert!(matches!(init_step(Ok(false)), InitStep::Initialize));
    match init_step(Err("e".to_string())) {
        InitStep::Done(Err(m)) => assert_eq!(m, "Failed to check existing configuration: e"),
        _ => panic!("expected failure"),
    }
    assert!(init_report().starts_with("✅ Smelt initialized successfully!\n\n"));
}

#[test]
fn test_status_initialized() {
    let intents = vec![
        intent(ID, "Active goal", IntentStatus::InProgress),
        intent(2, "Done", IntentStatus::Committed { git_sha: "abcdef12".to_string() }),
    ];
    let out = overview_report(Some("proj"), &intents, Some((3, 4)), None);
    assert!(out.contains("Smelt Status"));
    assert_eq!(
        out,
        "📊 Smelt Status\n===============\n\nProject: proj\n\n📋 Active Intents: 1\n  🔄 01234567 - Active goal\n\n✅ Completed: 1\n\n📈 Graph: 3 nodes, 4 edges\n"
    );
    let one = intent_status_report(None, &intents[0], Some(&Vec::new()));
    assert_eq!(
        one,
        "📊 Smelt Status\n===============\n\n\n📋 Intent: 01234567\n  Goal: Active goal\n  Status: InProgress\n  Created: 1970-01-01 00:00\n"
    );
}

#[test]
fn validation_report_lists_findings() {
    let outcome = ValidationOutcome {
        passed: false,
        violations: vec![
            Violation {
                rule: "r1".to_string(),
                message: "bad".to_string(),
                severity: Severity::Error,
                location: Some("a.rs:1".to_string()),
                suggestion: None,
            },
            Violation {
                rule: "r2".to_string(),
                message: "meh".to_string(),
                severity: Severity::Warning,
                location: None,
                suggestion: Some("fix".to_string()),
            },
            Violation { rule: "r3".to_string(), message: "fyi".to_string(), severity: Severity::Info, location: None, suggestion: None },
        ],
        error_count: 1,
        warning_count: 1,
        info_count: 1,
    };
    let text = validation_report(None, &outcome);
    assert_eq!(
        text,
        "🔍 Validation Results\n=====================\n\n❌ Validation FAILED\n\nSummary: 1 errors, 1 warnings, 1 info\n\n🚫 Errors:\n  - [r1] bad\n    at: a.rs:1\n\n⚠️ Warnings:\n  - [r2] meh\n    💡 fix\n\nℹ️ Info:\n  - fyi\n\n❌ Please fix the errors before committing\n"
    );
}

#[test]
fn validation_delta_prefers_recorded() {
    let i = intent(ID, "g", IntentStatus::InProgress);
    let empty = validation_delta(Some(&i), Vec::new());
    assert_eq!(empty.intent_id, ID);
    assert!(empty.changes.is_empty());
    let none = validation_delta(None, Vec::new());
    assert_eq!(none.intent_id, 0);
}

#[test]
fn memory_tool_rules() {
    assert_eq!(episode_outcome("success"), EpisodeOutcome::Success);
    assert_eq!(episode_outcome("odd"), EpisodeOutcome::Partial);
    assert_eq!(capture_params(None, None, None).unwrap_err(), "Missing required parameter: summary");
    assert_eq!(
        capture_params(Some("s".into()), None, None).unwrap_err(),
        "Missing required parameter: task_type"
    );
    let (s, t, o) = capture_params(Some("s".into()), Some("bugfix".into()), Some("failure".into())).unwrap();
    assert_eq!((s.as_str(), t.as_str(), o), ("s", "bugfix", EpisodeOutcome::Failure));
    assert_eq!(feedback_params(Some(vec![]), Some(true)).unwrap_err(), "episode_ids array is empty");
    assert_eq!(feedback_params(None, Some(true)).unwrap_err(), "Missing required parameter: episode_ids");
    assert!(episode_matches(ID, "0123"));
    assert!(episode_matches(ID, "01234567"));
    assert!(!episode_matches(ID, "1234"));
    assert_eq!(
        feedback_report(2, false),
        "Feedback recorded: 2 episode(s) marked as not helpful.\nThis helps improve future retrieval quality."
    );
}

#[test]
fn tool_descriptions_are_offered() {
    assert_eq!(
        ToolKind::Init.description(),
        "Initialize Smelt semantic version control in a Git repository"
    );
    assert_eq!(ToolKind::MemoryFeedback.description(), "Record whether retrieved episodes were helpful");
}

#[test]
fn requests_are_answered_through_the_session() {
    let mut server = McpServer::new();
    let r = server.handle_request("initialize", Some(Value::from(1)), None, |a| {
        assert!(matches!(a, Action::Initialize));
        Value::Bool(true)
    });
    assert!(server.is_initialized());
    assert_eq!(r.jsonrpc, "2.0");
    assert_eq!(r.id, Value::from(1));
    assert_eq!(r.result, Some(Value::Bool(true)));
    assert!(r.error.is_none());

    let r = server.handle_request("tools/call", Some(Value::from(2)), None, |_| Value::Null);
    assert_eq!(r.error.unwrap().code, -32602);
    assert!(r.result.is_none());
    assert!(server.is_initialized());

    let r = server.handle_request("tools/call", None, Some("smelt_status".to_string()), |a| match a {
        Action::CallTool(n) => Value::from(n),
        _ => Value::Null,
    });
    assert_eq!(r.id, Value::Null);
    assert_eq!(r.result, Some(Value::from("smelt_status")));

    let r = server.handle_request("nope", Some(Value::from(3)), None, |_| Value::Null);
    assert_eq!(r.error.unwrap().code, -32601);

    let r = server.handle_request("shutdown", Some(Value::from(4)), None, |a| {
        assert!(matches!(a, Action::Shutdown));
        Value::Null
    });
    assert!(r.result.is_some());
    assert!(!server.is_initialized());
}

#[test]
fn a_commit_of_an_intent_with_a_baseline_carries_a_delta() {
    assert!(commit_delta_for(None, 5, 2).is_none());
    let mut i = intent(7, "g", IntentStatus::InProgress);
    assert!(commit_delta_for(Some(&i), 5, 2).is_none());
    i.baseline_snapshot_id = Some(4);
    let d = commit_delta_for(Some(&i), 5, 2).unwrap();
    assert_eq!(d.intent_id, 7);
    assert_eq!((d.from_snapshot, d.to_snapshot), (4, 5));
    assert!(d.changes.is_empty());
    assert_eq!(d.impact_summary.files_affected, 2);
    assert_ne!(d.id, 0);
}
