use smelt::doctor::{
    check_database, check_git_repository, check_graph, check_memory, check_orphaned_files, check_permissions,
    check_smelt_initialized, count_issues, count_orphaned, doctor_verdict, intent_stats, repair_for, repair_line,
    CheckResult, DatabaseProbe, GraphProbe, Repair,
};
use smelt::error::SmeltError;
use smelt::ids::{id_to_string, parse_id};
use smelt::storage::{
    author_type_from_label, author_type_label, intent_from_row, intent_to_row, list_intents_query, prefix_pattern,
    serialize_status, status_from_columns, update_outcome,
};
use smelt::text::to_lower;
use smelt::time::Timestamp;
use smelt::types::intent::{Author, AuthorType, ContextLinks, IntentRecord, IntentStatus};

const ID: u128 = 0x0123_4567_89ab_4def_8123_4567_89ab_cdef;

fn intent(status: IntentStatus) -> IntentRecord {
    IntentRecord {
        id: ID,
        created_at: Timestamp::from_parts(1_700_000_000, 5).unwrap(),
        author: Author { name: "N".to_string(), email: "e@x".to_string(), author_type: AuthorType::AI },
        goal: "goal".to_string(),
        rationale: Some("r".to_string()),
        constraints: Vec::new(),
        context_links: ContextLinks::default(),
        status,
        baseline_snapshot_id: Some(7),
    }
}

#[test]
fn status_columns_round_trip() {
    assert_eq!(serialize_status(&IntentStatus::InProgress), ("InProgress".to_string(), None));
    let (label, data) = serialize_status(&IntentStatus::Rejected { violations: vec!["a".into(), "b".into()] });
    assert_eq!(label, "Rejected");
    assert_eq!(data.as_deref(), Some("[\"a\",\"b\"]"));
    match status_from_columns(&label, data) {
        IntentStatus::Rejected { violations } => assert_eq!(violations, vec!["a".to_string(), "b".to_string()]),
        other => panic!("unexpected {:?}", other),
    }
    match status_from_columns("Committed", Some("abc123".into())) {
        IntentStatus::Committed { git_sha } => assert_eq!(git_sha, "abc123"),
        other => panic!("unexpected {:?}", other),
    }
    assert!(matches!(status_from_columns("Nonsense", None), IntentStatus::Draft));
}

#[test]
fn author_labels_round_trip() {
    for t in [AuthorType::Human, AuthorType::AI, AuthorType::Hybrid] {
        assert_eq!(author_type_from_label(author_type_label(t)), t);
        assert_eq!(author_type_label(t), format!("{:?}", t));
    }
    assert_eq!(author_type_from_label("Robot"), AuthorType::Human);
}

#[test]
fn intent_rows_round_trip() {
    let before = intent(IntentStatus::Committed { git_sha: "deadbeef".into() });
    let row = intent_to_row(&before, "[]".into(), "{}".into());
    assert_eq!(row.id, "01234567-89ab-4def-8123-456789abcdef");
    assert_eq!(row.status, "Committed");
    let back = intent_from_row(row, Ok(Vec::new()), Ok(ContextLinks::default())).unwrap();
    assert_eq!(back.id, before.id);
    assert_eq!(back.created_at, before.created_at);
    assert_eq!(back.goal, before.goal);
    assert_eq!(back.author.author_type, AuthorType::AI);
    assert_eq!(back.baseline_snapshot_id, Some(7));
    assert!(matches!(back.status, IntentStatus::Committed { ref git_sha } if git_sha == "deadbeef"));
}

#[test]
fn bad_rows_are_refused() {
    let mut row = intent_to_row(&intent(IntentStatus::Draft), "[]".into(), "{}".into());
    row.id = "xyz".into();
    match intent_from_row(row, Ok(Vec::new()), Ok(ContextLinks::default())) {
        Err(SmeltError::Parse(m)) => assert!(m.starts_with("Invalid UUID: ")),
        _ => panic!("expected a parse error"),
    }
    let mut row = intent_to_row(&intent(IntentStatus::Draft), "[]".into(), "{}".into());
    row.created_at = "yesterday".into();
    match intent_from_row(row, Ok(Vec::new()), Ok(ContextLinks::default())) {
        Err(SmeltError::Parse(m)) => assert!(m.starts_with("Invalid datetime: ")),
        _ => panic!("expected a parse error"),
    }
    let row = intent_to_row(&intent(IntentStatus::Draft), "[]".into(), "{}".into());
    match intent_from_row(row, Err("bad json".into()), Ok(ContextLinks::default())) {
        Err(SmeltError::Serialization(m)) => assert_eq!(m, "bad json"),
        _ => panic!("expected a serialization error"),
    }
}

#[test]
fn queries_and_outcomes() {
    assert_eq!(prefix_pattern("abc"), "abc%");
    assert_eq!(list_intents_query(None), "SELECT * FROM intents ORDER BY created_at DESC");
    assert_eq!(
        list_intents_query(Some(&IntentStatus::InProgress)),
        "SELECT * FROM intents WHERE status = 'InProgress' ORDER BY created_at DESC"
    );
    assert!(matches!(update_outcome(ID, 0), Err(SmeltError::IntentNotFound(m)) if m == id_to_string(ID)));
    assert!(update_outcome(ID, 1).is_ok());
}

#[test]
fn ids_and_times_through_their_libraries() {
    let text = id_to_string(ID);
    assert_eq!(text, "01234567-89ab-4def-8123-456789abcdef");
    assert_eq!(parse_id(&text).unwrap(), ID);
    assert!(parse_id("nope").is_err());
    let t = Timestamp::from_parts(1_700_000_000, 5).unwrap();
    assert_eq!(t.to_rfc3339(), "2023-11-14T22:13:20.000000005+00:00");
    assert_eq!(Timestamp::parse_rfc3339(&t.to_rfc3339()).unwrap(), t);
    assert_eq!(t.to_minute_text(), "2023-11-14 22:13");
    assert_eq!(t.to_second_text(), "2023-11-14 22:13:20 UTC");
    assert_eq!(t.to_stamp_text(), "20231114-221320");
    assert!(Timestamp::from_parts(i64::MAX, 0).is_none());
    assert!(Timestamp::parse_rfc3339("garbage").is_err());
    assert_eq!(to_lower("ÀB c"), "àb c");
}

#[test]
fn doctor_checks() {
    let c = check_smelt_initialized(true);
    assert!(c.passed);
    assert_eq!(c.message, "Smelt directory found");
    let g = check_git_repository(true, true, Some("main".into()));
    assert_eq!(g.message, "Git repository found (branch: main)");
    assert!(!check_git_repository(true, false, None).passed);
    let d = check_database(DatabaseProbe::Intents(4));
    assert_eq!(d.message, "Database OK (4 intents)");
    let d = check_database(DatabaseProbe::Missing);
    assert!(!d.passed && d.fixable);
    let gr = check_graph(GraphProbe::Counts(10, 3));
    assert_eq!(gr.message, "Graph OK (10 nodes, 3 edges)");
    assert!(check_memory(true, false).fixable);
    assert_eq!(check_permissions(Err("denied".into())).message, "Cannot write to .smelt directory: denied");
    let o = check_orphaned_files(count_orphaned(&vec!["a.lock".into(), "b.tmp.bak".into(), "c.db".into()]));
    assert_eq!(o.message, "2 orphaned/temporary files found");
    let all = vec![d, gr, o, CheckResult::fail("x", "y".into(), false)];
    assert_eq!(count_issues(&all), (3, 2));
    assert_eq!(repair_for("graph"), Some(Repair::Graph));
    assert_eq!(repair_for("git-repository"), None);
    assert_eq!(
        doctor_verdict(3, 2, false).0,
        "\nFound 3 issue(s), 2 fixable.\n\nRun 'smelt doctor --fix' to attempt automatic repairs.\n"
    );
    assert!(doctor_verdict(3, 2, true).1);
    assert_eq!(doctor_verdict(0, 0, true), ("\nAll checks passed! Smelt installation is healthy.\n".to_string(), false));
    assert_eq!(repair_line("graph", false), "  ✗ Could not fix: graph");
    let intents = vec![
        intent(IntentStatus::InProgress),
        intent(IntentStatus::Committed { git_sha: "a".into() }),
        intent(IntentStatus::InProgress),
    ];
    assert_eq!(intent_stats(&intents), (1, 2));
}

#[test]
fn rejected_intent_row_reads_back_its_violations() {
    let violations = vec!["quote \" and \\ slash".to_string(), "second\nline".to_string()];
    let before = intent(IntentStatus::Rejected { violations: violations.clone() });
    let row = intent_to_row(&before, "[]".into(), "{}".into());
    let back = intent_from_row(row, Ok(Vec::new()), Ok(ContextLinks::default())).unwrap();
    assert_eq!(back.status, IntentStatus::Rejected { violations });
    assert_eq!(back.goal, before.goal);
    assert_eq!(back.created_at, before.created_at);
}

#[test]
fn status_update_of_a_missing_intent_is_refused() {
    match update_outcome(ID, 0) {
        Err(SmeltError::IntentNotFound(m)) => assert_eq!(m, id_to_string(ID)),
        _ => panic!("expected IntentNotFound"),
    }
    assert!(update_outcome(ID, 1).is_ok());
    let (label, data) = serialize_status(&IntentStatus::Committed { git_sha: "abc123".into() });
    assert!(matches!(status_from_columns(&label, data), IntentStatus::Committed { ref git_sha } if git_sha == "abc123"));
}
