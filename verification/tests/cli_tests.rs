use smelt::cli::{
    check_git_repo, check_smelt_initialized, format_duration, format_status, generate_commit_message, parse_status,
    short_id, truncate,
};
use smelt::commands::backup::{backup_name, init_state, restore_check, size_line, verify_verdict, InitState};
use smelt::commands::commit::{
    commit_delta, commit_source, commit_step, commit_validation_verdict, committed_text, named_intent, pick_active,
    stage_plan, CommitAction, CommitEvent, CommitPhase, CommitSource,
};
use smelt::commands::intent::{created_intent_text, intent_detail, intent_listing};
use smelt::commands::status::{is_internal_path, recent_intents, visible_changes};
use smelt::commands::sync::{count_tracked, files_preview, scan_summary, synthetic_intent, untracked_entry};
use smelt::error::SmeltError;
use smelt::git::{branch_label, commit_info, repository_initialized, summary_line, FileState};
use smelt::time::Timestamp;
use smelt::types::delta::{ImpactSummary, SemanticDelta};
use smelt::types::intent::{Author, AuthorType, Constraint, ContextLinks, IntentRecord, IntentStatus};

const ID: u128 = 0x0123_4567_89ab_4def_8123_4567_89ab_cdef;

fn intent(goal: &str, status: IntentStatus) -> IntentRecord {
    IntentRecord {
        id: ID,
        created_at: Timestamp::from_parts(0, 0).unwrap(),
        author: Author { name: "Dev".to_string(), email: "dev@x".to_string(), author_type: AuthorType::Human },
        goal: goal.to_string(),
        rationale: None,
        constraints: Vec::new(),
        context_links: ContextLinks::default(),
        status,
        baseline_snapshot_id: None,
    }
}

#[test]
fn checks_of_the_environment() {
    assert!(matches!(check_smelt_initialized(false), Err(SmeltError::NotInitialized)));
    assert!(check_smelt_initialized(true).is_ok());
    assert!(matches!(check_git_repo(false, true), Err(SmeltError::NotAGitRepository)));
    assert!(matches!(check_git_repo(true, false), Err(SmeltError::EmptyRepository)));
    assert!(check_git_repo(true, true).is_ok());
}

#[test]
fn truncation() {
    assert_eq!(truncate("short", 10), "short");
    assert_eq!(truncate("a longer text", 8), "a lon...");
    assert_eq!(truncate("abcdef", 2), "...");
    assert!(truncate("abcdefghij", 7).len() <= 7);
}

#[test]
fn durations() {
    assert_eq!(format_duration(42), "42s");
    assert_eq!(format_duration(185), "3m 5s");
    assert_eq!(format_duration(7800), "2h 10m");
}

#[test]
fn statuses_read_and_shown() {
    assert!(matches!(parse_status("In-Progress"), Ok(IntentStatus::InProgress)));
    assert!(matches!(parse_status("pending"), Ok(IntentStatus::PendingValidation)));
    assert_eq!(parse_status("bogus").unwrap_err(), "Unknown status: bogus");
    assert_eq!(format_status(&IntentStatus::Committed { git_sha: "0123456789".into() }), "Committed (01234567)");
    assert_eq!(format_status(&IntentStatus::Committed { git_sha: "abc".into() }), "Committed (abc)");
    assert_eq!(format_status(&IntentStatus::Rejected { violations: vec!["a".into()] }), "Rejected (1 violations)");
    assert_eq!(short_id(ID), "01234567");
}

#[test]
fn commit_messages() {
    let mut i = intent("Add greeting", IntentStatus::InProgress);
    i.rationale = Some("users asked".into());
    let mut impact = ImpactSummary::default();
    impact.functions_added = 2;
    impact.breaking_changes = 1;
    let d = SemanticDelta {
        id: 1,
        intent_id: ID,
        timestamp: Timestamp::now(),
        from_snapshot: 0,
        to_snapshot: 0,
        changes: Vec::new(),
        impact_summary: impact,
    };
    assert_eq!(
        generate_commit_message(&i, Some(&d)),
        "Add greeting\n\nIntent: 01234567-89ab-4def-8123-456789abcdef\nDelta: 00000000-0000-0000-0000-000000000001\n\nSemantic: +2 functions, 1 breaking\nRationale: users asked"
    );
    assert_eq!(
        generate_commit_message(&intent("G", IntentStatus::InProgress), None),
        "G\n\nIntent: 01234567-89ab-4def-8123-456789abcdef\n"
    );
}

#[test]
fn commit_decisions() {
    assert!(matches!(commit_source(Some("a".into()), Some("g".into())), CommitSource::Named(_)));
    assert!(matches!(commit_source(None, Some("g".into())), CommitSource::Inline(_)));
    assert!(matches!(commit_source(None, None), CommitSource::Active));
    assert!(matches!(named_intent("p".into(), None), Err(SmeltError::IntentNotFound(p)) if p == "p"));
    assert!(pick_active(Vec::new()).is_none());
    assert_eq!(stage_plan(3, 0), (true, "  Staged 3 files".to_string()));
    assert_eq!(stage_plan(3, 2), (false, "  2 files already staged".to_string()));
    assert_eq!(
        commit_validation_verdict(2, 1).unwrap_err(),
        "Validation failed: 2 error(s), 1 warning(s). Use --skip-validation to bypass."
    );
    assert_eq!(commit_validation_verdict(0, 1).unwrap(), "    Validation: passed with 1 warning(s)");
    assert_eq!(commit_validation_verdict(0, 0).unwrap(), "    Validation: passed");
    let mut i = intent("g", IntentStatus::InProgress);
    assert!(commit_delta(&i, 5, 2).is_none());
    i.baseline_snapshot_id = Some(4);
    let d = commit_delta(&i, 5, 2).unwrap();
    assert_eq!((d.from_snapshot, d.to_snapshot, d.impact_summary.files_affected), (4, 5, 2));
    assert_eq!(
        committed_text("06d0a797559d", ID, Some(&d)).lines().nth(1),
        Some(" Committed: 06d0a797")
    );
}

#[test]
fn intent_texts() {
    assert_eq!(
        created_intent_text(ID, "Add greeting", 1),
        "Created intent: 01234567\n\n  Goal: Add greeting\n  Status: In Progress\n  Baseline snapshot: 00000000\n\nNow make your code changes, then run 'smelt status' to see semantic changes.\n"
    );
    assert_eq!(intent_listing(&Vec::new()), "No intents found.\n");
    assert_eq!(
        intent_listing(&vec![intent("g", IntentStatus::Draft)]),
        "Intents:\n\n    01234567 - g\n      Created: 1970-01-01 00:00 | Status: Draft\n"
    );
    let mut i = intent("g", IntentStatus::Validated);
    i.constraints.push(Constraint { name: "user".into(), value: "v".into(), required: true });
    assert_eq!(
        intent_detail(&i),
        "Intent: 01234567-89ab-4def-8123-456789abcdef\n\n  Goal:      g\n  Author:    Dev <dev@x>\n  Created:   1970-01-01 00:00:00 UTC\n  Status:    Validated\n\n  Constraints:\n    - user: v\n"
    );
}

#[test]
fn status_paths_and_recent() {
    assert!(is_internal_path(".smelt"));
    assert!(is_internal_path(".smelt/smelt.db"));
    assert!(is_internal_path("/repo/.smelt/graph"));
    assert!(!is_internal_path(".smeltx/a"));
    assert!(!is_internal_path("src/main.rs"));
    let v = visible_changes(vec!["src/a.rs".into(), ".smelt/x".into(), "b.rs".into()]);
    assert_eq!(v, vec!["src/a.rs".to_string(), "b.rs".to_string()]);
    let many: Vec<IntentRecord> = (0..7).map(|_| intent("g", IntentStatus::InProgress)).collect();
    assert_eq!(recent_intents(&many).lines().count(), 5);
    assert_eq!(
        recent_intents(&vec![intent("g", IntentStatus::Abandoned)]),
        "  01234567 - g (other)\n"
    );
}

#[test]
fn sync_texts_and_counts() {
    let files: Vec<String> = vec!["a".into(), "b".into(), "c".into(), "d".into(), "e".into()];
    assert_eq!(files_preview(&files), "a, b, c, ... (+2 more)");
    assert_eq!(files_preview(&files[..2].to_vec()), "a, b");
    assert_eq!(count_tracked(&vec![true, false, true]), (2, 1));
    assert_eq!(scan_summary(0, 4), "All 4 commits are tracked by Smelt.");
    assert_eq!(scan_summary(1, 4), "Found 1 untracked commits (out of 4 scanned):");
    let c = commit_info(
        "06d0a797559d1791".into(),
        "Fix bug\r\n\nmore".into(),
        None,
        Some("e@x".into()),
        Timestamp::from_parts(0, 0).unwrap(),
        vec!["a.rs".into()],
    );
    assert_eq!(c.summary, "Fix bug");
    assert_eq!(c.author_name, "Unknown");
    assert_eq!(
        untracked_entry(0, &c),
        "  1. [06d0a797] Fix bug (1970-01-01 00:00)\n      Author: Unknown <e@x>\n      Files: a.rs\n\n"
    );
    let s = synthetic_intent(&c);
    assert_eq!(s.goal, "Fix bug");
    assert_eq!(s.rationale.as_deref(), Some("Synthetic intent created by smelt sync"));
}

#[test]
fn git_rules() {
    assert_eq!(summary_line(""), "");
    assert_eq!(summary_line("one line"), "one line");
    assert_eq!(summary_line("a\r"), "a\r");
    assert_eq!(summary_line("\nrest"), "");
    for m in ["x\ny", "x\r\ny", "", "solo", "é\r\nz"] {
        assert_eq!(summary_line(m), m.lines().next().unwrap_or(""));
    }
    assert!(repository_initialized(Ok(false)));
    assert!(!repository_initialized(Ok(true)));
    assert!(!repository_initialized(Err("e".into())));
    assert_eq!(branch_label(None, "0123456789"), "HEAD detached at 01234567");
    assert_eq!(branch_label(Some("main".into()), "x"), "main");
    let mut f = FileState {
        wt_modified: false,
        wt_new: true,
        wt_deleted: false,
        wt_renamed: false,
        index_modified: false,
        index_new: false,
        index_deleted: false,
        index_renamed: false,
    };
    assert!(f.is_changed() && !f.is_staged());
    f.index_renamed = true;
    assert!(f.is_staged());
}

#[test]
fn backup_rules() {
    assert_eq!(backup_name(&Timestamp::from_parts(0, 0).unwrap()), "smelt-backup-19700101-000000.tar");
    assert_eq!(size_line(5000), "Size: 4 KB");
    assert_eq!(restore_check(false, "b.tar", false, false).unwrap_err(), "Backup file not found: b.tar");
    assert_eq!(
        restore_check(true, "b.tar", true, false).unwrap_err(),
        "Smelt directory already exists. Use --force to overwrite, or back up first."
    );
    assert!(restore_check(true, "b.tar", true, true).is_ok());
    assert_eq!(verify_verdict(vec![], true, 3).unwrap(), "✓ Backup is valid (3 files)");
    assert_eq!(
        verify_verdict(vec!["Corrupt entry: x".into()], false, 3).unwrap_err(),
        vec!["Corrupt entry: x".to_string(), "Missing smelt.db database file".to_string()]
    );
    assert_eq!(init_state(true, true), InitState::AlreadyInitialized);
    assert_eq!(init_state(true, false), InitState::Incomplete);
    assert_eq!(init_state(false, true), InitState::Fresh);
}

#[test]
fn commit_steps_come_in_order() {
    let (p, a) = commit_step(CommitPhase::Counting, false, true, CommitEvent::Counted { changed: 0, staged: 0 });
    assert_eq!(p, CommitPhase::Finished);
    assert!(matches!(a, CommitAction::NothingToCommit));

    let (p, a) = commit_step(CommitPhase::Counting, false, true, CommitEvent::Counted { changed: 3, staged: 0 });
    assert_eq!(p, CommitPhase::Staging);
    assert!(matches!(a, CommitAction::Stage { all: true }));

    let (p, a) = commit_step(p, false, true, CommitEvent::Staged);
    assert_eq!(p, CommitPhase::Validating);
    assert!(matches!(a, CommitAction::Validate));

    let (p2, a) = commit_step(p, false, true, CommitEvent::Validated { errors: 2, warnings: 1 });
    assert_eq!(p2, CommitPhase::Finished);
    assert!(matches!(a, CommitAction::Refuse(ref m)
        if m == "Validation failed: 2 error(s), 1 warning(s). Use --skip-validation to bypass."));
    let (p3, a) = commit_step(p2, false, true, CommitEvent::Committed { sha: "abc".into() });
    assert_eq!(p3, CommitPhase::Finished);
    assert!(matches!(a, CommitAction::Ignore));

    let (p, a) = commit_step(p, false, true, CommitEvent::Validated { errors: 0, warnings: 1 });
    assert_eq!(p, CommitPhase::Committing);
    assert!(matches!(a, CommitAction::Commit { note: Some(ref t) } if t == "    Validation: passed with 1 warning(s)"));

    let (p, a) = commit_step(p, false, true, CommitEvent::Committed { sha: "abc123".into() });
    assert_eq!(p, CommitPhase::Finished);
    assert!(matches!(a, CommitAction::Record { status: IntentStatus::Committed { ref git_sha } } if git_sha == "abc123"));

    let (p, a) = commit_step(CommitPhase::Staging, true, true, CommitEvent::Staged);
    assert_eq!(p, CommitPhase::Committing);
    assert!(matches!(a, CommitAction::Commit { note: None }));
}
