//! Diagnosis of a Smelt installation: what each check concludes from what
//! the application found, and which repairs apply.

use vstd::prelude::*;
use vstd::string::StringSliceAdditionalSpecFns;
use crate::text::{decimal, decimal_string, ends_with, ends_with_bytes, str_eq};

verus! {

/// The outcome of one diagnostic check.
#[derive(Debug)]
pub struct CheckResult {
    /// Which check.
    pub name: &'static str,
    /// Whether it passed.
    pub passed: bool,
    /// What it found.
    pub message: String,
    /// Whether a failure can be repaired automatically.
    pub fixable: bool,
}

impl CheckResult {
    /// A passed check.
    pub fn pass(name: &'static str, message: String) -> (r: Self)
        ensures
            r.name == name,
            r.passed,
            r.message == message,
            !r.fixable,
    {
        CheckResult { name, passed: true, message, fixable: false }
    }

    /// A failed check.
    pub fn fail(name: &'static str, message: String, fixable: bool) -> (r: Self)
        ensures
            r.name == name,
            !r.passed,
            r.message == message,
            r.fixable == fixable,
    {
        CheckResult { name, passed: false, message, fixable }
    }
}

fn text(s: &str) -> (r: String)
    ensures
        r@ == s@,
{
    String::from_str(s)
}

fn text2(a: &str, b: &str) -> (r: String)
    ensures
        r@ == a@ + b@,
{
    let mut r = String::from_str(a);
    r.append(b);
    r
}

/// Whether the `.smelt` directory exists as a directory.
pub fn check_smelt_initialized(is_dir: bool) -> (r: CheckResult)
    ensures
        r.name@ == "smelt-initialized"@,
        r.passed == is_dir,
        !r.fixable,
        r.message@ == if is_dir {
            "Smelt directory found"@
        } else {
            "Smelt not initialized in this directory"@
        },
{
    if is_dir {
        CheckResult::pass("smelt-initialized", text("Smelt directory found"))
    } else {
        CheckResult::fail("smelt-initialized", text("Smelt not initialized in this directory"), false)
    }
}

/// Whether the directory is in a git repository with commits; the branch,
/// when it could be read, is named.
pub fn check_git_repository(opened: bool, has_commits: bool, branch: Option<String>) -> (r:
    CheckResult)
    ensures
        r.name@ == "git-repository"@,
        r.passed == (opened && has_commits),
        !r.fixable,
        r.message@ == if !opened {
            "Not a git repository"@
        } else if !has_commits {
            "Git repository exists but has no commits"@
        } else {
            match branch {
                Some(b) => "Git repository found (branch: "@ + b@ + ")"@,
                None => "Git repository found"@,
            }
        },
{
    if !opened {
        CheckResult::fail("git-repository", text("Not a git repository"), false)
    } else if !has_commits {
        CheckResult::fail("git-repository", text("Git repository exists but has no commits"), false)
    } else {
        match branch {
            Some(b) => {
                let mut m = text2("Git repository found (branch: ", b.as_str());
                m.append(")");
                CheckResult::pass("git-repository", m)
            },
            None => CheckResult::pass("git-repository", text("Git repository found")),
        }
    }
}

/// What was found of the intent database.
#[derive(Debug)]
pub enum DatabaseProbe {
    /// The file does not exist.
    Missing,
    /// It could not be opened, with the error's text.
    OpenFailed(String),
    /// Listing the intents failed, with the error's text.
    QueryFailed(String),
    /// It holds this many intents.
    Intents(usize),
}

/// Whether the intent database is present and readable.
pub fn check_database(probe: DatabaseProbe) -> (r: CheckResult)
    ensures
        r.name@ == "database"@,
        r.passed == (probe is Intents),
        r.fixable == (probe is Missing),
        r.message@ == match probe {
            DatabaseProbe::Missing => "Database file not found"@,
            DatabaseProbe::OpenFailed(e) => "Cannot open database: "@ + e@,
            DatabaseProbe::QueryFailed(e) => "Database query failed: "@ + e@,
            DatabaseProbe::Intents(n) => "Database OK ("@ + decimal(n as nat) + " intents)"@,
        },
{
    match probe {
        DatabaseProbe::Missing => CheckResult::fail("database", text("Database file not found"), true),
        DatabaseProbe::OpenFailed(e) => CheckResult::fail(
            "database",
            text2("Cannot open database: ", e.as_str()),
            false,
        ),
        DatabaseProbe::QueryFailed(e) => CheckResult::fail(
            "database",
            text2("Database query failed: ", e.as_str()),
            false,
        ),
        DatabaseProbe::Intents(n) => {
            let d = decimal_string(n as u64);
            let mut m = text2("Database OK (", d.as_str());
            m.append(" intents)");
            CheckResult::pass("database", m)
        },
    }
}

/// What was found of the graph storage.
#[derive(Debug)]
pub enum GraphProbe {
    /// The directory does not exist.
    Missing,
    /// It could not be opened, with the error's text.
    OpenFailed(String),
    /// It holds this many nodes and edges.
    Counts(usize, usize),
}

/// Whether the graph storage is present and can be opened.
pub fn check_graph(probe: GraphProbe) -> (r: CheckResult)
    ensures
        r.name@ == "graph"@,
        r.passed == (probe is Counts),
        r.fixable == (probe is Missing),
        r.message@ == match probe {
            GraphProbe::Missing => "Graph directory not found"@,
            GraphProbe::OpenFailed(e) => "Cannot open graph: "@ + e@,
            GraphProbe::Counts(n, e) => "Graph OK ("@ + decimal(n as nat) + " nodes, "@ + decimal(
                e as nat,
            ) + " edges)"@,
        },
{
    match probe {
        GraphProbe::Missing => CheckResult::fail("graph", text("Graph directory not found"), true),
        GraphProbe::OpenFailed(e) => CheckResult::fail(
            "graph",
            text2("Cannot open graph: ", e.as_str()),
            false,
        ),
        GraphProbe::Counts(n, e) => {
            let nodes = decimal_string(n as u64);
            let edges = decimal_string(e as u64);
            let mut m = text2("Graph OK (", nodes.as_str());
            m.append(" nodes, ");
            m.append(edges.as_str());
            m.append(" edges)");
            CheckResult::pass("graph", m)
        },
    }
}

/// Whether the memory directory and its database exist.
pub fn check_memory(dir_exists: bool, db_exists: bool) -> (r: CheckResult)
    ensures
        r.name@ == "memory"@,
        r.passed == (dir_exists && db_exists),
        r.fixable == !(dir_exists && db_exists),
        r.message@ == if !dir_exists {
            "Memory directory not found"@
        } else if !db_exists {
            "Memory database not found"@
        } else {
            "Memory directory OK"@
        },
{
    if !dir_exists {
        CheckResult::fail("memory", text("Memory directory not found"), true)
    } else if !db_exists {
        CheckResult::fail("memory", text("Memory database not found"), true)
    } else {
        CheckResult::pass("memory", text("Memory directory OK"))
    }
}

/// Whether a test file could be written in the `.smelt` directory.
pub fn check_permissions(write: Result<(), String>) -> (r: CheckResult)
    ensures
        r.name@ == "permissions"@,
        r.passed == (write is Ok),
        !r.fixable,
        r.message@ == match write {
            Ok(_) => "Directory is writable"@,
            Err(e) => "Cannot write to .smelt directory: "@ + e@,
        },
{
    match write {
        Ok(_) => CheckResult::pass("permissions", text("Directory is writable")),
        Err(e) => CheckResult::fail(
            "permissions",
            text2("Cannot write to .smelt directory: ", e.as_str()),
            false,
        ),
    }
}

/// How many of the three leftover suffixes (`.lock`, `.tmp`, `.bak`) a name ends with.
pub open spec fn leftover_matches(name: Seq<u8>) -> nat {
    (if ends_with_bytes(name, ".lock"@.map_values(|c: char| c as u8)) { 1nat } else { 0 })
        + (if ends_with_bytes(name, ".tmp"@.map_values(|c: char| c as u8)) { 1nat } else { 0 })
        + (if ends_with_bytes(name, ".bak"@.map_values(|c: char| c as u8)) { 1nat } else { 0 })
}

/// The number of matches of leftover suffixes over a list of names.
pub open spec fn leftover_count(names: Seq<Seq<u8>>) -> nat
    decreases names.len(),
{
    if names.len() == 0 {
        0
    } else {
        leftover_count(names.drop_last()) + leftover_matches(names.last())
    }
}

/// The bytes of a list of names.
pub open spec fn name_bytes(names: Seq<String>) -> Seq<Seq<u8>> {
    names.map_values(|s: String| vstd::utf8::encode_utf8(s@))
}

proof fn lemma_suffix_bytes()
    ensures
        ".lock".spec_bytes() == ".lock"@.map_values(|c: char| c as u8),
        ".tmp".spec_bytes() == ".tmp"@.map_values(|c: char| c as u8),
        ".bak".spec_bytes() == ".bak"@.map_values(|c: char| c as u8),
{
    reveal_strlit(".lock");
    reveal_strlit(".tmp");
    reveal_strlit(".bak");
    vstd::string::is_ascii_spec_bytes(".lock");
    vstd::string::is_ascii_spec_bytes(".tmp");
    vstd::string::is_ascii_spec_bytes(".bak");
    assert(".lock".spec_bytes() =~= ".lock"@.map_values(|c: char| c as u8));
    assert(".tmp".spec_bytes() =~= ".tmp"@.map_values(|c: char| c as u8));
    assert(".bak".spec_bytes() =~= ".bak"@.map_values(|c: char| c as u8));
}

/// Counts the leftover temporary files among the entries of the `.smelt`
/// directory, one for each suffix a name ends with.
pub fn count_orphaned(names: &Vec<String>) -> (r: usize)
    requires
        names@.len() <= usize::MAX / 3,
    ensures
        r == leftover_count(name_bytes(names@)),
{
    proof { lemma_suffix_bytes(); }
    let ghost nb = name_bytes(names@);
    let mut count: usize = 0;
    let mut i: usize = 0;
    while i < names.len()
        invariant
            i <= names@.len(),
            names@.len() <= usize::MAX / 3,
            nb == name_bytes(names@),
            count == leftover_count(nb.take(i as int)),
            count <= 3 * i,
            ".lock".spec_bytes() == ".lock"@.map_values(|c: char| c as u8),
            ".tmp".spec_bytes() == ".tmp"@.map_values(|c: char| c as u8),
            ".bak".spec_bytes() == ".bak"@.map_values(|c: char| c as u8),
        decreases names.len() - i,
    {
        assert(nb.take(i + 1).drop_last() =~= nb.take(i as int));
        assert(nb.take(i + 1).last() == vstd::utf8::encode_utf8(names@[i as int]@));
        let name = names[i].as_str();
        if ends_with(name, ".lock") {
            count = count + 1;
        }
        if ends_with(name, ".tmp") {
            count = count + 1;
        }
        if ends_with(name, ".bak") {
            count = count + 1;
        }
        i = i + 1;
    }
    assert(nb.take(names@.len() as int) =~= nb);
    count
}

/// Whether leftover files were found.
pub fn check_orphaned_files(orphaned_count: usize) -> (r: CheckResult)
    ensures
        r.name@ == "orphaned-files"@,
        r.passed == (orphaned_count == 0),
        r.fixable == (orphaned_count > 0),
        r.message@ == if orphaned_count > 0 {
            decimal(orphaned_count as nat) + " orphaned/temporary files found"@
        } else {
            "No orphaned files"@
        },
{
    if orphaned_count > 0 {
        let mut m = decimal_string(orphaned_count as u64);
        m.append(" orphaned/temporary files found");
        CheckResult::fail("orphaned-files", m, true)
    } else {
        CheckResult::pass("orphaned-files", text("No orphaned files"))
    }
}

/// The number of failed checks, and how many of those can be repaired.
pub open spec fn issue_counts(checks: Seq<CheckResult>) -> (nat, nat)
    decreases checks.len(),
{
    if checks.len() == 0 {
        (0, 0)
    } else {
        let (f, x) = issue_counts(checks.drop_last());
        let c = checks.last();
        (f + if c.passed { 0nat } else { 1 }, x + if !c.passed && c.fixable { 1nat } else { 0 })
    }
}

/// Counts the failed checks and the repairable ones among them.
pub fn count_issues(checks: &Vec<CheckResult>) -> (r: (usize, usize))
    ensures
        r.0 as nat == issue_counts(checks@).0,
        r.1 as nat == issue_counts(checks@).1,
{
    let mut failed: usize = 0;
    let mut fixable: usize = 0;
    let mut i: usize = 0;
    while i < checks.len()
        invariant
            i <= checks@.len(),
            failed as nat == issue_counts(checks@.take(i as int)).0,
            fixable as nat == issue_counts(checks@.take(i as int)).1,
            failed <= i,
            fixable <= i,
        decreases checks.len() - i,
    {
        assert(checks@.take(i + 1).drop_last() =~= checks@.take(i as int));
        if !checks[i].passed {
            failed = failed + 1;
            if checks[i].fixable {
                fixable = fixable + 1;
            }
        }
        i = i + 1;
    }
    assert(checks@.take(checks@.len() as int) =~= checks@);
    (failed, fixable)
}

/// A repair that the doctor can attempt.
#[derive(Clone, Copy, Debug, PartialEq, Eq, Structural)]
pub enum Repair {
    /// Create the database if it is missing.
    Database,
    /// Create the graph directory if it is missing.
    Graph,
    /// Create the memory directory.
    Memory,
    /// Remove leftover temporary files.
    OrphanedFiles,
}

/// The repair for a failed check, by the check's name.
pub open spec fn repair_named(name: Seq<char>) -> Option<Repair> {
    if name == "database"@ {
        Some(Repair::Database)
    } else if name == "graph"@ {
        Some(Repair::Graph)
    } else if name == "memory"@ {
        Some(Repair::Memory)
    } else if name == "orphaned-files"@ {
        Some(Repair::OrphanedFiles)
    } else {
        None
    }
}

/// The repair to attempt for a failed check, if there is one.
pub fn repair_for(check_name: &str) -> (r: Option<Repair>)
    ensures
        r == repair_named(check_name@),
{
    if str_eq(check_name, "database") {
        Some(Repair::Database)
    } else if str_eq(check_name, "graph") {
        Some(Repair::Graph)
    } else if str_eq(check_name, "memory") {
        Some(Repair::Memory)
    } else if str_eq(check_name, "orphaned-files") {
        Some(Repair::OrphanedFiles)
    } else {
        None
    }
}

/// What the doctor says after its checks, and whether it goes on to
/// repair: all is well with no failed check; otherwise it counts the issues
/// and either repairs the fixable ones, when asked to and there are some,
/// or says how to ask.
pub fn doctor_verdict(failed: usize, fixable: usize, fix: bool) -> (r: (String, bool))
    ensures
        r.1 == (failed > 0 && fix && fixable > 0),
        failed == 0 ==> r.0@ == "\nAll checks passed! Smelt installation is healthy.\n"@,
        failed > 0 ==> r.0@ == "\nFound "@ + decimal(failed as nat) + " issue(s), "@ + decimal(
            fixable as nat,
        ) + " fixable.\n"@ + if fix && fixable > 0 {
            "\nAttempting repairs...\n\n"@
        } else if fixable > 0 {
            "\nRun 'smelt doctor --fix' to attempt automatic repairs.\n"@
        } else {
            Seq::empty()
        },
{
    if failed == 0 {
        return (String::from_str("\nAll checks passed! Smelt installation is healthy.\n"), false);
    }
    let mut m = String::from_str("\nFound ");
    let f = decimal_string(failed as u64);
    m.append(f.as_str());
    m.append(" issue(s), ");
    let x = decimal_string(fixable as u64);
    m.append(x.as_str());
    m.append(" fixable.\n");
    let mut tail = String::new();
    let repair = fix && fixable > 0;
    if repair {
        tail.append("\nAttempting repairs...\n\n");
    } else if fixable > 0 {
        tail.append("\nRun 'smelt doctor --fix' to attempt automatic repairs.\n");
    }
    m.append(tail.as_str());
    (m, repair)
}

/// The line reporting one attempted repair.
pub fn repair_line(name: &str, fixed: bool) -> (r: String)
    ensures
        fixed ==> r@ == "  ✓ Fixed: "@ + name@,
        !fixed ==> r@ == "  ✗ Could not fix: "@ + name@,
{
    let mut r = if fixed {
        String::from_str("  ✓ Fixed: ")
    } else {
        String::from_str("  ✗ Could not fix: ")
    };
    r.append(name);
    r
}

/// The numbers of committed intents and of intents in progress in a list.
pub open spec fn status_counts(s: Seq<crate::types::intent::IntentRecord>) -> (nat, nat)
    decreases s.len(),
{
    if s.len() == 0 {
        (0, 0)
    } else {
        let (c, p) = status_counts(s.drop_last());
        (c + if s.last().status is Committed { 1nat } else { 0 }, p + if s.last().status is InProgress {
            1nat
        } else {
            0
        })
    }
}

/// Counts the committed intents and those in progress, for the verbose
/// diagnostics.
pub fn intent_stats(intents: &Vec<crate::types::intent::IntentRecord>) -> (r: (usize, usize))
    ensures
        r.0 as nat == status_counts(intents@).0,
        r.1 as nat == status_counts(intents@).1,
{
    let mut c: usize = 0;
    let mut p: usize = 0;
    let mut k: usize = 0;
    while k < intents.len()
        invariant
            k <= intents@.len(),
            c as nat == status_counts(intents@.take(k as int)).0,
            p as nat == status_counts(intents@.take(k as int)).1,
            c <= k,
            p <= k,
        decreases intents.len() - k,
    {
        assert(intents@.take(k + 1).drop_last() =~= intents@.take(k as int));
        match &intents[k].status {
            crate::types::intent::IntentStatus::Committed { .. } => {
                c = c + 1;
            },
            crate::types::intent::IntentStatus::InProgress => {
                p = p + 1;
            },
            _ => {},
        }
        k = k + 1;
    }
    assert(intents@.take(intents@.len() as int) =~= intents@);
    (c, p)
}

/// The line of one check in the doctor's results.
pub fn check_line(c: &CheckResult) -> (r: String)
    ensures
        r@ == "  "@ + (if c.passed { "✓"@ } else { "✗"@ }) + " "@ + c.name@ + ": "@ + c.message@ + if !c.passed
            && c.fixable {
            " (fixable)"@
        } else {
            Seq::empty()
        },
{
    let mut r = String::from_str("  ");
    if c.passed {
        r.append("✓");
    } else {
        r.append("✗");
    }
    r.append(" ");
    r.append(c.name);
    r.append(": ");
    r.append(c.message.as_str());
    let mut tail = String::new();
    if !c.passed && c.fixable {
        tail.append(" (fixable)");
    }
    r.append(tail.as_str());
    r
}

} // verus!
