//! The tools the MCP server offers: their names, how a call is routed, and
//! the steps every tool shares.

use vstd::prelude::*;
use crate::mcp::protocol::ToolResult;
use crate::text::{joined, str_eq};
use crate::types::intent::IntentStatus;

verus! {

/// The tools on offer.
#[derive(Clone, Copy, Debug, PartialEq, Eq, Structural)]
pub enum ToolKind {
    /// `smelt_init`
    Init,
    /// `smelt_status`
    Status,
    /// `smelt_validate`
    Validate,
    /// `smelt_commit`
    Commit,
    /// `smelt_intent_create`
    IntentCreate,
    /// `smelt_intent_list`
    IntentList,
    /// `smelt_intent_abandon`
    IntentAbandon,
    /// `smelt_memory_search`
    MemorySearch,
    /// `smelt_memory_capture`
    MemoryCapture,
    /// `smelt_memory_feedback`
    MemoryFeedback,
}

/// The name under which a tool is called.
pub open spec fn tool_name(k: ToolKind) -> Seq<char> {
    match k {
        ToolKind::Init => "smelt_init"@,
        ToolKind::Status => "smelt_status"@,
        ToolKind::Validate => "smelt_validate"@,
        ToolKind::Commit => "smelt_commit"@,
        ToolKind::IntentCreate => "smelt_intent_create"@,
        ToolKind::IntentList => "smelt_intent_list"@,
        ToolKind::IntentAbandon => "smelt_intent_abandon"@,
        ToolKind::MemorySearch => "smelt_memory_search"@,
        ToolKind::MemoryCapture => "smelt_memory_capture"@,
        ToolKind::MemoryFeedback => "smelt_memory_feedback"@,
    }
}

/// What a tool does, as offered to clients.
pub open spec fn tool_description(k: ToolKind) -> Seq<char> {
    match k {
        ToolKind::Init => "Initialize Smelt semantic version control in a Git repository"@,
        ToolKind::Status => "Show semantic status of working directory including active intents and changes"@,
        ToolKind::Validate => "Validate semantic changes against intent constraints and architecture rules"@,
        ToolKind::Commit => "Commit staged changes with semantic delta attached"@,
        ToolKind::IntentCreate => "Create a new intent describing planned changes"@,
        ToolKind::IntentList => "List all intents with optional status filter"@,
        ToolKind::IntentAbandon => "Abandon an intent that is no longer needed"@,
        ToolKind::MemorySearch => "Search Smelt's episodic memory for relevant past experiences"@,
        ToolKind::MemoryCapture => "Capture a completed task as an episode in Smelt's memory"@,
        ToolKind::MemoryFeedback => "Record whether retrieved episodes were helpful"@,
    }
}

/// The tool a name calls, if any.
pub open spec fn tool_named(name: Seq<char>) -> Option<ToolKind> {
    if name == "smelt_init"@ {
        Some(ToolKind::Init)
    } else if name == "smelt_status"@ {
        Some(ToolKind::Status)
    } else if name == "smelt_validate"@ {
        Some(ToolKind::Validate)
    } else if name == "smelt_commit"@ {
        Some(ToolKind::Commit)
    } else if name == "smelt_intent_create"@ {
        Some(ToolKind::IntentCreate)
    } else if name == "smelt_intent_list"@ {
        Some(ToolKind::IntentList)
    } else if name == "smelt_intent_abandon"@ {
        Some(ToolKind::IntentAbandon)
    } else if name == "smelt_memory_search"@ {
        Some(ToolKind::MemorySearch)
    } else if name == "smelt_memory_capture"@ {
        Some(ToolKind::MemoryCapture)
    } else if name == "smelt_memory_feedback"@ {
        Some(ToolKind::MemoryFeedback)
    } else {
        None
    }
}

/// The tools in the order they are listed.
pub open spec fn tool_order() -> Seq<ToolKind> {
    seq![
        ToolKind::Init,
        ToolKind::Status,
        ToolKind::Validate,
        ToolKind::Commit,
        ToolKind::IntentCreate,
        ToolKind::IntentList,
        ToolKind::IntentAbandon,
        ToolKind::MemorySearch,
        ToolKind::MemoryCapture,
        ToolKind::MemoryFeedback,
    ]
}

/// Calling a tool by its own name reaches that tool; so no two tools share
/// a name, and every listed tool can be called.
pub proof fn lemma_tool_names_route_back(k: ToolKind)
    ensures
        tool_named(tool_name(k)) == Some(k),
        tool_order().contains(k),
{
    reveal_strlit("smelt_init");
    reveal_strlit("smelt_status");
    reveal_strlit("smelt_validate");
    reveal_strlit("smelt_commit");
    reveal_strlit("smelt_intent_create");
    reveal_strlit("smelt_intent_list");
    reveal_strlit("smelt_intent_abandon");
    reveal_strlit("smelt_memory_search");
    reveal_strlit("smelt_memory_capture");
    reveal_strlit("smelt_memory_feedback");
    let o = tool_order();
    assert(o[0] == ToolKind::Init && o[1] == ToolKind::Status && o[2] == ToolKind::Validate
        && o[3] == ToolKind::Commit && o[4] == ToolKind::IntentCreate && o[5]
        == ToolKind::IntentList && o[6] == ToolKind::IntentAbandon && o[7]
        == ToolKind::MemorySearch && o[8] == ToolKind::MemoryCapture && o[9]
        == ToolKind::MemoryFeedback);
    assert("smelt_init"@.len() == 10);
    assert("smelt_status"@.len() == 12);
    assert("smelt_validate"@.len() == 14);
    assert("smelt_commit"@.len() == 12);
    assert("smelt_intent_create"@.len() == 19);
    assert("smelt_intent_list"@.len() == 17);
    assert("smelt_intent_abandon"@.len() == 20);
    assert("smelt_memory_search"@.len() == 19);
    assert("smelt_memory_capture"@.len() == 20);
    assert("smelt_memory_feedback"@.len() == 21);
    assert("smelt_status"@[6] != "smelt_commit"@[6]);
    assert("smelt_intent_create"@[6] != "smelt_memory_search"@[6]);
    assert("smelt_intent_abandon"@[6] != "smelt_memory_capture"@[6]);
}

impl ToolKind {
    /// The name under which the tool is called.
    pub fn name(&self) -> (r: &'static str)
        ensures
            r@ == tool_name(*self),
    {
        match self {
            ToolKind::Init => "smelt_init",
            ToolKind::Status => "smelt_status",
            ToolKind::Validate => "smelt_validate",
            ToolKind::Commit => "smelt_commit",
            ToolKind::IntentCreate => "smelt_intent_create",
            ToolKind::IntentList => "smelt_intent_list",
            ToolKind::IntentAbandon => "smelt_intent_abandon",
            ToolKind::MemorySearch => "smelt_memory_search",
            ToolKind::MemoryCapture => "smelt_memory_capture",
            ToolKind::MemoryFeedback => "smelt_memory_feedback",
        }
    }

    /// What the tool does, as offered to clients.
    pub fn description(&self) -> (r: &'static str)
        ensures
            r@ == tool_description(*self),
    {
        match self {
            ToolKind::Init => "Initialize Smelt semantic version control in a Git repository",
            ToolKind::Status => "Show semantic status of working directory including active intents and changes",
            ToolKind::Validate => "Validate semantic changes against intent constraints and architecture rules",
            ToolKind::Commit => "Commit staged changes with semantic delta attached",
            ToolKind::IntentCreate => "Create a new intent describing planned changes",
            ToolKind::IntentList => "List all intents with optional status filter",
            ToolKind::IntentAbandon => "Abandon an intent that is no longer needed",
            ToolKind::MemorySearch => "Search Smelt's episodic memory for relevant past experiences",
            ToolKind::MemoryCapture => "Capture a completed task as an episode in Smelt's memory",
            ToolKind::MemoryFeedback => "Record whether retrieved episodes were helpful",
        }
    }

    /// All the tools, in the order they are listed.
    pub fn all() -> (r: Vec<ToolKind>)
        ensures
            r@ == tool_order(),
    {
        let r = vec![
            ToolKind::Init,
            ToolKind::Status,
            ToolKind::Validate,
            ToolKind::Commit,
            ToolKind::IntentCreate,
            ToolKind::IntentList,
            ToolKind::IntentAbandon,
            ToolKind::MemorySearch,
            ToolKind::MemoryCapture,
            ToolKind::MemoryFeedback,
        ];
        assert(r@ =~= tool_order());
        r
    }
}

/// The tool a call names, if there is one.
pub fn tool_kind(name: &str) -> (r: Option<ToolKind>)
    ensures
        r == tool_named(name@),
{
    if str_eq(name, "smelt_init") {
        Some(ToolKind::Init)
    } else if str_eq(name, "smelt_status") {
        Some(ToolKind::Status)
    } else if str_eq(name, "smelt_validate") {
        Some(ToolKind::Validate)
    } else if str_eq(name, "smelt_commit") {
        Some(ToolKind::Commit)
    } else if str_eq(name, "smelt_intent_create") {
        Some(ToolKind::IntentCreate)
    } else if str_eq(name, "smelt_intent_list") {
        Some(ToolKind::IntentList)
    } else if str_eq(name, "smelt_intent_abandon") {
        Some(ToolKind::IntentAbandon)
    } else if str_eq(name, "smelt_memory_search") {
        Some(ToolKind::MemorySearch)
    } else if str_eq(name, "smelt_memory_capture") {
        Some(ToolKind::MemoryCapture)
    } else if str_eq(name, "smelt_memory_feedback") {
        Some(ToolKind::MemoryFeedback)
    } else {
        None
    }
}

/// The failure of a call of a tool that does not exist.
pub fn unknown_tool(name: &str) -> (r: String)
    ensures
        r@ == "Unknown tool: "@ + name@,
{
    let mut r = String::from_str("Unknown tool: ");
    r.append(name);
    r
}

/// The result of a tool call: its report on success, and its failure with
/// `Error: ` before it otherwise.
pub fn tool_result(outcome: Result<String, String>) -> (r: ToolResult)
    ensures
        r.content@.len() == 1,
        r.content@[0].content_type@ == "text"@,
        outcome matches Ok(t) ==> r.content@[0].text == t && r.is_error is None,
        outcome matches Err(e) ==> r.content@[0].text@ == "Error: "@ + e@ && r.is_error == Some(true),
{
    match outcome {
        Ok(t) => ToolResult::success(t),
        Err(e) => {
            let mut m = String::from_str("Error: ");
            m.append(e.as_str());
            ToolResult::error(m)
        },
    }
}

/// What a tool does when the session's project has not been loaded yet,
/// given the outcome of trying to load it: go on when it loaded, and fail
/// when it is not initialized or could not be read.
pub fn require_loaded(load: Result<bool, String>) -> (r: Result<(), String>)
    ensures
        load == Ok::<bool, String>(true) <==> r is Ok,
        load == Ok::<bool, String>(false) ==> (r matches Err(m) && m@
            == "Smelt is not initialized. Run smelt_init first."@),
        load matches Err(e) ==> r matches Err(m) && m@ == "Failed to load Smelt: "@ + e@,
{
    match load {
        Ok(true) => Ok(()),
        Ok(false) => Err(String::from_str("Smelt is not initialized. Run smelt_init first.")),
        Err(e) => {
            let mut m = String::from_str("Failed to load Smelt: ");
            m.append(e.as_str());
            Err(m)
        },
    }
}

/// A parameter that a tool cannot do without.
pub fn required_param(value: Option<String>, name: &str) -> (r: Result<String, String>)
    ensures
        value matches Some(v) ==> r == Ok::<String, String>(v),
        value is None ==> (r matches Err(m) && m@ == "Missing required parameter: "@ + name@),
{
    match value {
        Some(v) => Ok(v),
        None => {
            let mut m = String::from_str("Missing required parameter: ");
            m.append(name);
            Err(m)
        },
    }
}

/// The failure of a lookup of an intent by an id prefix that matched none.
pub fn intent_not_found(prefix: &str) -> (r: String)
    ensures
        r@ == "Intent not found: "@ + prefix@,
{
    let mut r = String::from_str("Intent not found: ");
    r.append(prefix);
    r
}

/// `{:?}` formatting of a text: quoted, with escapes.
pub uninterp spec fn debug_text(s: Seq<char>) -> Seq<char>;

/// Formats a text with `{:?}` (std's `Debug` for `str`).
#[verifier::external_body]
fn debug_quoted(s: &str) -> (r: String)
    ensures
        r@ == debug_text(s@),
{
    format!("{:?}", s)
}

/// How `{:?}` shows a status.
pub open spec fn status_debug(s: IntentStatus) -> Seq<char> {
    match s {
        IntentStatus::Draft => "Draft"@,
        IntentStatus::InProgress => "InProgress"@,
        IntentStatus::PendingValidation => "PendingValidation"@,
        IntentStatus::Validated => "Validated"@,
        IntentStatus::Committed { git_sha } => "Committed { git_sha: "@ + debug_text(git_sha@) + " }"@,
        IntentStatus::Rejected { violations } => "Rejected { violations: ["@ + joined(
            violations@.map_values(|v: String| debug_text(v@)),
            ", "@,
        ) + "] }"@,
        IntentStatus::Abandoned => "Abandoned"@,
    }
}

/// Shows a status as `{:?}` does.
pub fn status_debug_text(s: &IntentStatus) -> (r: String)
    ensures
        r@ == status_debug(*s),
{
    match s {
        IntentStatus::Draft => String::from_str("Draft"),
        IntentStatus::InProgress => String::from_str("InProgress"),
        IntentStatus::PendingValidation => String::from_str("PendingValidation"),
        IntentStatus::Validated => String::from_str("Validated"),
        IntentStatus::Committed { git_sha } => {
            let mut r = String::from_str("Committed { git_sha: ");
            let q = debug_quoted(git_sha.as_str());
            r.append(q.as_str());
            r.append(" }");
            r
        },
        IntentStatus::Rejected { violations } => {
            let mut items: Vec<String> = Vec::new();
            let mut i: usize = 0;
            while i < violations.len()
                invariant
                    i <= violations@.len(),
                    items@.len() == i,
                    forall|j: int| 0 <= j < i ==> #[trigger] items@[j]@ == debug_text(violations@[j]@),
                decreases violations.len() - i,
            {
                items.push(debug_quoted(violations[i].as_str()));
                i = i + 1;
            }
            assert(items@.map_values(|t: String| t@) =~= violations@.map_values(
                |v: String| debug_text(v@),
            ));
            let list = crate::text::join_texts(&items, ", ");
            let mut r = String::from_str("Rejected { violations: [");
            r.append(list.as_str());
            r.append("] }");
            r
        },
        IntentStatus::Abandoned => String::from_str("Abandoned"),
    }
}

} // verus!
