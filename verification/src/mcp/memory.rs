//! The memory tools: what a call must carry, how an episode is picked by an
//! id prefix, and what is reported.
//!
//! The episodic memory itself lives in the application; these functions
//! take what it gave back.

use vstd::prelude::*;
use vstd::string::StringSliceAdditionalSpecFns;
use vstd::utf8::encode_utf8;
use crate::cli::short_id;
use crate::ids::{id_to_string, is_uuid_char, uuid_text};
use crate::mcp::tools::required_param;
use crate::text::{ascii_prefix, decimal, decimal_string, starts_with, starts_with_bytes, str_eq};

verus! {

/// How a remembered task ended.
#[derive(Clone, Copy, Debug, PartialEq, Eq, Structural)]
pub enum EpisodeOutcome {
    /// It succeeded.
    Success,
    /// It partly succeeded.
    Partial,
    /// It failed.
    Failure,
}

/// The outcome a word names; an unknown word counts as partial.
pub open spec fn outcome_named(word: Seq<char>) -> EpisodeOutcome {
    if word == "success"@ {
        EpisodeOutcome::Success
    } else if word == "partial"@ {
        EpisodeOutcome::Partial
    } else if word == "failure"@ {
        EpisodeOutcome::Failure
    } else {
        EpisodeOutcome::Partial
    }
}

/// Reads the outcome a word names.
pub fn episode_outcome(word: &str) -> (r: EpisodeOutcome)
    ensures
        r == outcome_named(word@),
{
    if str_eq(word, "success") {
        EpisodeOutcome::Success
    } else if str_eq(word, "partial") {
        EpisodeOutcome::Partial
    } else if str_eq(word, "failure") {
        EpisodeOutcome::Failure
    } else {
        EpisodeOutcome::Partial
    }
}

/// How `{:?}` shows an outcome.
pub open spec fn outcome_debug(o: EpisodeOutcome) -> Seq<char> {
    match o {
        EpisodeOutcome::Success => "Success"@,
        EpisodeOutcome::Partial => "Partial"@,
        EpisodeOutcome::Failure => "Failure"@,
    }
}

fn outcome_debug_text(o: EpisodeOutcome) -> (r: &'static str)
    ensures
        r@ == outcome_debug(o),
{
    match o {
        EpisodeOutcome::Success => "Success",
        EpisodeOutcome::Partial => "Partial",
        EpisodeOutcome::Failure => "Failure",
    }
}

/// What a capture call must carry: a summary, a task type and an outcome,
/// checked in that order.
pub fn capture_params(
    summary: Option<String>,
    task_type: Option<String>,
    outcome: Option<String>,
) -> (r: Result<(String, String, EpisodeOutcome), String>)
    ensures
        summary is None ==> (r matches Err(m) && m@ == "Missing required parameter: "@
            + "summary"@),
        summary is Some && task_type is None ==> (r matches Err(m) && m@
            == "Missing required parameter: "@ + "task_type"@),
        summary is Some && task_type is Some && outcome is None ==> (r matches Err(m) && m@
            == "Missing required parameter: "@ + "outcome"@),
        summary matches Some(s) ==> (task_type matches Some(t) ==> (outcome matches Some(o) ==> r
            == Ok::<(String, String, EpisodeOutcome), String>((s, t, outcome_named(o@))))),
{
    let s = match required_param(summary, "summary") {
        Ok(v) => v,
        Err(m) => return Err(m),
    };
    let t = match required_param(task_type, "task_type") {
        Ok(v) => v,
        Err(m) => return Err(m),
    };
    let o = match required_param(outcome, "outcome") {
        Ok(v) => v,
        Err(m) => return Err(m),
    };
    let oc = episode_outcome(o.as_str());
    Ok((s, t, oc))
}

/// The first part of the report of a captured episode.
pub open spec fn captured_text(
    id: u128,
    summary: Seq<char>,
    task_type: Seq<char>,
    outcome: EpisodeOutcome,
    project: Option<Seq<char>>,
) -> Seq<char> {
    "✅ Episode captured successfully!\n\n"@ + "ID: "@ + uuid_text(id).subrange(0, 8) + "\n"@
        + "Summary: "@ + summary + "\n"@ + "Type: "@ + task_type + "\n"@ + "Outcome: "@
        + outcome_debug(outcome) + "\n"@ + match project {
        Some(p) => "Project: "@ + p + "\n"@,
        None => Seq::empty(),
    } + "\nThis experience is now stored for future reference."@
}

/// Reports a captured episode.
pub fn captured_report(
    id: u128,
    summary: &str,
    task_type: &str,
    outcome: EpisodeOutcome,
    project: Option<&str>,
) -> (r: String)
    ensures
        r@ == captured_text(id, summary@, task_type@, outcome, match project {
            Some(p) => Some(p@),
            None => None,
        }),
{
    let mut r = String::from_str("✅ Episode captured successfully!\n\n");
    r.append("ID: ");
    let s = short_id(id);
    r.append(s.as_str());
    r.append("\n");
    r.append("Summary: ");
    r.append(summary);
    r.append("\n");
    r.append("Type: ");
    r.append(task_type);
    r.append("\n");
    r.append("Outcome: ");
    r.append(outcome_debug_text(outcome));
    r.append("\n");
    let mut p = String::new();
    match project {
        Some(name) => {
            p.append("Project: ");
            p.append(name);
            p.append("\n");
        },
        None => {},
    }
    r.append(p.as_str());
    r.append("\nThis experience is now stored for future reference.");
    r
}

/// What a feedback call must carry: the episode ids, then whether they
/// helped; the list of ids may not be empty.
pub fn feedback_params(ids: Option<Vec<String>>, helpful: Option<bool>) -> (r: Result<
    (Vec<String>, bool),
    String,
>)
    ensures
        ids is None ==> (r matches Err(m) && m@ == "Missing required parameter: episode_ids"@),
        ids is Some && helpful is None ==> (r matches Err(m) && m@
            == "Missing required parameter: helpful"@),
        ids matches Some(v) ==> (helpful matches Some(h) ==> (v@.len() == 0 ==> (r matches Err(m)
            && m@ == "episode_ids array is empty"@))),
        ids matches Some(v) ==> (helpful matches Some(h) ==> (v@.len() > 0 ==> (r matches Ok(p)
            && p.0@ == v@ && p.1 == h))),
{
    let ids = match ids {
        Some(v) => v,
        None => return Err(String::from_str("Missing required parameter: episode_ids")),
    };
    let helpful = match helpful {
        Some(h) => h,
        None => return Err(String::from_str("Missing required parameter: helpful")),
    };
    if ids.len() == 0 {
        return Err(String::from_str("episode_ids array is empty"));
    }
    Ok((ids, helpful))
}

/// Whether an episode is the one a given id names: its full id begins with
/// the given text, or its first 8 characters are the given text.
pub open spec fn names_episode(episode: u128, given: Seq<char>) -> bool {
    starts_with_bytes(encode_utf8(uuid_text(episode)), encode_utf8(given)) || uuid_text(
        episode,
    ).subrange(0, 8) == given
}

/// Decides whether a given id names an episode.
pub fn episode_matches(episode: u128, given: &str) -> (r: bool)
    ensures
        r == names_episode(episode, given@),
{
    let full = id_to_string(episode);
    if starts_with(full.as_str(), given) {
        return true;
    }
    proof {
        assert forall|i: int| 0 <= i < full@.len() implies '\0' <= #[trigger] full@[i] <= '\u{7f}' by {
            assert(is_uuid_char(full@[i]));
        }
    }
    let head = ascii_prefix(&full, 8);
    str_eq(head.as_str(), given)
}

/// The first part of the report of recorded feedback.
pub open spec fn feedback_text(updated: nat, helpful: bool) -> Seq<char> {
    "Feedback recorded: "@ + decimal(updated) + " episode(s) marked as "@ + if helpful {
        "helpful"@
    } else {
        "not helpful"@
    } + ".\n"@ + "This helps improve future retrieval quality."@
}

/// Reports recorded feedback.
pub fn feedback_report(updated: usize, helpful: bool) -> (r: String)
    ensures
        r@ == feedback_text(updated as nat, helpful),
{
    let mut r = String::from_str("Feedback recorded: ");
    let n = decimal_string(updated as u64);
    r.append(n.as_str());
    r.append(" episode(s) marked as ");
    if helpful {
        r.append("helpful");
    } else {
        r.append("not helpful");
    }
    r.append(".\n");
    r.append("This helps improve future retrieval quality.");
    r
}

/// What a search call must carry: a query.
pub fn search_query(query: Option<String>) -> (r: Result<String, String>)
    ensures
        query matches Some(q) ==> r == Ok::<String, String>(q),
        query is None ==> (r matches Err(m) && m@ == "Missing required parameter: "@ + "query"@),
{
    required_param(query, "query")
}

/// The answer to a search that found nothing.
pub fn nothing_found() -> (r: String)
    ensures
        r@ == "No relevant episodes found in memory."@,
{
    String::from_str("No relevant episodes found in memory.")
}

/// The first line of the answer to a search that found `n` episodes.
pub fn found_header(n: usize) -> (r: String)
    ensures
        r@ == "Found "@ + decimal(n as nat) + " relevant past experience(s):\n\n"@,
{
    let mut r = String::from_str("Found ");
    let d = decimal_string(n as u64);
    r.append(d.as_str());
    r.append(" relevant past experience(s):\n\n");
    r
}

} // verus!
