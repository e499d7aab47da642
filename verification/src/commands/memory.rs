//! `smelt memory`: how the command line reads outcomes and episode ids, and
//! names outcomes.

use vstd::prelude::*;
use crate::mcp::memory::EpisodeOutcome;
use crate::text::{lowercase, str_eq, to_lower};

verus! {

/// The outcome a word names, read without regard to case; another word is
/// refused.
pub fn cli_outcome(word: &str) -> (r: Result<EpisodeOutcome, String>)
    ensures
        lowercase(word@) == "success"@ ==> r == Ok::<EpisodeOutcome, String>(EpisodeOutcome::Success),
        lowercase(word@) == "partial"@ ==> r == Ok::<EpisodeOutcome, String>(EpisodeOutcome::Partial),
        lowercase(word@) == "failure"@ ==> r == Ok::<EpisodeOutcome, String>(EpisodeOutcome::Failure),
        lowercase(word@) != "success"@ && lowercase(word@) != "partial"@ && lowercase(word@)
            != "failure"@ ==> (r matches Err(m) && m@
            == "Invalid outcome. Use: success, partial, or failure"@),
{
    proof {
        reveal_strlit("success");
        reveal_strlit("partial");
        reveal_strlit("failure");
        assert("success"@[0] != "partial"@[0]);
        assert("success"@[0] != "failure"@[0]);
        assert("partial"@[0] != "failure"@[0]);
    }
    let w = to_lower(word);
    if str_eq(w.as_str(), "success") {
        Ok(EpisodeOutcome::Success)
    } else if str_eq(w.as_str(), "partial") {
        Ok(EpisodeOutcome::Partial)
    } else if str_eq(w.as_str(), "failure") {
        Ok(EpisodeOutcome::Failure)
    } else {
        Err(String::from_str("Invalid outcome. Use: success, partial, or failure"))
    }
}

/// Feedback needs a full episode id: one of at least 36 bytes.
pub fn full_episode_id(id: &str) -> (r: Result<(), String>)
    ensures
        r is Ok <==> id.len() >= 36,
        r matches Err(m) ==> m@
            == "Please provide a full episode ID. Use 'smelt memory search' to find episodes."@,
{
    if id.len() < 36 {
        Err(
            String::from_str(
                "Please provide a full episode ID. Use 'smelt memory search' to find episodes.",
            ),
        )
    } else {
        Ok(())
    }
}

/// The word for an outcome in search results.
pub fn outcome_word(o: EpisodeOutcome) -> (r: &'static str)
    ensures
        r@ == match o {
            EpisodeOutcome::Success => "success"@,
            EpisodeOutcome::Partial => "partial"@,
            EpisodeOutcome::Failure => "failure"@,
        },
{
    match o {
        EpisodeOutcome::Success => "success",
        EpisodeOutcome::Partial => "partial",
        EpisodeOutcome::Failure => "failure",
    }
}

/// The sign for an outcome in episode listings.
pub fn outcome_sign(o: EpisodeOutcome) -> (r: &'static str)
    ensures
        r@ == match o {
            EpisodeOutcome::Success => "✓"@,
            EpisodeOutcome::Partial => "~"@,
            EpisodeOutcome::Failure => "✗"@,
        },
{
    match o {
        EpisodeOutcome::Success => "✓",
        EpisodeOutcome::Partial => "~",
        EpisodeOutcome::Failure => "✗",
    }
}

} // verus!
