//! Decisions and texts of the command-line interface.
//!
//! The application reads the file system, git and the database; these
//! functions take what it found and decide what to report.

use vstd::prelude::*;
use vstd::utf8::{decode_utf8, is_char_boundary};
use vstd::string::StringSliceAdditionalSpecFns;
use crate::error::SmeltError;
use crate::ids::{id_to_string, is_uuid_char, uuid_text};
use crate::text::{
    ascii_prefix, decimal, decimal_string, join_texts, joined, lemma_joined_contains, lemma_joined_prefix,
    lemma_occurs_in_middle, lemma_occurs_in_self, lemma_occurs_in_transitive,
    lowercase, occurs_in, to_lower, str_eq,
};
use crate::types::delta::{ImpactSummary, SemanticDelta};
use crate::types::intent::{IntentRecord, IntentStatus};
use crate::storage::{status_view, texts, StatusView};

verus! {

broadcast use vstd::utf8::group_utf8_lib;

/// The date the command-line tool was built on.
pub const BUILD_DATE: &'static str = "2024-01-27";

/// The version line of the command-line tool for a package version.
pub fn version_string(version: &str) -> (r: String)
    ensures
        r@ == "smelt "@ + version@ + " (built "@ + BUILD_DATE@ + ")"@,
{
    let mut r = String::from_str("smelt ");
    r.append(version);
    r.append(" (built ");
    r.append(BUILD_DATE);
    r.append(")");
    r
}

/// Fails with `NotInitialized` unless the `.smelt` directory exists.
pub fn check_smelt_initialized(smelt_dir_exists: bool) -> (r: Result<(), SmeltError>)
    ensures
        smelt_dir_exists <==> r is Ok,
        !smelt_dir_exists ==> r matches Err(SmeltError::NotInitialized),
{
    if !smelt_dir_exists {
        return Err(SmeltError::NotInitialized);
    }
    Ok(())
}

/// Whether the directory is in a usable git repository: one that could be
/// opened (else `NotAGitRepository`) and has commits (else `EmptyRepository`).
pub fn check_git_repo(opened: bool, has_commits: bool) -> (r: Result<(), SmeltError>)
    ensures
        !opened ==> r matches Err(SmeltError::NotAGitRepository),
        opened && !has_commits ==> r matches Err(SmeltError::EmptyRepository),
        opened && has_commits ==> r is Ok,
{
    if !opened {
        Err(SmeltError::NotAGitRepository)
    } else if has_commits {
        Ok(())
    } else {
        Err(SmeltError::EmptyRepository)
    }
}

/// The text of `s` cut to at most `max_len` bytes: unchanged when it fits,
/// `...` when `max_len` is 3 or less, and otherwise its first `max_len - 3`
/// bytes followed by `...`.
pub open spec fn truncated(s: Seq<char>, max_len: nat) -> Seq<char> {
    let bytes = vstd::utf8::encode_utf8(s);
    if bytes.len() <= max_len {
        s
    } else if max_len <= 3 {
        "..."@
    } else {
        decode_utf8(bytes.subrange(0, max_len - 3)) + "..."@
    }
}

/// Whether a text can be cut to `max_len` bytes: its length in bytes fits
/// in a `usize`, and where a cut is needed it falls between characters.
pub open spec fn cuttable(s: Seq<char>, max_len: nat) -> bool {
    let bytes = vstd::utf8::encode_utf8(s);
    &&& bytes.len() <= usize::MAX
    &&& bytes.len() > max_len && max_len > 3 ==> is_char_boundary(bytes, max_len - 3)
}

/// Truncates a text with an ellipsis. The cut must fall between characters.
pub fn truncate(s: &str, max_len: usize) -> (r: String)
    requires
        cuttable(s@, max_len as nat),
    ensures
        r@ == truncated(s@, max_len as nat),
{
    if s.len() <= max_len {
        s.to_owned()
    } else if max_len <= 3 {
        String::from_str("...")
    } else {
        let (head, _) = s.split_at(max_len - 3);
        proof {
            vstd::utf8::encode_utf8_decode_utf8(head@);
            assert(head@ == decode_utf8(s.spec_bytes().subrange(0, max_len - 3)));
        }
        let mut r = head.to_owned();
        r.append("...");
        r
    }
}

/// The encoding of two texts one after the other is their encodings one
/// after the other.
proof fn lemma_encode_concat(a: Seq<char>, b: Seq<char>)
    ensures
        vstd::utf8::encode_utf8(a + b) == vstd::utf8::encode_utf8(a) + vstd::utf8::encode_utf8(b),
    decreases a.len(),
{
    if a.len() == 0 {
        assert(a + b =~= b);
        assert(vstd::utf8::encode_utf8(a) =~= Seq::<u8>::empty());
        assert(vstd::utf8::encode_utf8(a) + vstd::utf8::encode_utf8(b) =~= vstd::utf8::encode_utf8(b));
    } else {
        assert((a + b).drop_first() =~= a.drop_first() + b);
        assert((a + b)[0] == a[0]);
        lemma_encode_concat(a.drop_first(), b);
        let e = vstd::utf8::encode_scalar(a[0] as u32);
        assert(e + (vstd::utf8::encode_utf8(a.drop_first()) + vstd::utf8::encode_utf8(b)) =~= (e
            + vstd::utf8::encode_utf8(a.drop_first())) + vstd::utf8::encode_utf8(b));
    }
}

/// A text truncated to at least 3 bytes takes at most that many bytes: it
/// is unchanged when it fits, and otherwise is a prefix that ends between
/// characters followed by `...`, exactly `max_len` bytes.
pub proof fn lemma_truncated_fits(s: Seq<char>, max_len: nat)
    requires
        max_len >= 3,
        cuttable(s, max_len),
    ensures
        vstd::utf8::encode_utf8(truncated(s, max_len)).len() <= max_len,
{
    let bytes = vstd::utf8::encode_utf8(s);
    reveal_strlit("...");
    assert(vstd::utf8::is_ascii_chars("..."@));
    vstd::utf8::is_ascii_chars_encode_utf8("..."@);
    if bytes.len() > max_len {
        if max_len == 3 {
        } else {
            let prefix = bytes.subrange(0, max_len - 3);
            vstd::utf8::encode_utf8_valid_utf8(s);
            vstd::utf8::valid_utf8_split(bytes, max_len - 3);
            vstd::utf8::decode_utf8_encode_utf8(prefix);
            lemma_encode_concat(vstd::utf8::decode_utf8(prefix), "..."@);
        }
    }
}

/// `s`, `m`, `s` texts for a duration in seconds.
pub open spec fn duration_text(seconds: nat) -> Seq<char> {
    if seconds < 60 {
        decimal(seconds) + "s"@
    } else if seconds < 3600 {
        decimal(seconds / 60) + "m "@ + decimal(seconds % 60) + "s"@
    } else {
        decimal(seconds / 3600) + "h "@ + decimal((seconds % 3600) / 60) + "m"@
    }
}

/// A duration in human-readable form: `42s`, `3m 5s` or `2h 10m`.
pub fn format_duration(seconds: u64) -> (r: String)
    ensures
        r@ == duration_text(seconds as nat),
{
    if seconds < 60 {
        let mut r = decimal_string(seconds);
        r.append("s");
        r
    } else if seconds < 3600 {
        let mut r = decimal_string(seconds / 60);
        r.append("m ");
        let rest = decimal_string(seconds % 60);
        r.append(rest.as_str());
        r.append("s");
        r
    } else {
        let mut r = decimal_string(seconds / 3600);
        r.append("h ");
        let rest = decimal_string((seconds % 3600) / 60);
        r.append(rest.as_str());
        r.append("m");
        r
    }
}

/// The status a user's word names, read without regard to case; `None` for
/// an unknown word. Committed and rejected statuses come with no SHA and no
/// violations.
pub open spec fn status_named(word: Seq<char>) -> Option<StatusView> {
    if word == "draft"@ {
        Some(StatusView::Draft)
    } else if word == "in_progress"@ || word == "inprogress"@ || word == "in-progress"@ {
        Some(StatusView::InProgress)
    } else if word == "pending"@ || word == "pending_validation"@ {
        Some(StatusView::PendingValidation)
    } else if word == "validated"@ {
        Some(StatusView::Validated)
    } else if word == "committed"@ {
        Some(StatusView::Committed(Seq::empty()))
    } else if word == "rejected"@ {
        Some(StatusView::Rejected(Seq::empty()))
    } else if word == "abandoned"@ {
        Some(StatusView::Abandoned)
    } else {
        None
    }
}

/// Parses a status name given on the command line.
pub fn parse_status(s: &str) -> (r: Result<IntentStatus, String>)
    ensures
        match r {
            Ok(st) => status_named(lowercase(s@)) == Some(status_view(st)),
            Err(m) => status_named(lowercase(s@)) is None && m@ == "Unknown status: "@ + s@,
        },
{
    let w = to_lower(s);
    let w = w.as_str();
    if str_eq(w, "draft") {
        Ok(IntentStatus::Draft)
    } else if str_eq(w, "in_progress") || str_eq(w, "inprogress") || str_eq(w, "in-progress") {
        Ok(IntentStatus::InProgress)
    } else if str_eq(w, "pending") || str_eq(w, "pending_validation") {
        Ok(IntentStatus::PendingValidation)
    } else if str_eq(w, "validated") {
        Ok(IntentStatus::Validated)
    } else if str_eq(w, "committed") {
        Ok(IntentStatus::Committed { git_sha: String::new() })
    } else if str_eq(w, "rejected") {
        let violations: Vec<String> = Vec::new();
        assert(texts(violations@) =~= Seq::<Seq<char>>::empty());
        Ok(IntentStatus::Rejected { violations })
    } else if str_eq(w, "abandoned") {
        Ok(IntentStatus::Abandoned)
    } else {
        let mut m = String::from_str("Unknown status: ");
        m.append(s);
        Err(m)
    }
}

/// The first at most 8 bytes of a text, as characters.
pub open spec fn first8(s: Seq<char>) -> Seq<char> {
    let bytes = vstd::utf8::encode_utf8(s);
    if bytes.len() <= 8 {
        s
    } else {
        decode_utf8(bytes.subrange(0, 8))
    }
}

/// How a status is shown to the user.
pub open spec fn status_text(s: IntentStatus) -> Seq<char> {
    match s {
        IntentStatus::Draft => "Draft"@,
        IntentStatus::InProgress => "In Progress"@,
        IntentStatus::PendingValidation => "Pending Validation"@,
        IntentStatus::Validated => "Validated"@,
        IntentStatus::Committed { git_sha } => "Committed ("@ + first8(git_sha@) + ")"@,
        IntentStatus::Rejected { violations } => "Rejected ("@ + decimal(violations@.len())
            + " violations)"@,
        IntentStatus::Abandoned => "Abandoned"@,
    }
}

/// Whether a status can be shown: a committed one's SHA has a length in
/// bytes that fits in a `usize`, and when it is longer than 8 bytes, its
/// eighth byte ends a character.
pub open spec fn formattable(s: IntentStatus) -> bool {
    s matches IntentStatus::Committed { git_sha } ==> vstd::utf8::encode_utf8(git_sha@).len()
        <= usize::MAX && (vstd::utf8::encode_utf8(git_sha@).len() > 8 ==> is_char_boundary(
        vstd::utf8::encode_utf8(git_sha@),
        8,
    ))
}

/// Shows a status: a committed one with the first 8 bytes of its SHA, which
/// must end between characters.
pub fn format_status(status: &IntentStatus) -> (r: String)
    requires
        formattable(*status),
    ensures
        r@ == status_text(*status),
{
    match status {
        IntentStatus::Draft => String::from_str("Draft"),
        IntentStatus::InProgress => String::from_str("In Progress"),
        IntentStatus::PendingValidation => String::from_str("Pending Validation"),
        IntentStatus::Validated => String::from_str("Validated"),
        IntentStatus::Committed { git_sha } => {
            let sha = git_sha.as_str();
            let cut: usize = if sha.len() < 8 {
                sha.len()
            } else {
                8
            };
            proof {
                vstd::utf8::encode_utf8_valid_utf8(sha@);
                vstd::utf8::is_char_boundary_start_end_of_seq(sha.spec_bytes());
            }
            let (head, _) = sha.split_at(cut);
            proof {
                vstd::utf8::encode_utf8_decode_utf8(head@);
                vstd::utf8::encode_utf8_decode_utf8(sha@);
                assert(head@ == decode_utf8(sha.spec_bytes().subrange(0, cut as int)));
                if cut < 8 {
                    assert(sha.spec_bytes().subrange(0, cut as int) =~= sha.spec_bytes());
                }
            }
            let mut r = String::from_str("Committed (");
            r.append(head);
            r.append(")");
            r
        },
        IntentStatus::Rejected { violations } => {
            let mut r = String::from_str("Rejected (");
            let n = decimal_string(violations.len() as u64);
            r.append(n.as_str());
            r.append(" violations)");
            r
        },
        IntentStatus::Abandoned => String::from_str("Abandoned"),
    }
}

/// The short form of an id: the first 8 characters of its hyphenated text.
pub fn short_id(id: u128) -> (r: String)
    ensures
        r@ == uuid_text(id).subrange(0, 8),
{
    let full = id_to_string(id);
    proof {
        assert forall|i: int| 0 <= i < full@.len() implies '\0' <= #[trigger] full@[i] <= '\u{7f}' by {
            assert(is_uuid_char(full@[i]));
        }
    }
    ascii_prefix(&full, 8)
}

} // verus!

verus! {

/// The parts of the semantic summary line of a commit message.
pub open spec fn semantic_parts(s: ImpactSummary) -> Seq<Seq<char>> {
    let a = if s.functions_added > 0 {
        seq!["+"@ + decimal(s.functions_added as nat) + " functions"@]
    } else {
        Seq::empty()
    };
    let b = if s.functions_removed > 0 {
        seq!["-"@ + decimal(s.functions_removed as nat) + " functions"@]
    } else {
        Seq::empty()
    };
    let c = if s.functions_modified > 0 {
        seq!["~"@ + decimal(s.functions_modified as nat) + " functions"@]
    } else {
        Seq::empty()
    };
    let d = if s.breaking_changes > 0 {
        seq![decimal(s.breaking_changes as nat) + " breaking"@]
    } else {
        Seq::empty()
    };
    a + b + c + d
}

/// The commit message for an intent: its goal, its id, the delta's id and
/// semantic summary when there is a delta, and its rationale when it has one.
pub open spec fn commit_message_text(intent: IntentRecord, delta: Option<SemanticDelta>) -> Seq<char> {
    let head = intent.goal@ + "\n\n"@ + "Intent: "@ + uuid_text(intent.id) + "\n"@;
    let with_delta = match delta {
        Some(d) => {
            let parts = semantic_parts(d.impact_summary);
            head + "Delta: "@ + uuid_text(d.id) + "\n"@ + if parts.len() > 0 {
                "\nSemantic: "@ + joined(parts, ", "@)
            } else {
                Seq::empty()
            }
        },
        None => head,
    };
    match intent.rationale {
        Some(r) => with_delta + "\nRationale: "@ + r@,
        None => with_delta,
    }
}

fn count_part(sign: &str, n: usize, unit: &str) -> (r: String)
    ensures
        r@ == sign@ + decimal(n as nat) + unit@,
{
    let mut r = String::from_str(sign);
    let d = decimal_string(n as u64);
    r.append(d.as_str());
    r.append(unit);
    r
}

/// The git commit message for an intent and its delta.
pub fn generate_commit_message(intent: &IntentRecord, delta: Option<&SemanticDelta>) -> (r: String)
    ensures
        r@ == commit_message_text(
            *intent,
            match delta {
                Some(d) => Some(*d),
                None => None,
            },
        ),
{
    let mut message = intent.goal.clone();
    message.append("\n\n");
    message.append("Intent: ");
    let id = id_to_string(intent.id);
    message.append(id.as_str());
    message.append("\n");
    if let Some(d) = delta {
        message.append("Delta: ");
        let did = id_to_string(d.id);
        message.append(did.as_str());
        message.append("\n");
        let s = &d.impact_summary;
        let mut parts: Vec<String> = Vec::new();
        let ghost views = Seq::<Seq<char>>::empty();
        if s.functions_added > 0 {
            parts.push(count_part("+", s.functions_added, " functions"));
        }
        if s.functions_removed > 0 {
            parts.push(count_part("-", s.functions_removed, " functions"));
        }
        if s.functions_modified > 0 {
            parts.push(count_part("~", s.functions_modified, " functions"));
        }
        if s.breaking_changes > 0 {
            parts.push(count_part("", s.breaking_changes, " breaking"));
        }
        proof {
            reveal_strlit("");
            assert(""@ + decimal(s.breaking_changes as nat) =~= decimal(s.breaking_changes as nat));
            assert(parts@.map_values(|p: String| p@) =~= semantic_parts(*s));
        }
        if parts.len() > 0 {
            message.append("\nSemantic: ");
            let j = join_texts(&parts, ", ");
            message.append(j.as_str());
        }
    }
    if let Some(r) = &intent.rationale {
        message.append("\nRationale: ");
        message.append(r.as_str());
    }
    message
}

} // verus!

verus! {

/// Removed functions are always mentioned: when a delta removed `n > 0`
/// functions, the commit message has a semantic line that starts with
/// "+k functions, " when `k > 0` functions were added, followed by
/// "-n functions".
pub proof fn lemma_removed_functions_are_mentioned(intent: IntentRecord, d: SemanticDelta)
    requires
        d.impact_summary.functions_removed > 0,
    ensures
        occurs_in(
            "\nSemantic: "@ + (if d.impact_summary.functions_added > 0 {
                "+"@ + decimal(d.impact_summary.functions_added as nat) + " functions"@ + ", "@
            } else {
                Seq::empty()
            }) + "-"@ + decimal(d.impact_summary.functions_removed as nat) + " functions"@,
            commit_message_text(intent, Some(d)),
        ),
{
    let s = d.impact_summary;
    let parts = semantic_parts(s);
    let a = if s.functions_added > 0 {
        seq!["+"@ + decimal(s.functions_added as nat) + " functions"@]
    } else {
        Seq::<Seq<char>>::empty()
    };
    let bpart = "-"@ + decimal(s.functions_removed as nat) + " functions"@;
    let k: int = a.len() as int + 1;
    assert(parts.take(k) =~= a.push(bpart));
    lemma_joined_prefix(parts, ", "@, k);
    let q = joined(a.push(bpart), ", "@);
    let opt = if s.functions_added > 0 {
        "+"@ + decimal(s.functions_added as nat) + " functions"@ + ", "@
    } else {
        Seq::<char>::empty()
    };
    let x = "\nSemantic: "@ + opt + bpart;
    if s.functions_added > 0 {
        assert(a.push(bpart).drop_last() =~= a);
        assert(q == joined(a, ", "@) + ", "@ + bpart);
        assert(x =~= "\nSemantic: "@ + q);
    } else {
        assert(a.push(bpart) =~= seq![bpart]);
        assert(x =~= "\nSemantic: "@ + q);
    }
    let line = "\nSemantic: "@ + joined(parts, ", "@);
    assert(line.subrange(0, x.len() as int) =~= x);
    let z: int = 0;
    assert(line.subrange(z, z + x.len()) == x);
    assert(occurs_in(x, line));
    let head = intent.goal@ + "\n\n"@ + "Intent: "@ + uuid_text(intent.id) + "\n"@ + "Delta: "@
        + uuid_text(d.id) + "\n"@;
    let tail = match intent.rationale {
        Some(r) => "\nRationale: "@ + r@,
        None => Seq::<char>::empty(),
    };
    lemma_occurs_in_middle(x, head, line, tail);
    assert(commit_message_text(intent, Some(d)) =~= head + line + tail);
    assert(x =~= "\nSemantic: "@ + opt + "-"@ + decimal(s.functions_removed as nat) + " functions"@);
}

} // verus!

verus! {

/// Every count of the semantic summary is mentioned: the commit message
/// holds "+k functions" for `k > 0` added functions, "-n functions" for
/// `n > 0` removed ones, "~m functions" for `m > 0` modified ones, and
/// "b breaking" for `b > 0` breaking changes.
pub proof fn lemma_semantic_counts_mentioned(intent: IntentRecord, d: SemanticDelta)
    ensures
        d.impact_summary.functions_added > 0 ==> occurs_in(
            "+"@ + decimal(d.impact_summary.functions_added as nat) + " functions"@,
            commit_message_text(intent, Some(d)),
        ),
        d.impact_summary.functions_removed > 0 ==> occurs_in(
            "-"@ + decimal(d.impact_summary.functions_removed as nat) + " functions"@,
            commit_message_text(intent, Some(d)),
        ),
        d.impact_summary.functions_modified > 0 ==> occurs_in(
            "~"@ + decimal(d.impact_summary.functions_modified as nat) + " functions"@,
            commit_message_text(intent, Some(d)),
        ),
        d.impact_summary.breaking_changes > 0 ==> occurs_in(
            decimal(d.impact_summary.breaking_changes as nat) + " breaking"@,
            commit_message_text(intent, Some(d)),
        ),
{
    let s = d.impact_summary;
    let parts = semantic_parts(s);
    let line = "\nSemantic: "@ + joined(parts, ", "@);
    let head = intent.goal@ + "\n\n"@ + "Intent: "@ + uuid_text(intent.id) + "\n"@ + "Delta: "@
        + uuid_text(d.id) + "\n"@;
    let tail = match intent.rationale {
        Some(r) => "\nRationale: "@ + r@,
        None => Seq::<char>::empty(),
    };
    if parts.len() > 0 {
        assert(commit_message_text(intent, Some(d)) =~= head + line + tail);
        assert forall|i: int| 0 <= i < parts.len() implies occurs_in(
            #[trigger] parts[i],
            commit_message_text(intent, Some(d)),
        ) by {
            lemma_joined_contains(parts, ", "@, i);
            lemma_occurs_in_self(joined(parts, ", "@));
            lemma_occurs_in_middle(joined(parts, ", "@), "\nSemantic: "@, joined(parts, ", "@), Seq::empty());
            assert("\nSemantic: "@ + joined(parts, ", "@) + Seq::<char>::empty() =~= line);
            lemma_occurs_in_transitive(parts[i], joined(parts, ", "@), line);
            lemma_occurs_in_middle(parts[i], head, line, tail);
        }
    }
    let na: int = if s.functions_added > 0 { 1 } else { 0 };
    let nb: int = if s.functions_removed > 0 { 1 } else { 0 };
    let nc: int = if s.functions_modified > 0 { 1 } else { 0 };
    if s.functions_added > 0 {
        assert(parts[0] == "+"@ + decimal(s.functions_added as nat) + " functions"@);
    }
    if s.functions_removed > 0 {
        assert(parts[na] == "-"@ + decimal(s.functions_removed as nat) + " functions"@);
    }
    if s.functions_modified > 0 {
        assert(parts[na + nb] == "~"@ + decimal(s.functions_modified as nat) + " functions"@);
    }
    if s.breaking_changes > 0 {
        assert(parts[na + nb + nc] == decimal(s.breaking_changes as nat) + " breaking"@);
    }
}

} // verus!
