//! What Smelt reads from git, as plain values, and the rules it applies to
//! them: which file states count as changed or staged, how a commit's
//! summary and author are taken, and how the current branch is named.
//!
//! The application talks to the repository and hands these values over.

use vstd::prelude::*;
use vstd::string::StrSliceExecFns;
use crate::mcp::commit::shortenable;
use crate::text::head_bytes;
use crate::time::Timestamp;
use vstd::utf8::{decode_utf8, encode_utf8};

verus! {

/// A commit as Smelt sees it.
#[derive(Debug, Clone)]
pub struct CommitInfo {
    /// Its SHA, in hex.
    pub sha: String,
    /// The first line of its message.
    pub summary: String,
    /// Its whole message.
    pub message: String,
    /// Who wrote it.
    pub author_name: String,
    /// Their address.
    pub author_email: String,
    /// When it was made.
    pub timestamp: Timestamp,
    /// The files it touched.
    pub files_changed: Vec<String>,
}

/// The state of one file in git's status.
#[derive(Clone, Copy, Debug, PartialEq, Eq, Structural)]
pub struct FileState {
    /// Modified in the working tree.
    pub wt_modified: bool,
    /// New in the working tree.
    pub wt_new: bool,
    /// Deleted in the working tree.
    pub wt_deleted: bool,
    /// Renamed in the working tree.
    pub wt_renamed: bool,
    /// Modified in the index.
    pub index_modified: bool,
    /// New in the index.
    pub index_new: bool,
    /// Deleted in the index.
    pub index_deleted: bool,
    /// Renamed in the index.
    pub index_renamed: bool,
}

impl FileState {
    /// Whether the file is staged: modified, new, deleted or renamed in the index.
    pub open spec fn staged_spec(self) -> bool {
        self.index_modified || self.index_new || self.index_deleted || self.index_renamed
    }

    /// Whether the file counts as changed: staged, or modified, new, deleted
    /// or renamed in the working tree.
    pub open spec fn changed_spec(self) -> bool {
        self.wt_modified || self.wt_new || self.wt_deleted || self.wt_renamed || self.staged_spec()
    }

    /// Whether the file is staged.
    pub fn is_staged(&self) -> (r: bool)
        ensures
            r == self.staged_spec(),
    {
        self.index_modified || self.index_new || self.index_deleted || self.index_renamed
    }

    /// Whether the file counts as changed.
    pub fn is_changed(&self) -> (r: bool)
        ensures
            r == self.changed_spec(),
    {
        self.wt_modified || self.wt_new || self.wt_deleted || self.wt_renamed || self.is_staged()
    }
}

/// A repository is initialized once it has a commit; when it cannot tell
/// whether it is empty it counts as not initialized.
pub fn repository_initialized(is_empty: Result<bool, String>) -> (r: bool)
    ensures
        r == (is_empty == Ok::<bool, String>(false)),
{
    match is_empty {
        Ok(e) => !e,
        Err(_) => false,
    }
}

/// The name shown for the current branch: the branch's own name, or for a
/// detached HEAD the first 8 bytes of the commit it points at.
pub open spec fn branch_label_text(branch: Option<Seq<char>>, head_sha: Seq<char>) -> Seq<char> {
    match branch {
        Some(b) => b,
        None => "HEAD detached at "@ + decode_utf8(encode_utf8(head_sha).subrange(0, 8)),
    }
}

/// Names the current branch.
pub fn branch_label(branch: Option<String>, head_sha: &str) -> (r: String)
    requires
        branch is None ==> shortenable(head_sha@),
    ensures
        r@ == branch_label_text(match branch {
            Some(b) => Some(b@),
            None => None,
        }, head_sha@),
{
    match branch {
        Some(b) => b,
        None => {
            let mut r = String::from_str("HEAD detached at ");
            let h = head_bytes(head_sha, 8);
            r.append(h.as_str());
            r
        },
    }
}

/// The index of the first line feed in a text, if any.
pub open spec fn first_newline(s: Seq<char>) -> Option<int> {
    if exists|i: int| 0 <= i < s.len() && s[i] == '\n' {
        Some(choose|i: int| 0 <= i < s.len() && s[i] == '\n' && forall|j: int| 0 <= j < i ==> s[j] != '\n')
    } else {
        None
    }
}

/// The first line of a message, as `str::lines` gives it: up to the first
/// line feed, without a carriage return right before it; empty for an
/// empty message.
pub open spec fn summary_of(message: Seq<char>) -> Seq<char> {
    match first_newline(message) {
        None => message,
        Some(i) => if i > 0 && message[i - 1] == '\r' {
            message.subrange(0, i - 1)
        } else {
            message.subrange(0, i)
        },
    }
}

/// Takes the first line of a commit message.
pub fn summary_line(message: &str) -> (r: String)
    ensures
        r@ == summary_of(message@),
{
    let n = message.unicode_len();
    let mut i: usize = 0;
    while i < n
        invariant
            n == message@.len(),
            i <= n,
            forall|j: int| 0 <= j < i ==> message@[j] != '\n',
        decreases n - i,
    {
        let c = message.get_char(i);
        if c == '\n' {
            proof {
                let s = message@;
                assert(exists|k: int| 0 <= k < s.len() && s[k] == '\n');
                let k = choose|k: int|
                    0 <= k < s.len() && s[k] == '\n' && forall|j: int| 0 <= j < k ==> s[j] != '\n';
                assert(0 <= i < s.len() && s[i as int] == '\n' && forall|j: int| 0 <= j < i ==> s[j] != '\n');
                if k < i {
                    assert(s[k] != '\n');
                } else if k > i {
                    assert(s[i as int] != '\n');
                }
                assert(first_newline(s) == Some(i as int));
            }
            let end = if i > 0 && message.get_char(i - 1) == '\r' {
                i - 1
            } else {
                i
            };
            return String::from_str(message.substring_char(0, end));
        }
        i = i + 1;
    }
    proof {
        assert(!(exists|k: int| 0 <= k < message@.len() && message@[k] == '\n'));
    }
    String::from_str(message)
}

/// A commit from what the repository gave: an author without a name is
/// `Unknown`, one without an address has an empty one, and the summary is
/// the message's first line.
pub fn commit_info(
    sha: String,
    message: String,
    author_name: Option<String>,
    author_email: Option<String>,
    timestamp: Timestamp,
    files_changed: Vec<String>,
) -> (r: CommitInfo)
    ensures
        r.sha == sha,
        r.message == message,
        r.summary@ == summary_of(message@),
        match author_name {
            Some(n) => r.author_name == n,
            None => r.author_name@ == "Unknown"@,
        },
        match author_email {
            Some(e) => r.author_email == e,
            None => r.author_email@ == ""@,
        },
        r.timestamp == timestamp,
        r.files_changed == files_changed,
{
    let summary = summary_line(message.as_str());
    proof {
        reveal_strlit("");
    }
    CommitInfo {
        sha,
        summary,
        message,
        author_name: match author_name {
            Some(n) => n,
            None => String::from_str("Unknown"),
        },
        author_email: match author_email {
            Some(e) => e,
            None => String::new(),
        },
        timestamp,
        files_changed,
    }
}

} // verus!
