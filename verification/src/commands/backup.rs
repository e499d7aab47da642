//! `smelt backup` and `smelt init`: backup names and checks, and what an
//! existing `.smelt` directory means for initialization.

use vstd::prelude::*;
use crate::text::{decimal, decimal_string};
use crate::time::{stamp_text, Timestamp};

verus! {

/// The default name of a backup made at a time.
pub fn backup_name(now: &Timestamp) -> (r: String)
    ensures
        r@ == "smelt-backup-"@ + stamp_text(now.secs_spec(), now.nanos_spec()) + ".tar"@,
{
    let mut r = String::from_str("smelt-backup-");
    let t = now.to_stamp_text();
    r.append(t.as_str());
    r.append(".tar");
    r
}

/// The size of a backup, in whole kilobytes.
pub fn size_line(bytes: u64) -> (r: String)
    ensures
        r@ == "Size: "@ + decimal((bytes / 1024) as nat) + " KB"@,
{
    let mut r = String::from_str("Size: ");
    let n = decimal_string(bytes / 1024);
    r.append(n.as_str());
    r.append(" KB");
    r
}

/// The failure for a backup file that does not exist.
pub fn backup_not_found(display: &str) -> (r: String)
    ensures
        r@ == "Backup file not found: "@ + display@,
{
    let mut r = String::from_str("Backup file not found: ");
    r.append(display);
    r
}

/// Whether a restore may go ahead: the backup must exist, and an existing
/// `.smelt` directory is only overwritten when forced.
pub fn restore_check(backup_exists: bool, display: &str, smelt_exists: bool, force: bool) -> (r:
    Result<(), String>)
    ensures
        !backup_exists ==> (r matches Err(m) && m@ == "Backup file not found: "@ + display@),
        backup_exists && smelt_exists && !force ==> (r matches Err(m) && m@
            == "Smelt directory already exists. Use --force to overwrite, or back up first."@),
        backup_exists && (!smelt_exists || force) ==> r is Ok,
{
    if !backup_exists {
        return Err(backup_not_found(display));
    }
    if smelt_exists && !force {
        return Err(
            String::from_str(
                "Smelt directory already exists. Use --force to overwrite, or back up first.",
            ),
        );
    }
    Ok(())
}

/// The name of a file inside a directory of the archive.
pub fn archive_name(prefix: &str, name: &str) -> (r: String)
    ensures
        r@ == prefix@ + "/"@ + name@,
{
    let mut r = String::from_str(prefix);
    r.append("/");
    r.append(name);
    r
}

/// The total line of a backup's listing.
pub fn listing_total(files: usize, total_bytes: u64) -> (r: String)
    ensures
        r@ == "Total: "@ + decimal(files as nat) + " files, "@ + decimal((total_bytes / 1024) as nat)
            + " KB"@,
{
    let mut r = String::from_str("Total: ");
    let a = decimal_string(files as u64);
    r.append(a.as_str());
    r.append(" files, ");
    let b = decimal_string(total_bytes / 1024);
    r.append(b.as_str());
    r.append(" KB");
    r
}

/// The issue noted for an archive entry that could not be read.
pub fn corrupt_entry(error: &str) -> (r: String)
    ensures
        r@ == "Corrupt entry: "@ + error@,
{
    let mut r = String::from_str("Corrupt entry: ");
    r.append(error);
    r
}

/// The verdict on a backup: valid, with its number of files, when no entry
/// was corrupt and it holds the database; else its issues, the corrupt
/// entries first and then the missing database.
pub fn verify_verdict(corrupt: Vec<String>, has_database: bool, files: usize) -> (r: Result<
    String,
    Vec<String>,
>)
    ensures
        corrupt@.len() == 0 && has_database ==> (r matches Ok(m) && m@ == "✓ Backup is valid ("@
            + decimal(files as nat) + " files)"@),
        !(corrupt@.len() == 0 && has_database) ==> (r matches Err(issues) && if has_database {
            issues@ == corrupt@
        } else {
            issues@.len() == corrupt@.len() + 1 && issues@.take(corrupt@.len() as int) == corrupt@
                && issues@.last()@ == "Missing smelt.db database file"@
        }),
{
    let mut issues = corrupt;
    if !has_database {
        let ghost before = issues@;
        issues.push(String::from_str("Missing smelt.db database file"));
        assert(issues@.take(before.len() as int) =~= before);
    }
    if issues.len() == 0 {
        let mut m = String::from_str("✓ Backup is valid (");
        let n = decimal_string(files as u64);
        m.append(n.as_str());
        m.append(" files)");
        Ok(m)
    } else {
        Err(issues)
    }
}

/// What an existing `.smelt` directory means for `smelt init`.
#[derive(Clone, Copy, Debug, PartialEq, Eq, Structural)]
pub enum InitState {
    /// There is none: initialize.
    Fresh,
    /// It holds a database: nothing to do.
    AlreadyInitialized,
    /// It lacks the database: remove it and initialize again.
    Incomplete,
}

/// Decides from what exists.
pub fn init_state(smelt_exists: bool, db_exists: bool) -> (r: InitState)
    ensures
        !smelt_exists ==> r == InitState::Fresh,
        smelt_exists && db_exists ==> r == InitState::AlreadyInitialized,
        smelt_exists && !db_exists ==> r == InitState::Incomplete,
{
    if !smelt_exists {
        InitState::Fresh
    } else if db_exists {
        InitState::AlreadyInitialized
    } else {
        InitState::Incomplete
    }
}

} // verus!
