//! What to tell the user when the store cannot be opened.

use crate::text::{contains, holds, joined, same_text};
use vstd::prelude::*;
use vstd::string::*;

verus! {

/// What the user is told about the report of an integrity check: nothing
/// where the report is `ok`, and otherwise that the store is damaged, with
/// the report.
pub open spec fn integrity_fault_words(report: Seq<char>) -> Option<Seq<char>> {
    if report == "ok"@ {
        None
    } else {
        Some("Database corruption detected. Please restore from a backup. Error: "@ + report)
    }
}

/// Judges the report of an integrity check.
pub fn integrity_fault(report: &str) -> (fault: Option<String>)
    ensures
        match fault {
            Some(words) => integrity_fault_words(report@) == Some(words@),
            None => integrity_fault_words(report@) is None,
        },
{
    if same_text(report, "ok") {
        None
    } else {
        Some(
            joined("Database corruption detected. Please restore from a backup. Error: ", report),
        )
    }
}

/// What the user is told when a store that exists cannot be opened for the
/// integrity check.
pub open spec fn unreadable_store_words(error: Seq<char>) -> Seq<char> {
    "Database file appears to be corrupted. Please restore from a backup. Error: "@ + error
}

/// Puts into words that a store that exists cannot be opened.
pub fn describe_unreadable_store(error: &str) -> (words: String)
    ensures
        words@ == unreadable_store_words(error@),
{
    joined("Database file appears to be corrupted. Please restore from a backup. Error: ", error)
}

/// What the user is told when the store cannot be opened, from the words of
/// the error: that the file is damaged where the error says that it is no
/// database or malformed, and the error itself otherwise.
pub open spec fn open_failure_words(error: Seq<char>) -> Seq<char> {
    if holds(error, "not a database"@) || holds(error, "malformed"@) {
        "Database file is corrupted. Please restore from a backup or delete the database file to start fresh."@
    } else {
        "Failed to open database: "@ + error
    }
}

/// Puts into words for the user why the store could not be opened.
pub fn describe_open_failure(error: &str) -> (words: String)
    ensures
        words@ == open_failure_words(error@),
{
    if contains(error, "not a database") || contains(error, "malformed") {
        String::from_str(
            "Database file is corrupted. Please restore from a backup or delete the database file to start fresh.",
        )
    } else {
        joined("Failed to open database: ", error)
    }
}

} // verus!
