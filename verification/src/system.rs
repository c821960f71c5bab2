//! What the library takes from the machine it runs on: the time of day and
//! fresh identifiers.

use vstd::prelude::*;

verus! {

/// One reading of the clock, in UTC, written in the forms the library uses.
#[derive(Debug, Clone)]
pub struct ClockReading {
    /// Date and time with offset, as in `2024-03-05T10:20:30.123456789+00:00`.
    pub timestamp: String,
    /// The date, as in `2024-03-05`.
    pub date: String,
    /// The year, as in `2024`.
    pub year: String,
    /// The month with two digits, as in `03`.
    pub month: String,
}

/// Reads the clock with `chrono::Utc::now` and writes the instant with
/// `DateTime::to_rfc3339` and with `DateTime::format` for the patterns
/// `%Y-%m-%d`, `%Y` and `%m`. The result depends on the time of the call, so
/// the contract claims nothing of it. `Utc::now` panics on a machine whose
/// clock is set before 1970.
#[verifier::external_body]
pub(crate) fn read_clock() -> (reading: ClockReading) {
    let now = chrono::Utc::now();
    ClockReading {
        timestamp: now.to_rfc3339(),
        date: now.format("%Y-%m-%d").to_string(),
        year: now.format("%Y").to_string(),
        month: now.format("%m").to_string(),
    }
}

/// Length of an identifier as `uuid` writes it: 32 hexadecimal digits in five
/// groups, with four hyphens between them.
pub const IDENTIFIER_LENGTH: usize = 36;

/// Draws a random identifier with `uuid::Uuid::new_v4` and writes it with the
/// `Display` of `Uuid`, which is the hyphenated lowercase form. Which
/// identifier comes is left open; its length is the same for all. `new_v4`
/// panics where the machine hands out no random bytes.
#[verifier::external_body]
pub(crate) fn new_identifier() -> (id: String)
    ensures
        id@.len() == IDENTIFIER_LENGTH,
{
    uuid::Uuid::new_v4().to_string()
}

/// What `chrono::NaiveDate::parse_from_str` with the pattern `%Y-%m-%d` has
/// against a text: the words of its error, or `None` where it reads a date
/// from the text.
pub uninterp spec fn date_fault_of(text: Seq<char>) -> Option<Seq<char>>;

/// Tries a text as a date with `chrono::NaiveDate::parse_from_str` and the
/// pattern `%Y-%m-%d`, and hands back the words of the error, written with
/// its `Display`, where the text is refused. The outcome is a function of the
/// text alone; the contract names it and claims nothing else of it.
#[verifier::external_body]
pub(crate) fn date_fault(text: &str) -> (fault: Option<String>)
    ensures
        match fault {
            Some(words) => date_fault_of(text@) == Some(words@),
            None => date_fault_of(text@) is None,
        },
{
    match chrono::NaiveDate::parse_from_str(text, "%Y-%m-%d") {
        Ok(_) => None,
        Err(error) => Some(error.to_string()),
    }
}

} // verus!
