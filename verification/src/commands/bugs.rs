//! Rules for recording, changing and resolving bugs.

use crate::commands::tickets::{add_hours, hours_after};
use crate::decimal::Decimal;
use crate::models::bug::{Bug, BugSeverity, BugType, CreateBugInput, UpdateBugInput};
use crate::system::{new_identifier, read_clock, IDENTIFIER_LENGTH};
use crate::text::{first_of, first_some, lowercase_of};
use vstd::prelude::*;
use vstd::string::*;

verus! {

/// A bug as the store holds it: severity and type are still text.
#[derive(Debug, Clone)]
pub struct BugRow {
    pub id: String,
    pub ticket_id: String,
    pub developer_id: String,
    pub reported_by: Option<String>,
    pub title: String,
    pub description: Option<String>,
    pub severity: String,
    pub bug_type: String,
    pub is_resolved: bool,
    pub resolved_date: Option<String>,
    pub resolved_by_developer_id: Option<String>,
    pub fix_ticket_id: Option<String>,
    pub created_at: String,
    pub updated_at: String,
}

/// The severity that a stored text stands for; a text that names none counts
/// as medium.
pub open spec fn stored_severity(text: Seq<char>) -> BugSeverity {
    match BugSeverity::named(lowercase_of(text)) {
        Some(severity) => severity,
        None => BugSeverity::Medium,
    }
}

/// The bug type that a stored text stands for; a text that names none counts
/// as the developer's own error.
pub open spec fn stored_bug_type(text: Seq<char>) -> BugType {
    match BugType::named(lowercase_of(text)) {
        Some(bug_type) => bug_type,
        None => BugType::DeveloperError,
    }
}

/// Reads a bug from a stored row. Severity and type that cannot be read fall
/// back to medium and to the developer's own error.
pub fn parse_bug_row(row: BugRow) -> (bug: Bug)
    ensures
        bug == (Bug {
            id: row.id,
            ticket_id: row.ticket_id,
            developer_id: row.developer_id,
            reported_by: row.reported_by,
            title: row.title,
            description: row.description,
            severity: stored_severity(row.severity@),
            bug_type: stored_bug_type(row.bug_type@),
            is_resolved: row.is_resolved,
            resolved_date: row.resolved_date,
            resolved_by_developer_id: row.resolved_by_developer_id,
            fix_ticket_id: row.fix_ticket_id,
            created_at: row.created_at,
            updated_at: row.updated_at,
        }),
{
    let severity = match BugSeverity::from_str(row.severity.as_str()) {
        Ok(severity) => severity,
        Err(_) => BugSeverity::Medium,
    };
    let bug_type = match BugType::from_str(row.bug_type.as_str()) {
        Ok(bug_type) => bug_type,
        Err(_) => BugType::DeveloperError,
    };
    Bug {
        id: row.id,
        ticket_id: row.ticket_id,
        developer_id: row.developer_id,
        reported_by: row.reported_by,
        title: row.title,
        description: row.description,
        severity,
        bug_type,
        is_resolved: row.is_resolved,
        resolved_date: row.resolved_date,
        resolved_by_developer_id: row.resolved_by_developer_id,
        fix_ticket_id: row.fix_ticket_id,
        created_at: row.created_at,
        updated_at: row.updated_at,
    }
}

/// Why a bug cannot be recorded from an input, in the words shown to the
/// user: its severity names none; or its type names none; or the ticket it
/// is reported against is not on record. `None` where it can be recorded.
pub open spec fn create_bug_fault(input: CreateBugInput, ticket_developer: Option<String>) -> Option<
    Seq<char>,
> {
    if BugSeverity::named(lowercase_of(input.severity@)) is None {
        Some("Invalid bug severity: "@ + input.severity@)
    } else if BugType::named(lowercase_of(input.bug_type@)) is None {
        Some("Invalid bug type: "@ + input.bug_type@)
    } else if ticket_developer is None {
        Some("Ticket not found"@)
    } else {
        None
    }
}

/// Records a bug under the given identifier at the given time. The bug is
/// charged to the developer of the ticket it is reported against, who is
/// given as `ticket_developer`, and it starts unresolved.
pub fn new_bug(id: String, now: String, input: CreateBugInput, ticket_developer: Option<String>) -> (r:
    Result<Bug, String>)
    ensures
        match r {
            Ok(bug) => {
                &&& create_bug_fault(input, ticket_developer) is None
                &&& bug == (Bug {
                    id,
                    ticket_id: input.ticket_id,
                    developer_id: ticket_developer->0,
                    reported_by: input.reported_by,
                    title: input.title,
                    description: input.description,
                    severity: BugSeverity::named(lowercase_of(input.severity@))->0,
                    bug_type: BugType::named(lowercase_of(input.bug_type@))->0,
                    is_resolved: false,
                    resolved_date: None,
                    resolved_by_developer_id: None,
                    fix_ticket_id: None,
                    created_at: now,
                    updated_at: now,
                })
            },
            Err(message) => create_bug_fault(input, ticket_developer) == Some(message@),
        },
{
    let severity = match BugSeverity::from_str(input.severity.as_str()) {
        Ok(severity) => severity,
        Err(message) => {
            return Err(message);
        },
    };
    let bug_type = match BugType::from_str(input.bug_type.as_str()) {
        Ok(bug_type) => bug_type,
        Err(message) => {
            return Err(message);
        },
    };
    let developer_id = match ticket_developer {
        Some(developer_id) => developer_id,
        None => {
            return Err(String::from_str("Ticket not found"));
        },
    };
    Ok(
        Bug {
            id,
            ticket_id: input.ticket_id,
            developer_id,
            reported_by: input.reported_by,
            title: input.title,
            description: input.description,
            severity,
            bug_type,
            is_resolved: false,
            resolved_date: None,
            resolved_by_developer_id: None,
            fix_ticket_id: None,
            created_at: now.clone(),
            updated_at: now,
        },
    )
}

/// Records a bug now, under a new identifier.
pub fn create_bug(input: CreateBugInput, ticket_developer: Option<String>) -> (r: Result<Bug, String>)
    ensures
        match r {
            Ok(bug) => {
                &&& create_bug_fault(input, ticket_developer) is None
                &&& bug.id@.len() == IDENTIFIER_LENGTH
                &&& bug == (Bug {
                    id: bug.id,
                    ticket_id: input.ticket_id,
                    developer_id: ticket_developer->0,
                    reported_by: input.reported_by,
                    title: input.title,
                    description: input.description,
                    severity: BugSeverity::named(lowercase_of(input.severity@))->0,
                    bug_type: BugType::named(lowercase_of(input.bug_type@))->0,
                    is_resolved: false,
                    resolved_date: None,
                    resolved_by_developer_id: None,
                    fix_ticket_id: None,
                    created_at: bug.created_at,
                    updated_at: bug.created_at,
                })
            },
            Err(message) => create_bug_fault(input, ticket_developer) == Some(message@),
        },
{
    let reading = read_clock();
    new_bug(new_identifier(), reading.timestamp, input, ticket_developer)
}

/// Why a bug cannot be changed as an input asks: the severity it gives names
/// none; or the type it gives names none. `None` where it can be changed.
pub open spec fn update_bug_fault(input: UpdateBugInput) -> Option<Seq<char>> {
    if input.severity is Some && BugSeverity::named(lowercase_of(input.severity->0@)) is None {
        Some("Invalid bug severity: "@ + input.severity->0@)
    } else if input.bug_type is Some && BugType::named(lowercase_of(input.bug_type->0@)) is None {
        Some("Invalid bug type: "@ + input.bug_type->0@)
    } else {
        None
    }
}

/// The day on which a bug counts as resolved after a change: today where the
/// change resolves it; none where it is unresolved after the change; the day
/// on record where it was resolved before and stays so.
pub open spec fn resolved_date_after(
    was_resolved: bool,
    is_resolved: bool,
    on_record: Option<String>,
    today: String,
) -> Option<String> {
    if is_resolved && !was_resolved {
        Some(today)
    } else if !is_resolved {
        None
    } else {
        on_record
    }
}

/// Whether a bug is resolved after a change as an input asks.
pub open spec fn resolved_after(current: Bug, input: UpdateBugInput) -> bool {
    match input.is_resolved {
        Some(wanted) => wanted,
        None => current.is_resolved,
    }
}

/// The bug after a change as an input asks, where the input is in order:
/// each field that the input gives replaces the current one, an unresolved
/// bug has no resolver, and the day of resolution and the time of the change
/// are as given.
pub open spec fn updated_bug(
    current: Bug,
    input: UpdateBugInput,
    resolved_date: Option<String>,
    now: String,
) -> Bug {
    Bug {
        id: input.id,
        ticket_id: current.ticket_id,
        developer_id: current.developer_id,
        reported_by: current.reported_by,
        title: match input.title {
            Some(title) => title,
            None => current.title,
        },
        description: first_of(input.description, current.description),
        severity: match input.severity {
            Some(text) => BugSeverity::named(lowercase_of(text@))->0,
            None => current.severity,
        },
        bug_type: match input.bug_type {
            Some(text) => BugType::named(lowercase_of(text@))->0,
            None => current.bug_type,
        },
        is_resolved: resolved_after(current, input),
        resolved_date,
        resolved_by_developer_id: if resolved_after(current, input) {
            first_of(input.resolved_by_developer_id, current.resolved_by_developer_id)
        } else {
            None
        },
        fix_ticket_id: first_of(input.fix_ticket_id, current.fix_ticket_id),
        created_at: current.created_at,
        updated_at: now,
    }
}

/// Changes a bug as an input asks, on the given day and at the given time:
/// each field that the input gives replaces the current one. Resolving sets
/// the day of resolution, unresolving clears it together with the resolver.
pub fn apply_bug_update(current: Bug, input: UpdateBugInput, today: String, now: String) -> (r: Result<
    Bug,
    String,
>)
    ensures
        match r {
            Ok(bug) => update_bug_fault(input) is None && bug == updated_bug(
                current,
                input,
                resolved_date_after(
                    current.is_resolved,
                    resolved_after(current, input),
                    current.resolved_date,
                    today,
                ),
                now,
            ),
            Err(message) => update_bug_fault(input) == Some(message@),
        },
{
    let severity = match &input.severity {
        Some(text) => match BugSeverity::from_str(text.as_str()) {
            Ok(severity) => severity,
            Err(message) => {
                return Err(message);
            },
        },
        None => current.severity,
    };
    let bug_type = match &input.bug_type {
        Some(text) => match BugType::from_str(text.as_str()) {
            Ok(bug_type) => bug_type,
            Err(message) => {
                return Err(message);
            },
        },
        None => current.bug_type,
    };
    let is_resolved = match input.is_resolved {
        Some(wanted) => wanted,
        None => current.is_resolved,
    };
    let resolved_date = if is_resolved && !current.is_resolved {
        Some(today)
    } else if !is_resolved {
        None
    } else {
        current.resolved_date
    };
    let resolved_by_developer_id = if is_resolved {
        first_some(input.resolved_by_developer_id, current.resolved_by_developer_id)
    } else {
        None
    };
    Ok(
        Bug {
            id: input.id,
            ticket_id: current.ticket_id,
            developer_id: current.developer_id,
            reported_by: current.reported_by,
            title: match input.title {
                Some(title) => title,
                None => current.title,
            },
            description: first_some(input.description, current.description),
            severity,
            bug_type,
            is_resolved,
            resolved_date,
            resolved_by_developer_id,
            fix_ticket_id: first_some(input.fix_ticket_id, current.fix_ticket_id),
            created_at: current.created_at,
            updated_at: now,
        },
    )
}

/// Changes a bug as an input asks, today and now. Every field of the bug is
/// fixed but the time of the change and, where the change resolves the bug,
/// the day of resolution, which is today.
pub fn update_bug(current: Bug, input: UpdateBugInput) -> (r: Result<Bug, String>)
    ensures
        match r {
            Ok(bug) => {
                &&& update_bug_fault(input) is None
                &&& bug == updated_bug(current, input, bug.resolved_date, bug.updated_at)
                &&& if resolved_after(current, input) && !current.is_resolved {
                    bug.resolved_date is Some
                } else if !resolved_after(current, input) {
                    bug.resolved_date is None
                } else {
                    bug.resolved_date == current.resolved_date
                }
            },
            Err(message) => update_bug_fault(input) == Some(message@),
        },
{
    let reading = read_clock();
    apply_bug_update(current, input, reading.date, reading.timestamp)
}

/// What is to be written to the ticket under which a bug was fixed: the
/// ticket is completed today, with these hours, and handed to the resolver
/// where one is named.
#[derive(Debug, Clone)]
pub struct FixTicketChange {
    pub ticket_id: String,
    /// The developer the ticket goes to; `None` leaves it with its developer.
    pub developer_id: Option<String>,
    pub actual_hours: Option<Decimal>,
    pub completed_date: String,
    pub updated_at: String,
}

/// The outcome of resolving a bug: the bug as it is afterwards, and the
/// change to the fix ticket where there is one.
#[derive(Debug, Clone)]
pub struct BugResolution {
    pub bug: Bug,
    pub fix_ticket: Option<FixTicketChange>,
}

/// The hours on a fix ticket after a bug was resolved under it: the hours on
/// the ticket, none counting as 0, and the hours of the fix together; the
/// hours on the ticket as they are where no hours of the fix are given.
pub open spec fn fix_hours_after(on_ticket: Option<Decimal>, fix_hours: Option<Decimal>) -> Option<
    Decimal,
> {
    match fix_hours {
        Some(added) => hours_after(
            Some(
                match on_ticket {
                    Some(hours) => hours,
                    None => Decimal { units: 0 },
                },
            ),
            Some(added),
        ),
        None => on_ticket,
    }
}

/// Resolves a bug on the given day and at the given time. A bug that is
/// resolved already is refused. The fix ticket, where one is given, is
/// completed that day with `fix_hours` booked on top of `ticket_hours`, the
/// hours on it so far, and goes to the resolver where one is named.
pub fn resolve_bug_at(
    current: Bug,
    resolved_by_developer_id: Option<String>,
    fix_ticket_id: Option<String>,
    ticket_hours: Option<Decimal>,
    fix_hours: Option<Decimal>,
    today: String,
    now: String,
) -> (r: Result<BugResolution, String>)
    ensures
        match r {
            Ok(resolution) => {
                &&& !current.is_resolved
                &&& resolution.bug == (Bug {
                    is_resolved: true,
                    resolved_date: Some(today),
                    resolved_by_developer_id,
                    fix_ticket_id,
                    updated_at: now,
                    ..current
                })
                &&& match fix_ticket_id {
                    Some(ticket_id) => resolution.fix_ticket == Some(
                        FixTicketChange {
                            ticket_id,
                            developer_id: resolved_by_developer_id,
                            actual_hours: fix_hours_after(ticket_hours, fix_hours),
                            completed_date: today,
                            updated_at: now,
                        },
                    ),
                    None => resolution.fix_ticket is None,
                }
            },
            Err(message) => current.is_resolved && message@ == "Bug is already resolved"@,
        },
{
    if current.is_resolved {
        return Err(String::from_str("Bug is already resolved"));
    }
    let fix_ticket = match &fix_ticket_id {
        Some(ticket_id) => {
            let hours = match fix_hours {
                Some(added) => add_hours(
                    Some(
                        match ticket_hours {
                            Some(hours) => hours,
                            None => Decimal { units: 0 },
                        },
                    ),
                    Some(added),
                ),
                None => ticket_hours,
            };
            Some(
                FixTicketChange {
                    ticket_id: ticket_id.clone(),
                    developer_id: resolved_by_developer_id.clone(),
                    actual_hours: hours,
                    completed_date: today.clone(),
                    updated_at: now.clone(),
                },
            )
        },
        None => None,
    };
    Ok(
        BugResolution {
            bug: Bug {
                id: current.id,
                ticket_id: current.ticket_id,
                developer_id: current.developer_id,
                reported_by: current.reported_by,
                title: current.title,
                description: current.description,
                severity: current.severity,
                bug_type: current.bug_type,
                is_resolved: true,
                resolved_date: Some(today),
                resolved_by_developer_id,
                fix_ticket_id,
                created_at: current.created_at,
                updated_at: now,
            },
            fix_ticket,
        },
    )
}

/// Resolves a bug today and now.
pub fn resolve_bug(
    current: Bug,
    resolved_by_developer_id: Option<String>,
    fix_ticket_id: Option<String>,
    ticket_hours: Option<Decimal>,
    fix_hours: Option<Decimal>,
) -> (r: Result<BugResolution, String>)
    ensures
        match r {
            Ok(resolution) => {
                &&& !current.is_resolved
                &&& resolution.bug.is_resolved
                &&& resolution.bug.resolved_date is Some
                &&& resolution.bug == (Bug {
                    is_resolved: true,
                    resolved_date: resolution.bug.resolved_date,
                    resolved_by_developer_id,
                    fix_ticket_id,
                    updated_at: resolution.bug.updated_at,
                    ..current
                })
                &&& match fix_ticket_id {
                    Some(ticket_id) => resolution.fix_ticket == Some(
                        FixTicketChange {
                            ticket_id,
                            developer_id: resolved_by_developer_id,
                            actual_hours: fix_hours_after(ticket_hours, fix_hours),
                            completed_date: resolution.bug.resolved_date->0,
                            updated_at: resolution.bug.updated_at,
                        },
                    ),
                    None => resolution.fix_ticket is None,
                }
            },
            Err(message) => current.is_resolved && message@ == "Bug is already resolved"@,
        },
{
    let reading = read_clock();
    resolve_bug_at(
        current,
        resolved_by_developer_id,
        fix_ticket_id,
        ticket_hours,
        fix_hours,
        reading.date,
        reading.timestamp,
    )
}

} // verus!
