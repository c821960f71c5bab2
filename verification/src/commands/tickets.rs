//! Rules for creating, changing, completing and reopening tickets.

use crate::decimal::Decimal;
use crate::models::ticket::{
    CreateTicketInput, Ticket, TicketComplexity, TicketStatus, UpdateTicketInput,
};
use crate::system::{date_fault, date_fault_of, new_identifier, read_clock, IDENTIFIER_LENGTH};
use crate::text::{first_of, first_some, joined, lowercase_of};
use vstd::prelude::*;
use vstd::string::*;

verus! {

/// A ticket as the store holds it: status and complexity are still text.
#[derive(Debug, Clone)]
pub struct TicketRow {
    pub id: String,
    pub title: String,
    pub description: Option<String>,
    pub developer_id: String,
    pub assigned_date: String,
    pub due_date: String,
    pub completed_date: Option<String>,
    pub status: String,
    pub estimated_hours: Option<Decimal>,
    pub actual_hours: Option<Decimal>,
    pub complexity: String,
    pub reopen_count: i32,
    pub created_at: String,
    pub updated_at: String,
}

/// The status that a stored text stands for; a text that names no status
/// counts as assigned.
pub open spec fn stored_status(text: Seq<char>) -> TicketStatus {
    match TicketStatus::named(lowercase_of(text)) {
        Some(status) => status,
        None => TicketStatus::Assigned,
    }
}

/// The complexity that a stored text stands for; a text that names none
/// counts as medium.
pub open spec fn stored_complexity(text: Seq<char>) -> TicketComplexity {
    match TicketComplexity::named(lowercase_of(text)) {
        Some(complexity) => complexity,
        None => TicketComplexity::Medium,
    }
}

/// Reads a ticket from a stored row. Status and complexity that cannot be
/// read fall back to assigned and medium.
pub fn parse_ticket_row(row: TicketRow) -> (ticket: Ticket)
    ensures
        ticket == (Ticket {
            id: row.id,
            title: row.title,
            description: row.description,
            developer_id: row.developer_id,
            assigned_date: row.assigned_date,
            due_date: row.due_date,
            completed_date: row.completed_date,
            status: stored_status(row.status@),
            estimated_hours: row.estimated_hours,
            actual_hours: row.actual_hours,
            complexity: stored_complexity(row.complexity@),
            reopen_count: row.reopen_count,
            created_at: row.created_at,
            updated_at: row.updated_at,
        }),
{
    let status = match TicketStatus::from_str(row.status.as_str()) {
        Ok(status) => status,
        Err(_) => TicketStatus::Assigned,
    };
    let complexity = match TicketComplexity::from_str(row.complexity.as_str()) {
        Ok(complexity) => complexity,
        Err(_) => TicketComplexity::Medium,
    };
    Ticket {
        id: row.id,
        title: row.title,
        description: row.description,
        developer_id: row.developer_id,
        assigned_date: row.assigned_date,
        due_date: row.due_date,
        completed_date: row.completed_date,
        status,
        estimated_hours: row.estimated_hours,
        actual_hours: row.actual_hours,
        complexity,
        reopen_count: row.reopen_count,
        created_at: row.created_at,
        updated_at: row.updated_at,
    }
}

/// The ticket that is created from an input: assigned today, not yet
/// completed, never reopened.
pub open spec fn created_ticket(
    id: String,
    today: String,
    now: String,
    input: CreateTicketInput,
    complexity: TicketComplexity,
) -> Ticket {
    Ticket {
        id,
        title: input.title,
        description: input.description,
        developer_id: input.developer_id,
        assigned_date: today,
        due_date: input.due_date,
        completed_date: None,
        status: TicketStatus::Assigned,
        estimated_hours: input.estimated_hours,
        actual_hours: None,
        complexity,
        reopen_count: 0,
        created_at: now,
        updated_at: now,
    }
}

/// Why a ticket cannot be created from an input, in the words shown to the
/// user: its complexity names none, or, that being in order, the developer is
/// not on record as active. `None` where it can be created.
pub open spec fn create_ticket_fault(input: CreateTicketInput, developer_active: bool) -> Option<
    Seq<char>,
> {
    if TicketComplexity::named(lowercase_of(input.complexity@)) is None {
        Some("Invalid ticket complexity: "@ + input.complexity@)
    } else if !developer_active {
        Some("Developer not found or inactive"@)
    } else {
        None
    }
}

/// Creates a ticket under the given identifier, with the given day as the
/// day of assignment and the given time as the time of creation.
pub fn new_ticket(
    id: String,
    today: String,
    now: String,
    input: CreateTicketInput,
    developer_active: bool,
) -> (r: Result<Ticket, String>)
    ensures
        match r {
            Ok(ticket) => {
                &&& create_ticket_fault(input, developer_active) is None
                &&& ticket == created_ticket(
                    id,
                    today,
                    now,
                    input,
                    TicketComplexity::named(lowercase_of(input.complexity@))->0,
                )
            },
            Err(message) => create_ticket_fault(input, developer_active) == Some(message@),
        },
{
    let complexity = match TicketComplexity::from_str(input.complexity.as_str()) {
        Ok(complexity) => complexity,
        Err(message) => {
            return Err(message);
        },
    };
    if !developer_active {
        return Err(String::from_str("Developer not found or inactive"));
    }
    Ok(
        Ticket {
            id,
            title: input.title,
            description: input.description,
            developer_id: input.developer_id,
            assigned_date: today,
            due_date: input.due_date,
            completed_date: None,
            status: TicketStatus::Assigned,
            estimated_hours: input.estimated_hours,
            actual_hours: None,
            complexity,
            reopen_count: 0,
            created_at: now.clone(),
            updated_at: now,
        },
    )
}

/// Creates a ticket for a developer, assigned today, under a new identifier.
/// `developer_active` says whether the developer is on record as active.
pub fn create_ticket(input: CreateTicketInput, developer_active: bool) -> (r: Result<Ticket, String>)
    ensures
        match r {
            Ok(ticket) => {
                &&& create_ticket_fault(input, developer_active) is None
                &&& ticket.id@.len() == IDENTIFIER_LENGTH
                &&& ticket == created_ticket(
                    ticket.id,
                    ticket.assigned_date,
                    ticket.created_at,
                    input,
                    TicketComplexity::named(lowercase_of(input.complexity@))->0,
                )
            },
            Err(message) => create_ticket_fault(input, developer_active) == Some(message@),
        },
{
    let reading = read_clock();
    new_ticket(new_identifier(), reading.date, reading.timestamp, input, developer_active)
}

/// The status of a ticket after an update: the one that the input names, or
/// the current one where the input names none.
pub open spec fn updated_status(current: TicketStatus, wanted: Option<String>) -> Option<
    TicketStatus,
> {
    match wanted {
        Some(text) => TicketStatus::named(lowercase_of(text@)),
        None => Some(current),
    }
}

/// Changes a ticket as an input asks: each field that the input gives
/// replaces the current one, and the time of the change is noted. An input
/// with a status that names none is refused.
pub fn apply_ticket_update(current: Ticket, input: UpdateTicketInput, now: String) -> (r: Result<
    Ticket,
    String,
>)
    ensures
        match r {
            Ok(ticket) => {
                &&& updated_status(current.status, input.status) == Some(ticket.status)
                &&& ticket == (Ticket {
                    id: input.id,
                    title: match input.title {
                        Some(title) => title,
                        None => current.title,
                    },
                    description: first_of(input.description, current.description),
                    developer_id: match input.developer_id {
                        Some(developer_id) => developer_id,
                        None => current.developer_id,
                    },
                    assigned_date: current.assigned_date,
                    due_date: match input.due_date {
                        Some(due_date) => due_date,
                        None => current.due_date,
                    },
                    completed_date: current.completed_date,
                    status: ticket.status,
                    estimated_hours: current.estimated_hours,
                    actual_hours: first_of(input.actual_hours, current.actual_hours),
                    complexity: current.complexity,
                    reopen_count: current.reopen_count,
                    created_at: current.created_at,
                    updated_at: now,
                })
            },
            Err(message) => {
                &&& updated_status(current.status, input.status) is None
                &&& message@ == "Invalid ticket status: "@ + input.status->0@
            },
        },
{
    let status = match &input.status {
        Some(text) => match TicketStatus::from_str(text.as_str()) {
            Ok(status) => status,
            Err(message) => {
                return Err(message);
            },
        },
        None => current.status,
    };
    Ok(
        Ticket {
            id: input.id,
            title: match input.title {
                Some(title) => title,
                None => current.title,
            },
            description: first_some(input.description, current.description),
            developer_id: match input.developer_id {
                Some(developer_id) => developer_id,
                None => current.developer_id,
            },
            assigned_date: current.assigned_date,
            due_date: match input.due_date {
                Some(due_date) => due_date,
                None => current.due_date,
            },
            completed_date: current.completed_date,
            status,
            estimated_hours: current.estimated_hours,
            actual_hours: first_some(input.actual_hours, current.actual_hours),
            complexity: current.complexity,
            reopen_count: current.reopen_count,
            created_at: current.created_at,
            updated_at: now,
        },
    )
}

/// Changes a ticket as an input asks, noting the current time as the time of
/// the change.
pub fn update_ticket(current: Ticket, input: UpdateTicketInput) -> (r: Result<Ticket, String>)
    ensures
        match r {
            Ok(ticket) => {
                &&& updated_status(current.status, input.status) == Some(ticket.status)
                &&& ticket == (Ticket {
                    id: input.id,
                    title: match input.title {
                        Some(title) => title,
                        None => current.title,
                    },
                    description: first_of(input.description, current.description),
                    developer_id: match input.developer_id {
                        Some(developer_id) => developer_id,
                        None => current.developer_id,
                    },
                    assigned_date: current.assigned_date,
                    due_date: match input.due_date {
                        Some(due_date) => due_date,
                        None => current.due_date,
                    },
                    completed_date: current.completed_date,
                    status: ticket.status,
                    estimated_hours: current.estimated_hours,
                    actual_hours: first_of(input.actual_hours, current.actual_hours),
                    complexity: current.complexity,
                    reopen_count: current.reopen_count,
                    created_at: current.created_at,
                    updated_at: ticket.updated_at,
                })
            },
            Err(message) => {
                &&& updated_status(current.status, input.status) is None
                &&& message@ == "Invalid ticket status: "@ + input.status->0@
            },
        },
{
    let reading = read_clock();
    apply_ticket_update(current, input, reading.timestamp)
}

/// The sum of two amounts of hours, kept within what a decimal can hold.
pub open spec fn hours_sum(existing: Decimal, added: Decimal) -> Decimal {
    let total = existing.units + added.units;
    Decimal {
        units: if total > i32::MAX {
            i32::MAX
        } else if total < i32::MIN {
            i32::MIN
        } else {
            total as i32
        },
    }
}

/// The hours on a ticket after more are booked: the hours booked so far and
/// the new ones together; what was booked so far where no new ones are
/// given.
pub open spec fn hours_after(existing: Option<Decimal>, added: Option<Decimal>) -> Option<Decimal> {
    match (added, existing) {
        (Some(new), Some(old)) => Some(hours_sum(old, new)),
        (Some(new), None) => Some(new),
        (None, old) => old,
    }
}

/// Books hours on top of those booked so far.
pub fn add_hours(existing: Option<Decimal>, added: Option<Decimal>) -> (total: Option<Decimal>)
    ensures
        total == hours_after(existing, added),
{
    match (added, existing) {
        (Some(new), Some(old)) => {
            let sum: i64 = old.units as i64 + new.units as i64;
            let units: i32 = if sum > i32::MAX as i64 {
                i32::MAX
            } else if sum < i32::MIN as i64 {
                i32::MIN
            } else {
                sum as i32
            };
            Some(Decimal { units })
        },
        (Some(new), None) => Some(new),
        (None, old) => old,
    }
}

/// Why a ticket cannot be completed, in the words shown to the user: its due
/// date, or failing that the day of completion, is refused as a date, with
/// the words of the refusal. `None` where it can be completed.
pub open spec fn complete_ticket_fault(
    due_fault: Option<Seq<char>>,
    today_fault: Option<Seq<char>>,
) -> Option<Seq<char>> {
    match due_fault {
        Some(words) => Some("Invalid due date format: "@ + words),
        None => match today_fault {
            Some(words) => Some("Invalid date format: "@ + words),
            None => None,
        },
    }
}

/// The view of an optional text.
pub open spec fn words_of(text: Option<String>) -> Option<Seq<char>> {
    match text {
        Some(words) => Some(words@),
        None => None,
    }
}

/// Completes a ticket on the given day: the ticket becomes completed with
/// that day as its completion date, and the given hours are booked on top of
/// those booked so far. `due_fault` and `today_fault` say what was found
/// wrong with the due date and with the day as dates, if anything.
pub fn finish_ticket(
    current: Ticket,
    actual_hours: Option<Decimal>,
    today: String,
    now: String,
    due_fault: Option<String>,
    today_fault: Option<String>,
) -> (r: Result<Ticket, String>)
    ensures
        match r {
            Ok(ticket) => {
                &&& due_fault is None
                &&& today_fault is None
                &&& ticket == (Ticket {
                    completed_date: Some(today),
                    status: TicketStatus::Completed,
                    actual_hours: hours_after(current.actual_hours, actual_hours),
                    updated_at: now,
                    ..current
                })
            },
            Err(message) => complete_ticket_fault(words_of(due_fault), words_of(today_fault))
                == Some(message@),
        },
{
    match due_fault {
        Some(words) => {
            return Err(joined("Invalid due date format: ", words.as_str()));
        },
        None => {},
    }
    match today_fault {
        Some(words) => {
            return Err(joined("Invalid date format: ", words.as_str()));
        },
        None => {},
    }
    let total_hours = add_hours(current.actual_hours, actual_hours);
    Ok(
        Ticket {
            id: current.id,
            title: current.title,
            description: current.description,
            developer_id: current.developer_id,
            assigned_date: current.assigned_date,
            due_date: current.due_date,
            completed_date: Some(today),
            status: TicketStatus::Completed,
            estimated_hours: current.estimated_hours,
            actual_hours: total_hours,
            complexity: current.complexity,
            reopen_count: current.reopen_count,
            created_at: current.created_at,
            updated_at: now,
        },
    )
}

/// What the user is told when the day of completion is refused as a date
/// with these words.
pub open spec fn refused_day_words(words: Seq<char>) -> Seq<char> {
    "Invalid date format: "@ + words
}

/// The message says that the day of completion was refused as a date.
pub open spec fn refused_day(message: Seq<char>) -> bool {
    exists|words: Seq<char>| message == #[trigger] refused_day_words(words)
}

/// Completes a ticket today, booking the given hours on top of those booked
/// so far. A ticket whose due date is no date is refused.
pub fn complete_ticket(current: Ticket, actual_hours: Option<Decimal>) -> (r: Result<Ticket, String>)
    ensures
        match r {
            Ok(ticket) => {
                &&& date_fault_of(current.due_date@) is None
                &&& ticket.status == TicketStatus::Completed
                &&& ticket.completed_date is Some
                &&& date_fault_of(ticket.completed_date->0@) is None
                &&& ticket.actual_hours == hours_after(current.actual_hours, actual_hours)
                &&& ticket == (Ticket {
                    completed_date: ticket.completed_date,
                    status: ticket.status,
                    actual_hours: ticket.actual_hours,
                    updated_at: ticket.updated_at,
                    ..current
                })
            },
            Err(message) => match date_fault_of(current.due_date@) {
                Some(words) => message@ == "Invalid due date format: "@ + words,
                None => refused_day(message@),
            },
        },
{
    let reading = read_clock();
    let due_fault = date_fault(current.due_date.as_str());
    let today_fault = date_fault(reading.date.as_str());
    proof {
        if today_fault is Some {
            assert(refused_day_words(today_fault->0@) == "Invalid date format: "@
                + today_fault->0@);
        }
    }
    finish_ticket(current, actual_hours, reading.date, reading.timestamp, due_fault, today_fault)
}

/// Reopens a ticket at the given time: it becomes reopened, loses its
/// completion date, and counts one more reopening.
pub fn reopen_ticket_at(current: Ticket, now: String) -> (ticket: Ticket)
    requires
        current.reopen_count < i32::MAX,
    ensures
        ticket == (Ticket {
            completed_date: None,
            status: TicketStatus::Reopened,
            reopen_count: (current.reopen_count + 1) as i32,
            updated_at: now,
            ..current
        }),
{
    Ticket {
        id: current.id,
        title: current.title,
        description: current.description,
        developer_id: current.developer_id,
        assigned_date: current.assigned_date,
        due_date: current.due_date,
        completed_date: None,
        status: TicketStatus::Reopened,
        estimated_hours: current.estimated_hours,
        actual_hours: current.actual_hours,
        complexity: current.complexity,
        reopen_count: current.reopen_count + 1,
        created_at: current.created_at,
        updated_at: now,
    }
}

/// Reopens a ticket now.
pub fn reopen_ticket(current: Ticket) -> (ticket: Ticket)
    requires
        current.reopen_count < i32::MAX,
    ensures
        ticket == (Ticket {
            completed_date: None,
            status: TicketStatus::Reopened,
            reopen_count: (current.reopen_count + 1) as i32,
            updated_at: ticket.updated_at,
            ..current
        }),
{
    let reading = read_clock();
    reopen_ticket_at(current, reading.timestamp)
}

} // verus!
