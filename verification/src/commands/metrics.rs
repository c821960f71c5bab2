//! The figures of a month: which tickets and bugs count for a developer's
//! month, and what they add up to.

use crate::models::bug::{Bug, BugSeverity, BugType};
use crate::models::ticket::{Ticket, TicketComplexity, TicketStatus};
use crate::services::kpi_calculator::BugCounts;
use crate::text::{
    lemma_lex_order, lex_le, lex_lt, pad_int, same_text, text_le, text_lt, zero_padded,
};
use vstd::prelude::*;
use vstd::string::*;

verus! {

/// Length of the date at the start of a timestamp.
pub const DATE_LENGTH: usize = 10;

/// The first day of a month, written `YYYY-MM-01`.
pub open spec fn month_start(year: int, month: int) -> Seq<char> {
    zero_padded(year, 4) + "-"@ + zero_padded(month, 2) + "-01"@
}

/// The first day of the month after, which for December is the first of
/// January of the next year.
pub open spec fn month_end(year: int, month: int) -> Seq<char> {
    if month == 12 {
        zero_padded(year + 1, 4) + "-01-01"@
    } else {
        zero_padded(year, 4) + "-"@ + zero_padded(month + 1, 2) + "-01"@
    }
}

/// Whether a date lies in a month: from its first day on and before the
/// first day of the next month, in dictionary order.
pub open spec fn in_month(date: Seq<char>, year: int, month: int) -> bool {
    lex_le(month_start(year, month), date) && lex_lt(date, month_end(year, month))
}

/// The date at the start of a timestamp: its first ten characters, or all of
/// it where it is shorter.
pub open spec fn date_part(timestamp: Seq<char>) -> Seq<char> {
    if timestamp.len() <= DATE_LENGTH {
        timestamp
    } else {
        timestamp.subrange(0, DATE_LENGTH as int)
    }
}

/// How many items of a list meet a condition.
pub open spec fn count_where<T>(items: Seq<T>, condition: spec_fn(T) -> bool) -> nat
    decreases items.len(),
{
    if items.len() == 0 {
        0
    } else {
        count_where(items.drop_last(), condition) + if condition(items.last()) {
            1nat
        } else {
            0nat
        }
    }
}

/// The ticket is the developer's and counts for the month: it was assigned in
/// the month, or it is completed and was completed in the month.
pub open spec fn ticket_in_period(t: Ticket, developer_id: Seq<char>, year: int, month: int) -> bool {
    &&& t.developer_id@ == developer_id
    &&& (in_month(t.assigned_date@, year, month) || (t.status == TicketStatus::Completed
        && t.completed_date is Some && in_month(t.completed_date->0@, year, month)))
}

/// The ticket counts for the month and is completed, with a completion date.
pub open spec fn ticket_completed(t: Ticket, developer_id: Seq<char>, year: int, month: int) -> bool {
    &&& ticket_in_period(t, developer_id, year, month)
    &&& t.status == TicketStatus::Completed
    &&& t.completed_date is Some
}

/// The ticket was completed, and no later than its due date.
pub open spec fn ticket_on_time(t: Ticket, developer_id: Seq<char>, year: int, month: int) -> bool {
    &&& ticket_completed(t, developer_id, year, month)
    &&& lex_le(t.completed_date->0@, t.due_date@)
}

/// The ticket was completed before its due date.
pub open spec fn ticket_early(t: Ticket, developer_id: Seq<char>, year: int, month: int) -> bool {
    &&& ticket_completed(t, developer_id, year, month)
    &&& lex_lt(t.completed_date->0@, t.due_date@)
}

/// The ticket was completed after its due date: not on time.
pub open spec fn ticket_late(t: Ticket, developer_id: Seq<char>, year: int, month: int) -> bool {
    &&& ticket_completed(t, developer_id, year, month)
    &&& !lex_le(t.completed_date->0@, t.due_date@)
}

/// The ticket is critical and was completed after its due date.
pub open spec fn ticket_late_critical(
    t: Ticket,
    developer_id: Seq<char>,
    year: int,
    month: int,
) -> bool {
    &&& ticket_late(t, developer_id, year, month)
    &&& t.complexity == TicketComplexity::Critical
}

/// The ticket counts for the month and was reopened at least once, at
/// whatever time and whatever its status is now.
pub open spec fn ticket_reopened(t: Ticket, developer_id: Seq<char>, year: int, month: int) -> bool {
    &&& ticket_in_period(t, developer_id, year, month)
    &&& t.reopen_count > 0
}

/// How many tickets count for the developer's month.
pub open spec fn tickets_in_period(
    tickets: Seq<Ticket>,
    developer_id: Seq<char>,
    year: int,
    month: int,
) -> int {
    count_where(tickets, |t: Ticket| ticket_in_period(t, developer_id, year, month)) as int
}

/// How many of them are completed.
pub open spec fn tickets_completed(
    tickets: Seq<Ticket>,
    developer_id: Seq<char>,
    year: int,
    month: int,
) -> int {
    count_where(tickets, |t: Ticket| ticket_completed(t, developer_id, year, month)) as int
}

/// How many were completed on time.
pub open spec fn tickets_on_time(
    tickets: Seq<Ticket>,
    developer_id: Seq<char>,
    year: int,
    month: int,
) -> int {
    count_where(tickets, |t: Ticket| ticket_on_time(t, developer_id, year, month)) as int
}

/// How many were completed late.
pub open spec fn tickets_late(
    tickets: Seq<Ticket>,
    developer_id: Seq<char>,
    year: int,
    month: int,
) -> int {
    count_where(tickets, |t: Ticket| ticket_late(t, developer_id, year, month)) as int
}

/// How many were completed early.
pub open spec fn tickets_early(
    tickets: Seq<Ticket>,
    developer_id: Seq<char>,
    year: int,
    month: int,
) -> int {
    count_where(tickets, |t: Ticket| ticket_early(t, developer_id, year, month)) as int
}

/// How many critical ones were completed late.
pub open spec fn tickets_late_critical(
    tickets: Seq<Ticket>,
    developer_id: Seq<char>,
    year: int,
    month: int,
) -> int {
    count_where(tickets, |t: Ticket| ticket_late_critical(t, developer_id, year, month)) as int
}

/// How many of them were reopened at least once. A ticket reopened several
/// times counts once.
pub open spec fn tickets_reopened(
    tickets: Seq<Ticket>,
    developer_id: Seq<char>,
    year: int,
    month: int,
) -> int {
    count_where(tickets, |t: Ticket| ticket_reopened(t, developer_id, year, month)) as int
}

/// The ticket figures of one developer for one month.
#[derive(Debug, Clone, Copy, PartialEq, Eq, Structural)]
pub struct TicketMetrics {
    pub total_tickets: i32,
    pub completed_tickets: i32,
    pub on_time_tickets: i32,
    pub late_tickets: i32,
    pub early_deliveries: i32,
    pub late_critical_tickets: i32,
    pub reopened_tickets: i32,
    /// Days of delivery, summed: one day for each completed ticket.
    pub total_delivery_days: i32,
}

impl TicketMetrics {
    /// The figures are those of `tickets` for the developer and the month.
    pub open spec fn describes(
        self,
        tickets: Seq<Ticket>,
        developer_id: Seq<char>,
        year: int,
        month: int,
    ) -> bool {
        &&& self.total_tickets == tickets_in_period(tickets, developer_id, year, month)
        &&& self.completed_tickets == tickets_completed(tickets, developer_id, year, month)
        &&& self.on_time_tickets == tickets_on_time(tickets, developer_id, year, month)
        &&& self.late_tickets == tickets_late(tickets, developer_id, year, month)
        &&& self.early_deliveries == tickets_early(tickets, developer_id, year, month)
        &&& self.late_critical_tickets == tickets_late_critical(
            tickets,
            developer_id,
            year,
            month,
        )
        &&& self.reopened_tickets == tickets_reopened(tickets, developer_id, year, month)
        &&& self.total_delivery_days == self.completed_tickets
    }

    /// What holds of the figures of any list of tickets.
    pub open spec fn consistent(self) -> bool {
        &&& 0 <= self.late_critical_tickets <= self.late_tickets
        &&& 0 <= self.early_deliveries <= self.on_time_tickets
        &&& self.on_time_tickets + self.late_tickets == self.completed_tickets
        &&& self.completed_tickets <= self.total_tickets
        &&& 0 <= self.reopened_tickets <= self.total_tickets
        &&& self.total_delivery_days == self.completed_tickets
    }
}

/// Writes the first day of a month.
pub fn month_start_text(year: i32, month: i32) -> (r: String)
    ensures
        r@ == month_start(year as int, month as int),
{
    let mut out = pad_int(year as i64, 4);
    out.append("-");
    out.append(pad_int(month as i64, 2).as_str());
    out.append("-01");
    out
}

/// Writes the first day of the month after.
pub fn month_end_text(year: i32, month: i32) -> (r: String)
    ensures
        r@ == month_end(year as int, month as int),
{
    if month == 12 {
        let mut out = pad_int(year as i64 + 1, 4);
        out.append("-01-01");
        out
    } else {
        let mut out = pad_int(year as i64, 4);
        out.append("-");
        out.append(pad_int(month as i64 + 1, 2).as_str());
        out.append("-01");
        out
    }
}

/// Whether `date` lies between `start` and `end`, the first included and the
/// second not.
fn date_between(date: &str, start: &str, end: &str) -> (r: bool)
    ensures
        r == (lex_le(start@, date@) && lex_lt(date@, end@)),
{
    text_le(start, date) && text_lt(date, end)
}

/// Adds up the tickets of a developer for a month.
pub fn aggregate_ticket_metrics(
    tickets: &Vec<Ticket>,
    developer_id: &str,
    month: i32,
    year: i32,
) -> (metrics: TicketMetrics)
    requires
        tickets.len() <= i32::MAX,
    ensures
        metrics.describes(tickets@, developer_id@, year as int, month as int),
        metrics.consistent(),
        metrics.total_tickets <= tickets.len(),
{
    let start = month_start_text(year, month);
    let end = month_end_text(year, month);
    let mut metrics = TicketMetrics {
        total_tickets: 0,
        completed_tickets: 0,
        on_time_tickets: 0,
        late_tickets: 0,
        early_deliveries: 0,
        late_critical_tickets: 0,
        reopened_tickets: 0,
        total_delivery_days: 0,
    };
    let ghost dev = developer_id@;
    let ghost y = year as int;
    let ghost m = month as int;
    let mut i: usize = 0;
    while i < tickets.len()
        invariant
            i <= tickets.len() <= i32::MAX,
            dev == developer_id@,
            y == year as int,
            m == month as int,
            start@ == month_start(y, m),
            end@ == month_end(y, m),
            metrics.describes(tickets@.take(i as int), dev, y, m),
            metrics.consistent(),
            metrics.total_tickets <= i,
        decreases tickets.len() - i,
    {
        let t = &tickets[i];
        assert(tickets@.take(i + 1).drop_last() =~= tickets@.take(i as int));
        assert(tickets@.take(i + 1).last() == *t);
        if same_text(t.developer_id.as_str(), developer_id) {
            let completed_date: Option<&String> = match &t.completed_date {
                Some(done) => if t.status == TicketStatus::Completed {
                    Some(done)
                } else {
                    None
                },
                None => None,
            };
            let completed_in = match completed_date {
                Some(done) => date_between(done.as_str(), start.as_str(), end.as_str()),
                None => false,
            };
            if completed_in || date_between(t.assigned_date.as_str(), start.as_str(), end.as_str()) {
                metrics.total_tickets += 1;
                if t.reopen_count > 0 {
                    metrics.reopened_tickets += 1;
                }
                if let Some(done) = completed_date {
                    metrics.completed_tickets += 1;
                    metrics.total_delivery_days += 1;
                    if text_le(done.as_str(), t.due_date.as_str()) {
                        metrics.on_time_tickets += 1;
                        if text_lt(done.as_str(), t.due_date.as_str()) {
                            metrics.early_deliveries += 1;
                        }
                    } else {
                        metrics.late_tickets += 1;
                        if t.complexity == TicketComplexity::Critical {
                            metrics.late_critical_tickets += 1;
                        }
                    }
                }
            }
        }
        i += 1;
    }
    assert(tickets@.take(tickets.len() as int) =~= tickets@);
    metrics
}

/// The bug is charged to the developer and was created in the month.
pub open spec fn bug_in_period(b: Bug, developer_id: Seq<char>, year: int, month: int) -> bool {
    &&& b.developer_id@ == developer_id
    &&& in_month(date_part(b.created_at@), year, month)
}

/// The bug counts for the month and is of the given type.
pub open spec fn bug_of_type(
    b: Bug,
    bug_type: BugType,
    developer_id: Seq<char>,
    year: int,
    month: int,
) -> bool {
    &&& bug_in_period(b, developer_id, year, month)
    &&& b.bug_type == bug_type
}

/// The bug counts for the month and is neither the developer's own error nor
/// conceptual.
pub open spec fn bug_of_other_type(b: Bug, developer_id: Seq<char>, year: int, month: int) -> bool {
    &&& bug_in_period(b, developer_id, year, month)
    &&& b.bug_type != BugType::DeveloperError
    &&& b.bug_type != BugType::Conceptual
}

/// The bug counts for the month, is the developer's own error and has the
/// given severity.
pub open spec fn bug_error_of_severity(
    b: Bug,
    severity: BugSeverity,
    developer_id: Seq<char>,
    year: int,
    month: int,
) -> bool {
    &&& bug_of_type(b, BugType::DeveloperError, developer_id, year, month)
    &&& b.severity == severity
}

/// How many bugs count for the developer's month.
pub open spec fn bugs_in_period(bugs: Seq<Bug>, developer_id: Seq<char>, year: int, month: int) -> int {
    count_where(bugs, |b: Bug| bug_in_period(b, developer_id, year, month)) as int
}

/// How many of them are of the given type.
pub open spec fn bugs_of_type(
    bugs: Seq<Bug>,
    bug_type: BugType,
    developer_id: Seq<char>,
    year: int,
    month: int,
) -> int {
    count_where(bugs, |b: Bug| bug_of_type(b, bug_type, developer_id, year, month)) as int
}

/// How many are neither the developer's own error nor conceptual.
pub open spec fn bugs_of_other_type(
    bugs: Seq<Bug>,
    developer_id: Seq<char>,
    year: int,
    month: int,
) -> int {
    count_where(bugs, |b: Bug| bug_of_other_type(b, developer_id, year, month)) as int
}

/// How many are the developer's own error and of the given severity.
pub open spec fn bugs_error_of_severity(
    bugs: Seq<Bug>,
    severity: BugSeverity,
    developer_id: Seq<char>,
    year: int,
    month: int,
) -> int {
    count_where(bugs, |b: Bug| bug_error_of_severity(b, severity, developer_id, year, month)) as int
}

/// The bug figures of one developer for one month.
#[derive(Debug, Clone, Copy, PartialEq, Eq, Structural)]
pub struct BugMetrics {
    pub total_bugs: i32,
    pub developer_error_bugs: i32,
    pub conceptual_bugs: i32,
    pub other_bugs: i32,
    pub dev_error_by_severity: BugCounts,
}

impl BugMetrics {
    /// The figures are those of `bugs` for the developer and the month.
    pub open spec fn describes(
        self,
        bugs: Seq<Bug>,
        developer_id: Seq<char>,
        year: int,
        month: int,
    ) -> bool {
        &&& self.total_bugs == bugs_in_period(bugs, developer_id, year, month)
        &&& self.developer_error_bugs == bugs_of_type(
            bugs,
            BugType::DeveloperError,
            developer_id,
            year,
            month,
        )
        &&& self.conceptual_bugs == bugs_of_type(
            bugs,
            BugType::Conceptual,
            developer_id,
            year,
            month,
        )
        &&& self.other_bugs == bugs_of_other_type(bugs, developer_id, year, month)
        &&& self.dev_error_by_severity.critical == bugs_error_of_severity(
            bugs,
            BugSeverity::Critical,
            developer_id,
            year,
            month,
        )
        &&& self.dev_error_by_severity.high == bugs_error_of_severity(
            bugs,
            BugSeverity::High,
            developer_id,
            year,
            month,
        )
        &&& self.dev_error_by_severity.medium == bugs_error_of_severity(
            bugs,
            BugSeverity::Medium,
            developer_id,
            year,
            month,
        )
        &&& self.dev_error_by_severity.low == bugs_error_of_severity(
            bugs,
            BugSeverity::Low,
            developer_id,
            year,
            month,
        )
    }

    /// What holds of the figures of any list of bugs.
    pub open spec fn consistent(self) -> bool {
        &&& 0 <= self.developer_error_bugs
        &&& 0 <= self.conceptual_bugs
        &&& 0 <= self.other_bugs
        &&& self.developer_error_bugs + self.conceptual_bugs + self.other_bugs == self.total_bugs
        &&& 0 <= self.dev_error_by_severity.critical
        &&& 0 <= self.dev_error_by_severity.high
        &&& 0 <= self.dev_error_by_severity.medium
        &&& 0 <= self.dev_error_by_severity.low
        &&& self.dev_error_by_severity.critical + self.dev_error_by_severity.high
            + self.dev_error_by_severity.medium + self.dev_error_by_severity.low
            == self.developer_error_bugs
    }
}

/// The date at the start of a timestamp.
pub fn date_of(timestamp: &str) -> (date: &str)
    ensures
        date@ == date_part(timestamp@),
{
    if timestamp.unicode_len() <= DATE_LENGTH {
        timestamp
    } else {
        timestamp.substring_char(0, DATE_LENGTH)
    }
}

/// Adds up the bugs charged to a developer for a month.
pub fn aggregate_bug_metrics(bugs: &Vec<Bug>, developer_id: &str, month: i32, year: i32) -> (metrics:
    BugMetrics)
    requires
        bugs.len() <= i32::MAX,
    ensures
        metrics.describes(bugs@, developer_id@, year as int, month as int),
        metrics.consistent(),
        metrics.total_bugs <= bugs.len(),
{
    let start = month_start_text(year, month);
    let end = month_end_text(year, month);
    let mut metrics = BugMetrics {
        total_bugs: 0,
        developer_error_bugs: 0,
        conceptual_bugs: 0,
        other_bugs: 0,
        dev_error_by_severity: BugCounts { critical: 0, high: 0, medium: 0, low: 0 },
    };
    let ghost dev = developer_id@;
    let ghost y = year as int;
    let ghost m = month as int;
    let mut i: usize = 0;
    while i < bugs.len()
        invariant
            i <= bugs.len() <= i32::MAX,
            dev == developer_id@,
            y == year as int,
            m == month as int,
            start@ == month_start(y, m),
            end@ == month_end(y, m),
            metrics.describes(bugs@.take(i as int), dev, y, m),
            metrics.consistent(),
            metrics.total_bugs <= i,
        decreases bugs.len() - i,
    {
        let b = &bugs[i];
        assert(bugs@.take(i + 1).drop_last() =~= bugs@.take(i as int));
        assert(bugs@.take(i + 1).last() == *b);
        if same_text(b.developer_id.as_str(), developer_id) && date_between(
            date_of(b.created_at.as_str()),
            start.as_str(),
            end.as_str(),
        ) {
            metrics.total_bugs += 1;
            match b.bug_type {
                BugType::DeveloperError => {
                    metrics.developer_error_bugs += 1;
                    match b.severity {
                        BugSeverity::Critical => {
                            metrics.dev_error_by_severity.critical += 1;
                        },
                        BugSeverity::High => {
                            metrics.dev_error_by_severity.high += 1;
                        },
                        BugSeverity::Medium => {
                            metrics.dev_error_by_severity.medium += 1;
                        },
                        BugSeverity::Low => {
                            metrics.dev_error_by_severity.low += 1;
                        },
                    }
                },
                BugType::Conceptual => {
                    metrics.conceptual_bugs += 1;
                },
                _ => {
                    metrics.other_bugs += 1;
                },
            }
        }
        i += 1;
    }
    assert(bugs@.take(bugs.len() as int) =~= bugs@);
    metrics
}

/// How the ticket counts of a month hang together, whatever the tickets.
pub proof fn lemma_ticket_counts(tickets: Seq<Ticket>, developer_id: Seq<char>, year: int, month: int)
    ensures
        0 <= tickets_late_critical(tickets, developer_id, year, month) <= tickets_late(
            tickets,
            developer_id,
            year,
            month,
        ),
        0 <= tickets_early(tickets, developer_id, year, month) <= tickets_on_time(
            tickets,
            developer_id,
            year,
            month,
        ),
        tickets_on_time(tickets, developer_id, year, month) + tickets_late(
            tickets,
            developer_id,
            year,
            month,
        ) == tickets_completed(tickets, developer_id, year, month),
        tickets_completed(tickets, developer_id, year, month) <= tickets_in_period(
            tickets,
            developer_id,
            year,
            month,
        ) <= tickets.len(),
        0 <= tickets_reopened(tickets, developer_id, year, month) <= tickets_in_period(
            tickets,
            developer_id,
            year,
            month,
        ),
    decreases tickets.len(),
{
    if tickets.len() > 0 {
        lemma_ticket_counts(tickets.drop_last(), developer_id, year, month);
    }
}

/// A completed ticket is late exactly where its completion date comes after
/// its due date in dictionary order.
pub proof fn lemma_late_is_after_due(t: Ticket, developer_id: Seq<char>, year: int, month: int)
    requires
        ticket_completed(t, developer_id, year, month),
    ensures
        ticket_late(t, developer_id, year, month) <==> lex_lt(t.due_date@, t.completed_date->0@),
        ticket_on_time(t, developer_id, year, month) != ticket_late(t, developer_id, year, month),
        ticket_early(t, developer_id, year, month) ==> ticket_on_time(
            t,
            developer_id,
            year,
            month,
        ),
{
    lemma_lex_order(t.completed_date->0@, t.due_date@);
}

} // verus!
