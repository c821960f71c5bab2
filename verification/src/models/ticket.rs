//! Tickets, their status and their complexity.

use crate::decimal::Decimal;
use crate::text::{joined, lowercase_of, same_text, to_lowercase};
use vstd::prelude::*;

verus! {

/// Where a ticket stands in its life.
#[derive(Debug, Clone, Copy, PartialEq, Eq, Structural)]
pub enum TicketStatus {
    Assigned,
    InProgress,
    Review,
    Completed,
    Reopened,
}

impl TicketStatus {
    /// The name under which the status is stored and shown.
    pub open spec fn name(self) -> Seq<char> {
        match self {
            TicketStatus::Assigned => "assigned"@,
            TicketStatus::InProgress => "in_progress"@,
            TicketStatus::Review => "review"@,
            TicketStatus::Completed => "completed"@,
            TicketStatus::Reopened => "reopened"@,
        }
    }

    /// The status that a name stands for, if it is one of the names above.
    pub open spec fn named(name: Seq<char>) -> Option<TicketStatus> {
        if name == "assigned"@ {
            Some(TicketStatus::Assigned)
        } else if name == "in_progress"@ {
            Some(TicketStatus::InProgress)
        } else if name == "review"@ {
            Some(TicketStatus::Review)
        } else if name == "completed"@ {
            Some(TicketStatus::Completed)
        } else if name == "reopened"@ {
            Some(TicketStatus::Reopened)
        } else {
            None
        }
    }

    /// Every status is found again from its own name.
    pub proof fn lemma_name_round_trip(self)
        ensures
            TicketStatus::named(self.name()) == Some(self),
    {
        reveal_strlit("assigned");
        reveal_strlit("in_progress");
        reveal_strlit("review");
        reveal_strlit("completed");
        reveal_strlit("reopened");
        assert("assigned"@.len() == 8
            && "in_progress"@.len() == 11
            && "review"@.len() == 6
            && "completed"@.len() == 9
            && "reopened"@.len() == 8);
        assert("assigned"@[0] == 'a' && "reopened"@[0] == 'r');
    }

    /// The name as text.
    pub fn as_str(&self) -> (s: &'static str)
        ensures
            s@ == self.name(),
    {
        match self {
            TicketStatus::Assigned => "assigned",
            TicketStatus::InProgress => "in_progress",
            TicketStatus::Review => "review",
            TicketStatus::Completed => "completed",
            TicketStatus::Reopened => "reopened",
        }
    }

    /// Looks a status up by its exact name.
    pub fn from_name(name: &str) -> (r: Option<TicketStatus>)
        ensures
            r == TicketStatus::named(name@),
    {
        if same_text(name, "assigned") {
            Some(TicketStatus::Assigned)
        } else if same_text(name, "in_progress") {
            Some(TicketStatus::InProgress)
        } else if same_text(name, "review") {
            Some(TicketStatus::Review)
        } else if same_text(name, "completed") {
            Some(TicketStatus::Completed)
        } else if same_text(name, "reopened") {
            Some(TicketStatus::Reopened)
        } else {
            None
        }
    }

    /// Reads a status from text, whatever its letter case. Text that names
    /// none is handed back in the error message.
    pub fn from_str(s: &str) -> (r: Result<TicketStatus, String>)
        ensures
            match r {
                Ok(v) => TicketStatus::named(lowercase_of(s@)) == Some(v),
                Err(msg) => TicketStatus::named(lowercase_of(s@)) is None && msg@
                    == "Invalid ticket status: "@ + s@,
            },
    {
        let lower = to_lowercase(s);
        match TicketStatus::from_name(lower.as_str()) {
            Some(v) => Ok(v),
            None => Err(joined("Invalid ticket status: ", s)),
        }
    }
}

/// How demanding a ticket is.
#[derive(Debug, Clone, Copy, PartialEq, Eq, Structural)]
pub enum TicketComplexity {
    Low,
    Medium,
    High,
    Critical,
}

impl TicketComplexity {
    /// The name under which the complexity is stored and shown.
    pub open spec fn name(self) -> Seq<char> {
        match self {
            TicketComplexity::Low => "low"@,
            TicketComplexity::Medium => "medium"@,
            TicketComplexity::High => "high"@,
            TicketComplexity::Critical => "critical"@,
        }
    }

    /// The complexity that a name stands for, if it is one of the names above.
    pub open spec fn named(name: Seq<char>) -> Option<TicketComplexity> {
        if name == "low"@ {
            Some(TicketComplexity::Low)
        } else if name == "medium"@ {
            Some(TicketComplexity::Medium)
        } else if name == "high"@ {
            Some(TicketComplexity::High)
        } else if name == "critical"@ {
            Some(TicketComplexity::Critical)
        } else {
            None
        }
    }

    /// Every complexity is found again from its own name.
    pub proof fn lemma_name_round_trip(self)
        ensures
            TicketComplexity::named(self.name()) == Some(self),
    {
        reveal_strlit("low");
        reveal_strlit("medium");
        reveal_strlit("high");
        reveal_strlit("critical");
        assert("low"@.len() == 3 && "medium"@.len() == 6 && "high"@.len() == 4 && "critical"@.len() == 8);
    }

    /// The name as text.
    pub fn as_str(&self) -> (s: &'static str)
        ensures
            s@ == self.name(),
    {
        match self {
            TicketComplexity::Low => "low",
            TicketComplexity::Medium => "medium",
            TicketComplexity::High => "high",
            TicketComplexity::Critical => "critical",
        }
    }

    /// Looks a complexity up by its exact name.
    pub fn from_name(name: &str) -> (r: Option<TicketComplexity>)
        ensures
            r == TicketComplexity::named(name@),
    {
        if same_text(name, "low") {
            Some(TicketComplexity::Low)
        } else if same_text(name, "medium") {
            Some(TicketComplexity::Medium)
        } else if same_text(name, "high") {
            Some(TicketComplexity::High)
        } else if same_text(name, "critical") {
            Some(TicketComplexity::Critical)
        } else {
            None
        }
    }

    /// Reads a complexity from text, whatever its letter case. Text that names
    /// none is handed back in the error message.
    pub fn from_str(s: &str) -> (r: Result<TicketComplexity, String>)
        ensures
            match r {
                Ok(v) => TicketComplexity::named(lowercase_of(s@)) == Some(v),
                Err(msg) => TicketComplexity::named(lowercase_of(s@)) is None && msg@
                    == "Invalid ticket complexity: "@ + s@,
            },
    {
        let lower = to_lowercase(s);
        match TicketComplexity::from_name(lower.as_str()) {
            Some(v) => Ok(v),
            None => Err(joined("Invalid ticket complexity: ", s)),
        }
    }
}

/// A work item assigned to a developer. Dates are texts of the form
/// `YYYY-MM-DD`; hours are decimals.
#[derive(Debug, Clone)]
pub struct Ticket {
    pub id: String,
    pub title: String,
    pub description: Option<String>,
    pub developer_id: String,
    pub assigned_date: String,
    pub due_date: String,
    pub completed_date: Option<String>,
    pub status: TicketStatus,
    pub estimated_hours: Option<Decimal>,
    pub actual_hours: Option<Decimal>,
    pub complexity: TicketComplexity,
    pub reopen_count: i32,
    pub created_at: String,
    pub updated_at: String,
}

/// What a caller supplies to create a ticket.
#[derive(Debug, Clone)]
pub struct CreateTicketInput {
    pub title: String,
    pub description: Option<String>,
    pub developer_id: String,
    pub due_date: String,
    pub complexity: String,
    pub estimated_hours: Option<Decimal>,
}

/// The fields of a ticket that a caller wants changed; `None` leaves a field
/// as it is.
#[derive(Debug, Clone)]
pub struct UpdateTicketInput {
    pub id: String,
    pub title: Option<String>,
    pub description: Option<String>,
    pub developer_id: Option<String>,
    pub due_date: Option<String>,
    pub status: Option<String>,
    pub actual_hours: Option<Decimal>,
}

} // verus!
