//! Bugs and how they are classified.

use crate::text::{joined, lowercase_of, same_text, to_lowercase};
use vstd::prelude::*;

verus! {

/// How badly a bug hurts.
#[derive(Debug, Clone, Copy, PartialEq, Eq, Structural)]
pub enum BugSeverity {
    Low,
    Medium,
    High,
    Critical,
}

impl BugSeverity {
    /// The name under which the severity is stored and shown.
    pub open spec fn name(self) -> Seq<char> {
        match self {
            BugSeverity::Low => "low"@,
            BugSeverity::Medium => "medium"@,
            BugSeverity::High => "high"@,
            BugSeverity::Critical => "critical"@,
        }
    }

    /// The severity that a name stands for, if it is one of the names above.
    pub open spec fn named(name: Seq<char>) -> Option<BugSeverity> {
        if name == "low"@ {
            Some(BugSeverity::Low)
        } else if name == "medium"@ {
            Some(BugSeverity::Medium)
        } else if name == "high"@ {
            Some(BugSeverity::High)
        } else if name == "critical"@ {
            Some(BugSeverity::Critical)
        } else {
            None
        }
    }

    /// Every severity is found again from its own name.
    pub proof fn lemma_name_round_trip(self)
        ensures
            BugSeverity::named(self.name()) == Some(self),
    {
        reveal_strlit("low");
        reveal_strlit("medium");
        reveal_strlit("high");
        reveal_strlit("critical");
        assert("low"@.len() == 3 && "medium"@.len() == 6 && "high"@.len() == 4 && "critical"@.len() == 8);
    }

    /// The name as text.
    pub fn as_str(&self) -> (s: &'static str)
        ensures
            s@ == self.name(),
    {
        match self {
            BugSeverity::Low => "low",
            BugSeverity::Medium => "medium",
            BugSeverity::High => "high",
            BugSeverity::Critical => "critical",
        }
    }

    /// Looks a severity up by its exact name.
    pub fn from_name(name: &str) -> (r: Option<BugSeverity>)
        ensures
            r == BugSeverity::named(name@),
    {
        if same_text(name, "low") {
            Some(BugSeverity::Low)
        } else if same_text(name, "medium") {
            Some(BugSeverity::Medium)
        } else if same_text(name, "high") {
            Some(BugSeverity::High)
        } else if same_text(name, "critical") {
            Some(BugSeverity::Critical)
        } else {
            None
        }
    }

    /// Reads a severity from text, whatever its letter case. Text that names
    /// none is handed back in the error message.
    pub fn from_str(s: &str) -> (r: Result<BugSeverity, String>)
        ensures
            match r {
                Ok(v) => BugSeverity::named(lowercase_of(s@)) == Some(v),
                Err(msg) => BugSeverity::named(lowercase_of(s@)) is None && msg@
                    == "Invalid bug severity: "@ + s@,
            },
    {
        let lower = to_lowercase(s);
        match BugSeverity::from_name(lower.as_str()) {
            Some(v) => Ok(v),
            None => Err(joined("Invalid bug severity: ", s)),
        }
    }
}

/// Where a bug came from. Only a developer's own errors and conceptual
/// bugs count against the developer.
#[derive(Debug, Clone, Copy, PartialEq, Eq, Structural)]
pub enum BugType {
    DeveloperError,
    Conceptual,
    RequirementChange,
    Environment,
    ThirdParty,
}

impl BugType {
    /// The name under which the bug type is stored and shown.
    pub open spec fn name(self) -> Seq<char> {
        match self {
            BugType::DeveloperError => "developer_error"@,
            BugType::Conceptual => "conceptual"@,
            BugType::RequirementChange => "requirement_change"@,
            BugType::Environment => "environment"@,
            BugType::ThirdParty => "third_party"@,
        }
    }

    /// The bug type that a name stands for, if it is one of the names above.
    pub open spec fn named(name: Seq<char>) -> Option<BugType> {
        if name == "developer_error"@ {
            Some(BugType::DeveloperError)
        } else if name == "conceptual"@ {
            Some(BugType::Conceptual)
        } else if name == "requirement_change"@ {
            Some(BugType::RequirementChange)
        } else if name == "environment"@ {
            Some(BugType::Environment)
        } else if name == "third_party"@ {
            Some(BugType::ThirdParty)
        } else {
            None
        }
    }

    /// Every bug type is found again from its own name.
    pub proof fn lemma_name_round_trip(self)
        ensures
            BugType::named(self.name()) == Some(self),
    {
        reveal_strlit("developer_error");
        reveal_strlit("conceptual");
        reveal_strlit("requirement_change");
        reveal_strlit("environment");
        reveal_strlit("third_party");
        assert("developer_error"@.len() == 15
            && "conceptual"@.len() == 10
            && "requirement_change"@.len() == 18
            && "environment"@.len() == 11
            && "third_party"@.len() == 11);
        assert("environment"@[0] == 'e' && "third_party"@[0] == 't');
    }

    /// The name as text.
    pub fn as_str(&self) -> (s: &'static str)
        ensures
            s@ == self.name(),
    {
        match self {
            BugType::DeveloperError => "developer_error",
            BugType::Conceptual => "conceptual",
            BugType::RequirementChange => "requirement_change",
            BugType::Environment => "environment",
            BugType::ThirdParty => "third_party",
        }
    }

    /// Looks a bug type up by its exact name.
    pub fn from_name(name: &str) -> (r: Option<BugType>)
        ensures
            r == BugType::named(name@),
    {
        if same_text(name, "developer_error") {
            Some(BugType::DeveloperError)
        } else if same_text(name, "conceptual") {
            Some(BugType::Conceptual)
        } else if same_text(name, "requirement_change") {
            Some(BugType::RequirementChange)
        } else if same_text(name, "environment") {
            Some(BugType::Environment)
        } else if same_text(name, "third_party") {
            Some(BugType::ThirdParty)
        } else {
            None
        }
    }

    /// Reads a bug type from text, whatever its letter case. Text that names
    /// none is handed back in the error message.
    pub fn from_str(s: &str) -> (r: Result<BugType, String>)
        ensures
            match r {
                Ok(v) => BugType::named(lowercase_of(s@)) == Some(v),
                Err(msg) => BugType::named(lowercase_of(s@)) is None && msg@
                    == "Invalid bug type: "@ + s@,
            },
    {
        let lower = to_lowercase(s);
        match BugType::from_name(lower.as_str()) {
            Some(v) => Ok(v),
            None => Err(joined("Invalid bug type: ", s)),
        }
    }
}

/// A bug, charged to the developer who introduced it.
#[derive(Debug, Clone)]
pub struct Bug {
    pub id: String,
    pub ticket_id: String,
    pub developer_id: String,
    pub reported_by: Option<String>,
    pub title: String,
    pub description: Option<String>,
    pub severity: BugSeverity,
    pub bug_type: BugType,
    pub is_resolved: bool,
    pub resolved_date: Option<String>,
    /// The developer who resolved the bug, where known.
    pub resolved_by_developer_id: Option<String>,
    /// The ticket under which the bug was fixed, where there is one.
    pub fix_ticket_id: Option<String>,
    pub created_at: String,
    pub updated_at: String,
}

/// What a caller supplies to record a bug.
#[derive(Debug, Clone)]
pub struct CreateBugInput {
    pub ticket_id: String,
    pub title: String,
    pub description: Option<String>,
    pub severity: String,
    pub bug_type: String,
    pub reported_by: Option<String>,
}

/// The fields of a bug that a caller wants changed; `None` leaves a field as
/// it is.
#[derive(Debug, Clone)]
pub struct UpdateBugInput {
    pub id: String,
    pub title: Option<String>,
    pub description: Option<String>,
    pub severity: Option<String>,
    pub bug_type: Option<String>,
    pub is_resolved: Option<bool>,
    pub resolved_by_developer_id: Option<String>,
    pub fix_ticket_id: Option<String>,
}

} // verus!
