//! Developers and their roles.

use crate::text::{joined, lowercase_of, same_text, to_lowercase};
use vstd::prelude::*;

verus! {

/// A developer's level of seniority.
#[derive(Debug, Clone, Copy, PartialEq, Eq, Structural)]
pub enum DeveloperRole {
    Junior,
    Mid,
    Senior,
    Lead,
}

impl DeveloperRole {
    /// The name under which the role is stored and shown.
    pub open spec fn name(self) -> Seq<char> {
        match self {
            DeveloperRole::Junior => "junior"@,
            DeveloperRole::Mid => "mid"@,
            DeveloperRole::Senior => "senior"@,
            DeveloperRole::Lead => "lead"@,
        }
    }

    /// The role that a name stands for, if it is one of the names above.
    pub open spec fn named(name: Seq<char>) -> Option<DeveloperRole> {
        if name == "junior"@ {
            Some(DeveloperRole::Junior)
        } else if name == "mid"@ {
            Some(DeveloperRole::Mid)
        } else if name == "senior"@ {
            Some(DeveloperRole::Senior)
        } else if name == "lead"@ {
            Some(DeveloperRole::Lead)
        } else {
            None
        }
    }

    /// Every role is found again from its own name.
    pub proof fn lemma_name_round_trip(self)
        ensures
            DeveloperRole::named(self.name()) == Some(self),
    {
        reveal_strlit("junior");
        reveal_strlit("mid");
        reveal_strlit("senior");
        reveal_strlit("lead");
        assert("junior"@.len() == 6 && "mid"@.len() == 3 && "senior"@.len() == 6 && "lead"@.len() == 4);
        assert("junior"@[0] == 'j' && "senior"@[0] == 's');
    }

    /// The name as text.
    pub fn as_str(&self) -> (s: &'static str)
        ensures
            s@ == self.name(),
    {
        match self {
            DeveloperRole::Junior => "junior",
            DeveloperRole::Mid => "mid",
            DeveloperRole::Senior => "senior",
            DeveloperRole::Lead => "lead",
        }
    }

    /// Looks a role up by its exact name.
    pub fn from_name(name: &str) -> (r: Option<DeveloperRole>)
        ensures
            r == DeveloperRole::named(name@),
    {
        if same_text(name, "junior") {
            Some(DeveloperRole::Junior)
        } else if same_text(name, "mid") {
            Some(DeveloperRole::Mid)
        } else if same_text(name, "senior") {
            Some(DeveloperRole::Senior)
        } else if same_text(name, "lead") {
            Some(DeveloperRole::Lead)
        } else {
            None
        }
    }

    /// Reads a role from text, whatever its letter case. Text that names
    /// none is handed back in the error message.
    pub fn from_str(s: &str) -> (r: Result<DeveloperRole, String>)
        ensures
            match r {
                Ok(v) => DeveloperRole::named(lowercase_of(s@)) == Some(v),
                Err(msg) => DeveloperRole::named(lowercase_of(s@)) is None && msg@
                    == "Invalid developer role: "@ + s@,
            },
    {
        let lower = to_lowercase(s);
        match DeveloperRole::from_name(lower.as_str()) {
            Some(v) => Ok(v),
            None => Err(joined("Invalid developer role: ", s)),
        }
    }
}

/// A member of the team.
#[derive(Debug, Clone)]
pub struct Developer {
    pub id: String,
    pub name: String,
    pub email: String,
    pub role: DeveloperRole,
    pub team: Option<String>,
    pub start_date: String,
    pub is_active: bool,
    pub created_at: String,
    pub updated_at: String,
}

/// What a caller supplies to add a developer.
#[derive(Debug, Clone)]
pub struct CreateDeveloperInput {
    pub name: String,
    pub email: String,
    pub role: String,
    pub team: Option<String>,
    pub start_date: String,
}

/// The fields of a developer that a caller wants changed; `None` leaves a
/// field as it is.
#[derive(Debug, Clone)]
pub struct UpdateDeveloperInput {
    pub id: String,
    pub name: Option<String>,
    pub email: Option<String>,
    pub role: Option<String>,
    pub team: Option<String>,
    pub is_active: Option<bool>,
}

} // verus!
