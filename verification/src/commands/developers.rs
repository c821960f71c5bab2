//! Rules for adding and changing developers.

use crate::models::developer::{
    CreateDeveloperInput, Developer, DeveloperRole, UpdateDeveloperInput,
};
use crate::system::{new_identifier, read_clock, IDENTIFIER_LENGTH};
use crate::text::{contains, first_of, first_some, holds, lowercase_of};
use vstd::prelude::*;
use vstd::string::*;

verus! {

/// A developer as the store holds it: the role is still text.
#[derive(Debug, Clone)]
pub struct DeveloperRow {
    pub id: String,
    pub name: String,
    pub email: String,
    pub role: String,
    pub team: Option<String>,
    pub start_date: String,
    pub is_active: bool,
    pub created_at: String,
    pub updated_at: String,
}

/// The role that a stored text stands for; a text that names none counts as
/// junior.
pub open spec fn stored_role(text: Seq<char>) -> DeveloperRole {
    match DeveloperRole::named(lowercase_of(text)) {
        Some(role) => role,
        None => DeveloperRole::Junior,
    }
}

/// Reads a developer from a stored row. A role that cannot be read falls
/// back to junior.
pub fn parse_developer_row(row: DeveloperRow) -> (developer: Developer)
    ensures
        developer == (Developer {
            id: row.id,
            name: row.name,
            email: row.email,
            role: stored_role(row.role@),
            team: row.team,
            start_date: row.start_date,
            is_active: row.is_active,
            created_at: row.created_at,
            updated_at: row.updated_at,
        }),
{
    let role = match DeveloperRole::from_str(row.role.as_str()) {
        Ok(role) => role,
        Err(_) => DeveloperRole::Junior,
    };
    Developer {
        id: row.id,
        name: row.name,
        email: row.email,
        role,
        team: row.team,
        start_date: row.start_date,
        is_active: row.is_active,
        created_at: row.created_at,
        updated_at: row.updated_at,
    }
}

/// Adds a developer under the given identifier at the given time. The
/// developer starts active. An input whose role names none is refused.
pub fn new_developer(id: String, now: String, input: CreateDeveloperInput) -> (r: Result<
    Developer,
    String,
>)
    ensures
        match r {
            Ok(developer) => {
                &&& DeveloperRole::named(lowercase_of(input.role@)) == Some(developer.role)
                &&& developer == (Developer {
                    id,
                    name: input.name,
                    email: input.email,
                    role: developer.role,
                    team: input.team,
                    start_date: input.start_date,
                    is_active: true,
                    created_at: now,
                    updated_at: now,
                })
            },
            Err(message) => {
                &&& DeveloperRole::named(lowercase_of(input.role@)) is None
                &&& message@ == "Invalid developer role: "@ + input.role@
            },
        },
{
    let role = match DeveloperRole::from_str(input.role.as_str()) {
        Ok(role) => role,
        Err(message) => {
            return Err(message);
        },
    };
    Ok(
        Developer {
            id,
            name: input.name,
            email: input.email,
            role,
            team: input.team,
            start_date: input.start_date,
            is_active: true,
            created_at: now.clone(),
            updated_at: now,
        },
    )
}

/// Adds a developer now, under a new identifier.
pub fn create_developer(input: CreateDeveloperInput) -> (r: Result<Developer, String>)
    ensures
        match r {
            Ok(developer) => {
                &&& DeveloperRole::named(lowercase_of(input.role@)) == Some(developer.role)
                &&& developer.id@.len() == IDENTIFIER_LENGTH
                &&& developer == (Developer {
                    id: developer.id,
                    name: input.name,
                    email: input.email,
                    role: developer.role,
                    team: input.team,
                    start_date: input.start_date,
                    is_active: true,
                    created_at: developer.created_at,
                    updated_at: developer.created_at,
                })
            },
            Err(message) => {
                &&& DeveloperRole::named(lowercase_of(input.role@)) is None
                &&& message@ == "Invalid developer role: "@ + input.role@
            },
        },
{
    let reading = read_clock();
    new_developer(new_identifier(), reading.timestamp, input)
}

/// What the user is told when the store refuses a new developer, from the
/// words of the store's error: that the address is taken where the error
/// speaks of a unique constraint; that fields are missing where it speaks of
/// a constraint against empty values; and a general sentence otherwise.
pub open spec fn insert_failure_words(error: Seq<char>) -> Seq<char> {
    if holds(error, "UNIQUE constraint"@) || holds(error, "unique constraint"@) {
        "A developer with this email already exists. Please use a different email address."@
    } else if holds(error, "NOT NULL constraint"@) || holds(error, "NOT NULL"@) {
        "Required fields are missing. Please fill in all required information."@
    } else {
        "Failed to create developer. Please check your input and try again."@
    }
}

/// Puts into words for the user why the store refused a new developer.
pub fn describe_insert_failure(error: &str) -> (words: String)
    ensures
        words@ == insert_failure_words(error@),
{
    if contains(error, "UNIQUE constraint") || contains(error, "unique constraint") {
        String::from_str(
            "A developer with this email already exists. Please use a different email address.",
        )
    } else if contains(error, "NOT NULL constraint") || contains(error, "NOT NULL") {
        String::from_str("Required fields are missing. Please fill in all required information.")
    } else {
        String::from_str("Failed to create developer. Please check your input and try again.")
    }
}

/// Changes a developer as an input asks, at the given time: each field that
/// the input gives replaces the current one. An input with a role that names
/// none is refused.
pub fn apply_developer_update(current: Developer, input: UpdateDeveloperInput, now: String) -> (r:
    Result<Developer, String>)
    ensures
        match r {
            Ok(developer) => {
                &&& match input.role {
                    Some(text) => DeveloperRole::named(lowercase_of(text@)) == Some(developer.role),
                    None => developer.role == current.role,
                }
                &&& developer == (Developer {
                    id: input.id,
                    name: match input.name {
                        Some(name) => name,
                        None => current.name,
                    },
                    email: match input.email {
                        Some(email) => email,
                        None => current.email,
                    },
                    role: developer.role,
                    team: first_of(input.team, current.team),
                    start_date: current.start_date,
                    is_active: match input.is_active {
                        Some(wanted) => wanted,
                        None => current.is_active,
                    },
                    created_at: current.created_at,
                    updated_at: now,
                })
            },
            Err(message) => {
                &&& input.role is Some
                &&& DeveloperRole::named(lowercase_of(input.role->0@)) is None
                &&& message@ == "Invalid developer role: "@ + input.role->0@
            },
        },
{
    let role = match &input.role {
        Some(text) => match DeveloperRole::from_str(text.as_str()) {
            Ok(role) => role,
            Err(message) => {
                return Err(message);
            },
        },
        None => current.role,
    };
    Ok(
        Developer {
            id: input.id,
            name: match input.name {
                Some(name) => name,
                None => current.name,
            },
            email: match input.email {
                Some(email) => email,
                None => current.email,
            },
            role,
            team: first_some(input.team, current.team),
            start_date: current.start_date,
            is_active: match input.is_active {
                Some(wanted) => wanted,
                None => current.is_active,
            },
            created_at: current.created_at,
            updated_at: now,
        },
    )
}

/// Changes a developer as an input asks, now.
pub fn update_developer(current: Developer, input: UpdateDeveloperInput) -> (r: Result<
    Developer,
    String,
>)
    ensures
        match r {
            Ok(developer) => {
                &&& match input.role {
                    Some(text) => DeveloperRole::named(lowercase_of(text@)) == Some(developer.role),
                    None => developer.role == current.role,
                }
                &&& developer == (Developer {
                    id: input.id,
                    name: match input.name {
                        Some(name) => name,
                        None => current.name,
                    },
                    email: match input.email {
                        Some(email) => email,
                        None => current.email,
                    },
                    role: developer.role,
                    team: first_of(input.team, current.team),
                    start_date: current.start_date,
                    is_active: match input.is_active {
                        Some(wanted) => wanted,
                        None => current.is_active,
                    },
                    created_at: current.created_at,
                    updated_at: developer.updated_at,
                })
            },
            Err(message) => {
                &&& input.role is Some
                &&& DeveloperRole::named(lowercase_of(input.role->0@)) is None
                &&& message@ == "Invalid developer role: "@ + input.role->0@
            },
        },
{
    let reading = read_clock();
    apply_developer_update(current, input, reading.timestamp)
}

} // verus!
