use kpi_tool::commands::bugs::{
    apply_bug_update, create_bug, new_bug, parse_bug_row, resolve_bug, resolve_bug_at, update_bug,
    BugRow,
};
use kpi_tool::commands::developers::{
    apply_developer_update, create_developer, describe_insert_failure, new_developer,
    parse_developer_row, update_developer, DeveloperRow,
};
use kpi_tool::commands::tickets::{
    add_hours, apply_ticket_update, complete_ticket, create_ticket, finish_ticket, new_ticket,
    parse_ticket_row, reopen_ticket, reopen_ticket_at, update_ticket, TicketRow,
};
use kpi_tool::db::connection::{describe_open_failure, describe_unreadable_store, integrity_fault};
use kpi_tool::db::migrations::{migration_names, plan_migration, MigrationPlan};
use kpi_tool::decimal::Decimal;
use kpi_tool::models::{
    Bug, BugSeverity, BugType, CreateBugInput, CreateDeveloperInput, CreateTicketInput, Developer,
    DeveloperRole, Ticket, TicketComplexity, TicketStatus, UpdateBugInput, UpdateDeveloperInput,
    UpdateTicketInput,
};

fn hours(units: i32) -> Option<Decimal> {
    Some(Decimal { units })
}

fn text(s: &str) -> Option<String> {
    Some(s.to_string())
}

fn ticket_row(status: &str, complexity: &str) -> TicketRow {
    TicketRow {
        id: "t-1".to_string(),
        title: "Title".to_string(),
        description: text("About"),
        developer_id: "dev-1".to_string(),
        assigned_date: "2024-03-01".to_string(),
        due_date: "2024-03-10".to_string(),
        completed_date: None,
        status: status.to_string(),
        estimated_hours: hours(40_000),
        actual_hours: None,
        complexity: complexity.to_string(),
        reopen_count: 2,
        created_at: "c".to_string(),
        updated_at: "u".to_string(),
    }
}

fn open_ticket() -> Ticket {
    parse_ticket_row(ticket_row("in_progress", "high"))
}

fn bug_row(severity: &str, bug_type: &str) -> BugRow {
    BugRow {
        id: "b-1".to_string(),
        ticket_id: "t-1".to_string(),
        developer_id: "dev-1".to_string(),
        reported_by: text("qa"),
        title: "Title".to_string(),
        description: None,
        severity: severity.to_string(),
        bug_type: bug_type.to_string(),
        is_resolved: false,
        resolved_date: None,
        resolved_by_developer_id: None,
        fix_ticket_id: None,
        created_at: "c".to_string(),
        updated_at: "u".to_string(),
    }
}

fn open_bug() -> Bug {
    parse_bug_row(bug_row("high", "conceptual"))
}

fn resolved_bug() -> Bug {
    let mut bug = open_bug();
    bug.is_resolved = true;
    bug.resolved_date = text("2024-02-02");
    bug.resolved_by_developer_id = text("dev-7");
    bug
}

fn no_bug_changes(id: &str) -> UpdateBugInput {
    UpdateBugInput {
        id: id.to_string(),
        title: None,
        description: None,
        severity: None,
        bug_type: None,
        is_resolved: None,
        resolved_by_developer_id: None,
        fix_ticket_id: None,
    }
}

fn someone() -> Developer {
    parse_developer_row(DeveloperRow {
        id: "dev-1".to_string(),
        name: "Ann".to_string(),
        email: "ann@example.org".to_string(),
        role: "senior".to_string(),
        team: text("core"),
        start_date: "2020-01-01".to_string(),
        is_active: true,
        created_at: "c".to_string(),
        updated_at: "u".to_string(),
    })
}

#[test]
fn ticket_row_is_read_with_fallbacks() {
    let ticket = parse_ticket_row(ticket_row("COMPLETED", "Critical"));
    assert_eq!(ticket.status, TicketStatus::Completed);
    assert_eq!(ticket.complexity, TicketComplexity::Critical);
    assert_eq!(ticket.id, "t-1");
    assert_eq!(ticket.description, text("About"));
    assert_eq!(ticket.estimated_hours, hours(40_000));
    assert_eq!(ticket.reopen_count, 2);
    let ticket = parse_ticket_row(ticket_row("done", "huge"));
    assert_eq!(ticket.status, TicketStatus::Assigned);
    assert_eq!(ticket.complexity, TicketComplexity::Medium);
}

#[test]
fn bug_row_is_read_with_fallbacks() {
    let bug = parse_bug_row(bug_row("LOW", "Third_Party"));
    assert_eq!(bug.severity, BugSeverity::Low);
    assert_eq!(bug.bug_type, BugType::ThirdParty);
    assert_eq!(bug.reported_by, text("qa"));
    let bug = parse_bug_row(bug_row("", "?"));
    assert_eq!(bug.severity, BugSeverity::Medium);
    assert_eq!(bug.bug_type, BugType::DeveloperError);
}

#[test]
fn developer_row_is_read_with_fallback() {
    assert_eq!(someone().role, DeveloperRole::Senior);
    let mut row = DeveloperRow {
        id: "dev-2".to_string(),
        name: "Bob".to_string(),
        email: "bob@example.org".to_string(),
        role: "wizard".to_string(),
        team: None,
        start_date: "2021-01-01".to_string(),
        is_active: false,
        created_at: "c".to_string(),
        updated_at: "u".to_string(),
    };
    assert_eq!(parse_developer_row(row.clone()).role, DeveloperRole::Junior);
    row.role = "LEAD".to_string();
    let developer = parse_developer_row(row);
    assert_eq!(developer.role, DeveloperRole::Lead);
    assert!(!developer.is_active);
    assert_eq!(developer.email, "bob@example.org");
}

#[test]
fn ticket_is_created_assigned() {
    let input = CreateTicketInput {
        title: "New".to_string(),
        description: None,
        developer_id: "dev-1".to_string(),
        due_date: "2024-04-01".to_string(),
        complexity: "HIGH".to_string(),
        estimated_hours: hours(25_000),
    };
    let ticket = new_ticket("id".to_string(), "2024-03-05".to_string(), "now".to_string(), input.clone(), true).unwrap();
    assert_eq!(ticket.id, "id");
    assert_eq!(ticket.assigned_date, "2024-03-05");
    assert_eq!(ticket.due_date, "2024-04-01");
    assert_eq!(ticket.completed_date, None);
    assert_eq!(ticket.status, TicketStatus::Assigned);
    assert_eq!(ticket.complexity, TicketComplexity::High);
    assert_eq!(ticket.estimated_hours, hours(25_000));
    assert_eq!(ticket.actual_hours, None);
    assert_eq!(ticket.reopen_count, 0);
    assert_eq!(ticket.created_at, "now");
    assert_eq!(ticket.updated_at, "now");
    let refused = new_ticket("id".to_string(), "d".to_string(), "n".to_string(), input.clone(), false);
    assert_eq!(refused.unwrap_err(), "Developer not found or inactive");
    let mut odd = input.clone();
    odd.complexity = "tiny".to_string();
    let refused = new_ticket("id".to_string(), "d".to_string(), "n".to_string(), odd, false);
    assert_eq!(refused.unwrap_err(), "Invalid ticket complexity: tiny");
    let ticket = create_ticket(input, true).unwrap();
    assert_eq!(ticket.id.len(), 36);
    assert_eq!(ticket.assigned_date.len(), 10);
    assert!(chrono::NaiveDate::parse_from_str(&ticket.assigned_date, "%Y-%m-%d").is_ok());
    assert!(ticket.created_at.starts_with(&ticket.assigned_date));
    assert_eq!(ticket.created_at, ticket.updated_at);
}

#[test]
fn ticket_update_replaces_what_is_given() {
    let input = UpdateTicketInput {
        id: "t-1".to_string(),
        title: text("Better title"),
        description: None,
        developer_id: text("dev-2"),
        due_date: None,
        status: text("Review"),
        actual_hours: hours(10_000),
    };
    let ticket = apply_ticket_update(open_ticket(), input, "now".to_string()).unwrap();
    assert_eq!(ticket.title, "Better title");
    assert_eq!(ticket.description, text("About"));
    assert_eq!(ticket.developer_id, "dev-2");
    assert_eq!(ticket.due_date, "2024-03-10");
    assert_eq!(ticket.status, TicketStatus::Review);
    assert_eq!(ticket.actual_hours, hours(10_000));
    assert_eq!(ticket.estimated_hours, hours(40_000));
    assert_eq!(ticket.complexity, TicketComplexity::High);
    assert_eq!(ticket.reopen_count, 2);
    assert_eq!(ticket.created_at, "c");
    assert_eq!(ticket.updated_at, "now");
}

#[test]
fn ticket_update_without_changes_keeps_the_ticket() {
    let input = UpdateTicketInput {
        id: "t-1".to_string(),
        title: None,
        description: None,
        developer_id: None,
        due_date: None,
        status: None,
        actual_hours: None,
    };
    let ticket = update_ticket(open_ticket(), input).unwrap();
    assert_eq!(ticket.title, "Title");
    assert_eq!(ticket.status, TicketStatus::InProgress);
    assert_eq!(ticket.actual_hours, None);
    assert!(chrono::DateTime::parse_from_rfc3339(&ticket.updated_at).is_ok());
}

#[test]
fn ticket_update_with_an_unknown_status_is_refused() {
    let input = UpdateTicketInput {
        id: "t-1".to_string(),
        title: text("x"),
        description: None,
        developer_id: None,
        due_date: None,
        status: text("paused"),
        actual_hours: None,
    };
    assert_eq!(
        apply_ticket_update(open_ticket(), input.clone(), "now".to_string()).unwrap_err(),
        "Invalid ticket status: paused"
    );
    assert_eq!(update_ticket(open_ticket(), input).unwrap_err(), "Invalid ticket status: paused");
}

#[test]
fn hours_add_up() {
    assert_eq!(add_hours(hours(15_000), hours(20_000)), hours(35_000));
    assert_eq!(add_hours(None, hours(20_000)), hours(20_000));
    assert_eq!(add_hours(hours(15_000), None), hours(15_000));
    assert_eq!(add_hours(None, None), None);
    assert_eq!(add_hours(hours(i32::MAX), hours(1)), hours(i32::MAX));
    assert_eq!(add_hours(hours(i32::MIN), hours(-1)), hours(i32::MIN));
    assert_eq!(add_hours(hours(-5), hours(5)), hours(0));
}

#[test]
fn ticket_is_completed_on_the_given_day() {
    let mut current = open_ticket();
    current.actual_hours = hours(10_000);
    let ticket = finish_ticket(current, hours(5_000), "2024-03-09".to_string(), "now".to_string(), None, None).unwrap();
    assert_eq!(ticket.status, TicketStatus::Completed);
    assert_eq!(ticket.completed_date, text("2024-03-09"));
    assert_eq!(ticket.actual_hours, hours(15_000));
    assert_eq!(ticket.updated_at, "now");
    assert_eq!(ticket.due_date, "2024-03-10");
    assert_eq!(ticket.reopen_count, 2);
}

#[test]
fn ticket_with_a_faulty_date_is_not_completed() {
    let refused = finish_ticket(open_ticket(), None, "d".to_string(), "n".to_string(), text("bad due"), text("bad day"));
    assert_eq!(refused.unwrap_err(), "Invalid due date format: bad due");
    let refused = finish_ticket(open_ticket(), None, "d".to_string(), "n".to_string(), None, text("bad day"));
    assert_eq!(refused.unwrap_err(), "Invalid date format: bad day");
}

#[test]
fn ticket_is_completed_today() {
    let ticket = complete_ticket(open_ticket(), hours(30_000)).unwrap();
    assert_eq!(ticket.status, TicketStatus::Completed);
    let day = ticket.completed_date.clone().unwrap();
    assert!(chrono::NaiveDate::parse_from_str(&day, "%Y-%m-%d").is_ok());
    assert!(ticket.updated_at.starts_with(&day));
    assert_eq!(ticket.actual_hours, hours(30_000));
    assert_eq!(ticket.title, "Title");
}

#[test]
fn ticket_whose_due_date_is_no_date_is_not_completed() {
    let mut current = open_ticket();
    current.due_date = "10.03.2024".to_string();
    let expected = chrono::NaiveDate::parse_from_str("10.03.2024", "%Y-%m-%d").unwrap_err();
    assert_eq!(
        complete_ticket(current, None).unwrap_err(),
        format!("Invalid due date format: {}", expected)
    );
    let mut current = open_ticket();
    current.due_date = "2024-02-30".to_string();
    let expected = chrono::NaiveDate::parse_from_str("2024-02-30", "%Y-%m-%d").unwrap_err();
    assert_eq!(
        complete_ticket(current, None).unwrap_err(),
        format!("Invalid due date format: {}", expected)
    );
    let mut current = open_ticket();
    current.due_date = "".to_string();
    assert!(complete_ticket(current, None).unwrap_err().starts_with("Invalid due date format: "));
}

#[test]
fn ticket_is_reopened() {
    let mut current = open_ticket();
    current.status = TicketStatus::Completed;
    current.completed_date = text("2024-03-09");
    let ticket = reopen_ticket_at(current.clone(), "now".to_string());
    assert_eq!(ticket.status, TicketStatus::Reopened);
    assert_eq!(ticket.completed_date, None);
    assert_eq!(ticket.reopen_count, 3);
    assert_eq!(ticket.updated_at, "now");
    assert_eq!(ticket.assigned_date, "2024-03-01");
    let ticket = reopen_ticket(current);
    assert_eq!(ticket.reopen_count, 3);
    assert_eq!(ticket.status, TicketStatus::Reopened);
    assert!(chrono::DateTime::parse_from_rfc3339(&ticket.updated_at).is_ok());
}

#[test]
fn bug_is_recorded_unresolved() {
    let input = CreateBugInput {
        ticket_id: "t-9".to_string(),
        title: "Crash".to_string(),
        description: text("On start"),
        severity: "Critical".to_string(),
        bug_type: "DEVELOPER_ERROR".to_string(),
        reported_by: None,
    };
    let bug = new_bug("id".to_string(), "now".to_string(), input.clone(), text("dev-3")).unwrap();
    assert_eq!(bug.id, "id");
    assert_eq!(bug.ticket_id, "t-9");
    assert_eq!(bug.developer_id, "dev-3");
    assert_eq!(bug.severity, BugSeverity::Critical);
    assert_eq!(bug.bug_type, BugType::DeveloperError);
    assert!(!bug.is_resolved);
    assert_eq!(bug.resolved_date, None);
    assert_eq!(bug.created_at, "now");
    assert_eq!(bug.updated_at, "now");
    assert_eq!(new_bug("id".to_string(), "n".to_string(), input.clone(), None).unwrap_err(), "Ticket not found");
    let mut odd = input.clone();
    odd.bug_type = "typo".to_string();
    assert_eq!(new_bug("id".to_string(), "n".to_string(), odd.clone(), None).unwrap_err(), "Invalid bug type: typo");
    odd.severity = "mild".to_string();
    assert_eq!(new_bug("id".to_string(), "n".to_string(), odd, None).unwrap_err(), "Invalid bug severity: mild");
    let bug = create_bug(input, text("dev-3")).unwrap();
    assert_eq!(bug.id.len(), 36);
    assert_eq!(bug.created_at, bug.updated_at);
    assert!(chrono::DateTime::parse_from_rfc3339(&bug.created_at).is_ok());
}

#[test]
fn bug_update_that_resolves_sets_the_day() {
    let mut input = no_bug_changes("b-1");
    input.is_resolved = Some(true);
    input.resolved_by_developer_id = text("dev-2");
    input.severity = text("LOW");
    input.title = text("Renamed");
    let bug = apply_bug_update(open_bug(), input, "2024-03-09".to_string(), "now".to_string()).unwrap();
    assert!(bug.is_resolved);
    assert_eq!(bug.resolved_date, text("2024-03-09"));
    assert_eq!(bug.resolved_by_developer_id, text("dev-2"));
    assert_eq!(bug.severity, BugSeverity::Low);
    assert_eq!(bug.bug_type, BugType::Conceptual);
    assert_eq!(bug.title, "Renamed");
    assert_eq!(bug.updated_at, "now");
    assert_eq!(bug.created_at, "c");
}

#[test]
fn bug_update_that_unresolves_clears_day_and_resolver() {
    let mut input = no_bug_changes("b-1");
    input.is_resolved = Some(false);
    input.resolved_by_developer_id = text("dev-2");
    input.fix_ticket_id = text("t-5");
    let bug = apply_bug_update(resolved_bug(), input, "2024-03-09".to_string(), "now".to_string()).unwrap();
    assert!(!bug.is_resolved);
    assert_eq!(bug.resolved_date, None);
    assert_eq!(bug.resolved_by_developer_id, None);
    assert_eq!(bug.fix_ticket_id, text("t-5"));
}

#[test]
fn bug_update_of_a_resolved_bug_keeps_the_day() {
    let mut input = no_bug_changes("b-1");
    input.bug_type = text("environment");
    let bug = apply_bug_update(resolved_bug(), input, "2024-03-09".to_string(), "now".to_string()).unwrap();
    assert!(bug.is_resolved);
    assert_eq!(bug.resolved_date, text("2024-02-02"));
    assert_eq!(bug.resolved_by_developer_id, text("dev-7"));
    assert_eq!(bug.bug_type, BugType::Environment);
    let mut input = no_bug_changes("b-1");
    input.resolved_by_developer_id = text("dev-8");
    let bug = update_bug(resolved_bug(), input).unwrap();
    assert_eq!(bug.resolved_date, text("2024-02-02"));
    assert_eq!(bug.resolved_by_developer_id, text("dev-8"));
}

#[test]
fn bug_update_with_unknown_words_is_refused() {
    let mut input = no_bug_changes("b-1");
    input.bug_type = text("typo");
    assert_eq!(update_bug(open_bug(), input.clone()).unwrap_err(), "Invalid bug type: typo");
    input.severity = text("mild");
    assert_eq!(update_bug(open_bug(), input).unwrap_err(), "Invalid bug severity: mild");
}

#[test]
fn bug_update_now_sets_today() {
    let mut input = no_bug_changes("b-1");
    input.is_resolved = Some(true);
    let bug = update_bug(open_bug(), input).unwrap();
    let day = bug.resolved_date.unwrap();
    assert!(chrono::NaiveDate::parse_from_str(&day, "%Y-%m-%d").is_ok());
    assert!(bug.updated_at.starts_with(&day));
}

#[test]
fn bug_is_resolved_with_its_fix_ticket() {
    let resolution = resolve_bug_at(
        open_bug(),
        text("dev-2"),
        text("t-5"),
        hours(10_000),
        hours(25_000),
        "2024-03-09".to_string(),
        "now".to_string(),
    )
    .unwrap();
    assert!(resolution.bug.is_resolved);
    assert_eq!(resolution.bug.resolved_date, text("2024-03-09"));
    assert_eq!(resolution.bug.resolved_by_developer_id, text("dev-2"));
    assert_eq!(resolution.bug.fix_ticket_id, text("t-5"));
    assert_eq!(resolution.bug.updated_at, "now");
    let change = resolution.fix_ticket.unwrap();
    assert_eq!(change.ticket_id, "t-5");
    assert_eq!(change.developer_id, text("dev-2"));
    assert_eq!(change.actual_hours, hours(35_000));
    assert_eq!(change.completed_date, "2024-03-09");
    assert_eq!(change.updated_at, "now");
}

#[test]
fn bug_is_resolved_without_resolver_or_hours() {
    let resolution = resolve_bug_at(open_bug(), None, text("t-5"), None, hours(25_000), "d".to_string(), "n".to_string()).unwrap();
    let change = resolution.fix_ticket.unwrap();
    assert_eq!(change.developer_id, None);
    assert_eq!(change.actual_hours, hours(25_000));
    let resolution = resolve_bug_at(open_bug(), None, text("t-5"), hours(7), None, "d".to_string(), "n".to_string()).unwrap();
    assert_eq!(resolution.fix_ticket.unwrap().actual_hours, hours(7));
    let resolution = resolve_bug_at(open_bug(), None, text("t-5"), None, None, "d".to_string(), "n".to_string()).unwrap();
    assert_eq!(resolution.fix_ticket.unwrap().actual_hours, None);
    let resolution = resolve_bug_at(open_bug(), text("dev-2"), None, hours(7), hours(7), "d".to_string(), "n".to_string()).unwrap();
    assert!(resolution.fix_ticket.is_none());
    assert_eq!(resolution.bug.resolved_by_developer_id, text("dev-2"));
}

#[test]
fn resolved_bug_is_not_resolved_again() {
    assert_eq!(
        resolve_bug_at(resolved_bug(), None, None, None, None, "d".to_string(), "n".to_string()).unwrap_err(),
        "Bug is already resolved"
    );
    assert_eq!(resolve_bug(resolved_bug(), None, None, None, None).unwrap_err(), "Bug is already resolved");
    let resolution = resolve_bug(open_bug(), None, text("t-5"), None, None).unwrap();
    let day = resolution.bug.resolved_date.unwrap();
    assert!(chrono::NaiveDate::parse_from_str(&day, "%Y-%m-%d").is_ok());
    assert_eq!(resolution.fix_ticket.unwrap().completed_date, day);
}

#[test]
fn developer_is_added_active() {
    let input = CreateDeveloperInput {
        name: "Cy".to_string(),
        email: "cy@example.org".to_string(),
        role: "Lead".to_string(),
        team: None,
        start_date: "2024-01-01".to_string(),
    };
    let developer = new_developer("id".to_string(), "now".to_string(), input.clone()).unwrap();
    assert_eq!(developer.id, "id");
    assert_eq!(developer.role, DeveloperRole::Lead);
    assert!(developer.is_active);
    assert_eq!(developer.created_at, "now");
    assert_eq!(developer.updated_at, "now");
    let developer = create_developer(input.clone()).unwrap();
    assert_eq!(developer.id.len(), 36);
    assert_eq!(developer.name, "Cy");
    let mut odd = input;
    odd.role = "boss".to_string();
    assert_eq!(create_developer(odd).unwrap_err(), "Invalid developer role: boss");
}

#[test]
fn developer_update_replaces_what_is_given() {
    let input = UpdateDeveloperInput {
        id: "dev-1".to_string(),
        name: None,
        email: text("ann@example.com"),
        role: text("LEAD"),
        team: None,
        is_active: Some(false),
    };
    let developer = apply_developer_update(someone(), input.clone(), "now".to_string()).unwrap();
    assert_eq!(developer.name, "Ann");
    assert_eq!(developer.email, "ann@example.com");
    assert_eq!(developer.role, DeveloperRole::Lead);
    assert_eq!(developer.team, text("core"));
    assert!(!developer.is_active);
    assert_eq!(developer.start_date, "2020-01-01");
    assert_eq!(developer.updated_at, "now");
    let developer = update_developer(someone(), input.clone()).unwrap();
    assert_eq!(developer.role, DeveloperRole::Lead);
    let mut odd = input;
    odd.role = text("boss");
    assert_eq!(update_developer(someone(), odd).unwrap_err(), "Invalid developer role: boss");
}

#[test]
fn refusal_of_a_new_developer_is_put_into_words() {
    assert_eq!(
        describe_insert_failure("UNIQUE constraint failed: developers.email"),
        "A developer with this email already exists. Please use a different email address."
    );
    assert_eq!(
        describe_insert_failure("a unique constraint was violated"),
        "A developer with this email already exists. Please use a different email address."
    );
    assert_eq!(
        describe_insert_failure("NOT NULL constraint failed: developers.name"),
        "Required fields are missing. Please fill in all required information."
    );
    assert_eq!(
        describe_insert_failure("disk I/O error"),
        "Failed to create developer. Please check your input and try again."
    );
}

#[test]
fn failures_to_open_the_store_are_put_into_words() {
    assert_eq!(integrity_fault("ok"), None);
    assert_eq!(
        integrity_fault("row 5 missing from index"),
        text("Database corruption detected. Please restore from a backup. Error: row 5 missing from index")
    );
    assert_eq!(
        integrity_fault("OK"),
        text("Database corruption detected. Please restore from a backup. Error: OK")
    );
    assert_eq!(
        describe_unreadable_store("unable to open"),
        "Database file appears to be corrupted. Please restore from a backup. Error: unable to open"
    );
    assert_eq!(
        describe_open_failure("file is not a database"),
        "Database file is corrupted. Please restore from a backup or delete the database file to start fresh."
    );
    assert_eq!(
        describe_open_failure("database disk image is malformed"),
        "Database file is corrupted. Please restore from a backup or delete the database file to start fresh."
    );
    assert_eq!(describe_open_failure("permission denied"), "Failed to open database: permission denied");
}

#[test]
fn migrations_are_planned() {
    assert_eq!(
        migration_names(),
        vec!["001_initial_schema", "002_bug_resolver", "003_add_indexes", "004_datetime_fields", "005_app_version"]
    );
    let plan = |run, record| MigrationPlan { run, record };
    assert_eq!(plan_migration("001_initial_schema", false, false), plan(true, true));
    assert_eq!(plan_migration("001_initial_schema", false, true), plan(true, true));
    assert_eq!(plan_migration("001_initial_schema", true, false), plan(false, false));
    assert_eq!(plan_migration("002_bug_resolver", false, false), plan(true, true));
    assert_eq!(plan_migration("002_bug_resolver", true, false), plan(true, false));
    assert_eq!(plan_migration("002_bug_resolver", false, true), plan(false, true));
    assert_eq!(plan_migration("002_bug_resolver", true, true), plan(false, false));
}
