use kpi_tool::models::{
    BugSeverity, BugType, DeveloperRole, KPIConfig, KPITrend, TicketComplexity, TicketStatus,
};

#[test]
fn bug_severity_names() {
    assert_eq!(BugSeverity::Low.as_str(), "low");
    assert_eq!(BugSeverity::Medium.as_str(), "medium");
    assert_eq!(BugSeverity::High.as_str(), "high");
    assert_eq!(BugSeverity::Critical.as_str(), "critical");
}

#[test]
fn bug_severity_from_str_reads_any_case() {
    assert_eq!(BugSeverity::from_str("low"), Ok(BugSeverity::Low));
    assert_eq!(BugSeverity::from_str("MEDIUM"), Ok(BugSeverity::Medium));
    assert_eq!(BugSeverity::from_str("High"), Ok(BugSeverity::High));
    assert_eq!(BugSeverity::from_str("cRiTiCaL"), Ok(BugSeverity::Critical));
}

#[test]
fn bug_severity_from_str_refuses_other_text() {
    assert_eq!(BugSeverity::from_str("urgent"), Err("Invalid bug severity: urgent".to_string()));
    assert_eq!(BugSeverity::from_str(""), Err("Invalid bug severity: ".to_string()));
    assert_eq!(BugSeverity::from_str(" low"), Err("Invalid bug severity:  low".to_string()));
    assert_eq!(BugSeverity::from_str("LOWER"), Err("Invalid bug severity: LOWER".to_string()));
}

#[test]
fn bug_severity_from_name_is_exact() {
    assert_eq!(BugSeverity::from_name("low"), Some(BugSeverity::Low));
    assert_eq!(BugSeverity::from_name("Low"), None);
    assert_eq!(BugSeverity::from_name("critical"), Some(BugSeverity::Critical));
    assert_eq!(BugSeverity::from_name("criticals"), None);
}

#[test]
fn bug_type_names_round_trip() {
    let all = [
        (BugType::DeveloperError, "developer_error"),
        (BugType::Conceptual, "conceptual"),
        (BugType::RequirementChange, "requirement_change"),
        (BugType::Environment, "environment"),
        (BugType::ThirdParty, "third_party"),
    ];
    for (bug_type, name) in all {
        assert_eq!(bug_type.as_str(), name);
        assert_eq!(BugType::from_name(name), Some(bug_type));
        assert_eq!(BugType::from_str(&name.to_uppercase()), Ok(bug_type));
    }
    assert_eq!(BugType::from_str("typo"), Err("Invalid bug type: typo".to_string()));
}

#[test]
fn developer_role_names_round_trip() {
    let all = [
        (DeveloperRole::Junior, "junior"),
        (DeveloperRole::Mid, "mid"),
        (DeveloperRole::Senior, "senior"),
        (DeveloperRole::Lead, "lead"),
    ];
    for (role, name) in all {
        assert_eq!(role.as_str(), name);
        assert_eq!(DeveloperRole::from_name(name), Some(role));
        assert_eq!(DeveloperRole::from_str(&name.to_uppercase()), Ok(role));
    }
    assert_eq!(
        DeveloperRole::from_str("principal"),
        Err("Invalid developer role: principal".to_string())
    );
}

#[test]
fn kpi_trend_names_round_trip() {
    let all = [
        (KPITrend::Improving, "improving"),
        (KPITrend::Stable, "stable"),
        (KPITrend::Declining, "declining"),
    ];
    for (trend, name) in all {
        assert_eq!(trend.as_str(), name);
        assert_eq!(KPITrend::from_name(name), Some(trend));
        assert_eq!(KPITrend::from_str(&name.to_uppercase()), Ok(trend));
    }
    assert_eq!(KPITrend::from_str("flat"), Err("Invalid KPI trend: flat".to_string()));
}

#[test]
fn ticket_status_names_round_trip() {
    let all = [
        (TicketStatus::Assigned, "assigned"),
        (TicketStatus::InProgress, "in_progress"),
        (TicketStatus::Review, "review"),
        (TicketStatus::Completed, "completed"),
        (TicketStatus::Reopened, "reopened"),
    ];
    for (status, name) in all {
        assert_eq!(status.as_str(), name);
        assert_eq!(TicketStatus::from_name(name), Some(status));
        assert_eq!(TicketStatus::from_str(&name.to_uppercase()), Ok(status));
    }
    assert_eq!(
        TicketStatus::from_str("in-progress"),
        Err("Invalid ticket status: in-progress".to_string())
    );
}

#[test]
fn ticket_complexity_names_round_trip() {
    let all = [
        (TicketComplexity::Low, "low"),
        (TicketComplexity::Medium, "medium"),
        (TicketComplexity::High, "high"),
        (TicketComplexity::Critical, "critical"),
    ];
    for (complexity, name) in all {
        assert_eq!(complexity.as_str(), name);
        assert_eq!(TicketComplexity::from_name(name), Some(complexity));
        assert_eq!(TicketComplexity::from_str(&name.to_uppercase()), Ok(complexity));
    }
    assert_eq!(
        TicketComplexity::from_str("epic"),
        Err("Invalid ticket complexity: epic".to_string())
    );
}

#[test]
fn from_str_lowers_beyond_ascii_as_std_does() {
    // The Kelvin sign lowers to the letter k, so no name is met by accident,
    // and a text that only differs from a name in case is read.
    assert!(BugSeverity::from_str("\u{212A}").is_err());
    assert_eq!(TicketStatus::from_str("IN_PROGRESS"), Ok(TicketStatus::InProgress));
}

#[test]
fn default_config_has_equal_weights_and_standard_penalties() {
    let config = KPIConfig::default();
    assert_eq!(config.delivery_weight.units, 5_000);
    assert_eq!(config.quality_weight.units, 5_000);
    assert_eq!(config.bug_penalties.critical.units, 150_000);
    assert_eq!(config.bug_penalties.high.units, 100_000);
    assert_eq!(config.bug_penalties.medium.units, 50_000);
    assert_eq!(config.bug_penalties.low.units, 20_000);
}
