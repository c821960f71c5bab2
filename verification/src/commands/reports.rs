//! The report of a developer's month: put together from the figures, the
//! scores and the trend, for storing or for showing.

use crate::commands::history::{
    are_previous_scores, get_previous_scores, lemma_previous_scores_read_earlier_rows,
    lemma_previous_scores_unique, same_earlier_rows,
};
use crate::commands::metrics::{
    aggregate_bug_metrics, aggregate_ticket_metrics, bugs_error_of_severity, bugs_in_period,
    bugs_of_other_type, bugs_of_type, lemma_ticket_counts, tickets_completed, tickets_early,
    tickets_in_period, tickets_late, tickets_late_critical, tickets_on_time, tickets_reopened,
};
use crate::decimal::{
    clamp, div_round, lemma_round_div_exact, lemma_round_div_range, product, round_div, Decimal,
    SCALE,
};
use crate::models::bug::{Bug, BugSeverity, BugType};
use crate::models::developer::Developer;
use crate::models::kpi::{KPIConfig, KPITrend, MonthlyKPI};
use crate::models::ticket::Ticket;
use crate::services::kpi_calculator::{
    calculate_delivery_score, calculate_overall_score, calculate_quality_score, calculate_trend,
    delivery_units, on_time_rate_units, overall_units, quality_units, trend_of, DeliveryMetrics,
    FULL_SCORE,
};
use crate::system::{new_identifier, read_clock, ClockReading, IDENTIFIER_LENGTH};
use crate::text::{int_text, int_to_text, parse_i32, parsed_i32, same_text};
use vstd::prelude::*;
use vstd::slice::slice_subrange;
use vstd::string::*;

verus! {

/// How many earlier scores the trend of a month is measured against.
pub const TREND_MONTHS: usize = 3;

/// Whether a developer with this identifier is on record.
pub open spec fn developer_known(developers: Seq<Developer>, developer_id: Seq<char>) -> bool {
    exists|i: int| 0 <= i < developers.len() && (#[trigger] developers[i]).id@ == developer_id
}

/// The delivery score, in units, that a developer's tickets give for a month.
pub open spec fn delivery_score_of(
    tickets: Seq<Ticket>,
    developer_id: Seq<char>,
    year: int,
    month: int,
) -> int {
    delivery_units(
        tickets_completed(tickets, developer_id, year, month),
        tickets_on_time(tickets, developer_id, year, month),
        tickets_early(tickets, developer_id, year, month),
        tickets_late_critical(tickets, developer_id, year, month),
        tickets_reopened(tickets, developer_id, year, month),
    )
}

/// The quality score, in units, that the bugs charged to a developer give for
/// a month.
pub open spec fn quality_score_of(
    bugs: Seq<Bug>,
    developer_id: Seq<char>,
    year: int,
    month: int,
    config: KPIConfig,
) -> int {
    quality_units(
        bugs_error_of_severity(bugs, BugSeverity::Critical, developer_id, year, month),
        bugs_error_of_severity(bugs, BugSeverity::High, developer_id, year, month),
        bugs_error_of_severity(bugs, BugSeverity::Medium, developer_id, year, month),
        bugs_error_of_severity(bugs, BugSeverity::Low, developer_id, year, month),
        bugs_of_type(bugs, BugType::Conceptual, developer_id, year, month),
        config,
    )
}

/// The overall score, in units, of a developer's month.
pub open spec fn overall_score_of(
    tickets: Seq<Ticket>,
    bugs: Seq<Bug>,
    developer_id: Seq<char>,
    year: int,
    month: int,
    config: KPIConfig,
) -> int {
    overall_units(
        delivery_score_of(tickets, developer_id, year, month),
        quality_score_of(bugs, developer_id, year, month, config),
        config,
    )
}

/// The earlier scores that a trend is measured against: the first three of
/// those supplied, which come most recent first.
pub open spec fn trend_basis(prior_scores: Seq<Decimal>) -> Seq<Decimal> {
    if prior_scores.len() <= TREND_MONTHS {
        prior_scores
    } else {
        prior_scores.subrange(0, TREND_MONTHS as int)
    }
}

/// The average delivery time in units: the days of delivery divided by the
/// completed tickets, 0 where there are none.
pub open spec fn avg_delivery_units(days: int, completed: int) -> int {
    if completed == 0 {
        0
    } else {
        round_div(days * SCALE, completed)
    }
}

/// Everything in a monthly report but its identifier and the time it was
/// made: the figures, rates, scores and trend of the developer's month, as
/// the tickets, the bugs, the configuration and the earlier scores give them.
pub open spec fn is_monthly_kpi(
    kpi: MonthlyKPI,
    developer_id: Seq<char>,
    year: int,
    month: int,
    tickets: Seq<Ticket>,
    bugs: Seq<Bug>,
    config: KPIConfig,
    prior_scores: Seq<Decimal>,
) -> bool {
    &&& kpi.developer_id@ == developer_id
    &&& kpi.month == month
    &&& kpi.year == year
    &&& kpi.total_tickets == tickets_in_period(tickets, developer_id, year, month)
    &&& kpi.completed_tickets == tickets_completed(tickets, developer_id, year, month)
    &&& kpi.on_time_tickets == tickets_on_time(tickets, developer_id, year, month)
    &&& kpi.late_tickets == tickets_late(tickets, developer_id, year, month)
    &&& kpi.reopened_tickets == tickets_reopened(tickets, developer_id, year, month)
    &&& kpi.on_time_rate.units == on_time_rate_units(
        kpi.on_time_tickets as int,
        kpi.completed_tickets as int,
    )
    &&& kpi.avg_delivery_time.units == avg_delivery_units(
        kpi.completed_tickets as int,
        kpi.completed_tickets as int,
    )
    &&& kpi.total_bugs == bugs_in_period(bugs, developer_id, year, month)
    &&& kpi.developer_error_bugs == bugs_of_type(
        bugs,
        BugType::DeveloperError,
        developer_id,
        year,
        month,
    )
    &&& kpi.conceptual_bugs == bugs_of_type(bugs, BugType::Conceptual, developer_id, year, month)
    &&& kpi.other_bugs == bugs_of_other_type(bugs, developer_id, year, month)
    &&& kpi.delivery_score.units == delivery_score_of(tickets, developer_id, year, month)
    &&& kpi.quality_score.units == quality_score_of(bugs, developer_id, year, month, config)
    &&& kpi.overall_score.units == overall_score_of(
        tickets,
        bugs,
        developer_id,
        year,
        month,
        config,
    )
    &&& kpi.trend == Some(
        trend_of(
            overall_score_of(tickets, bugs, developer_id, year, month, config),
            trend_basis(prior_scores),
        ),
    )
}

/// Whether a developer with this identifier is on record.
pub fn developer_exists(developers: &Vec<Developer>, developer_id: &str) -> (found: bool)
    ensures
        found == developer_known(developers@, developer_id@),
{
    let mut i: usize = 0;
    while i < developers.len()
        invariant
            i <= developers.len(),
            forall|j: int| 0 <= j < i ==> (#[trigger] developers@[j]).id@ != developer_id@,
        decreases developers.len() - i,
    {
        if same_text(developers[i].id.as_str(), developer_id) {
            return true;
        }
        i += 1;
    }
    false
}

/// A number limited to what a decimal can hold.
pub open spec fn within_decimal(units: int) -> int {
    clamp(units, i32::MIN as int, i32::MAX as int)
}

/// Limits a number of units to what a decimal can hold.
fn to_decimal(units: i128) -> (d: Decimal)
    ensures
        d.units == within_decimal(units as int),
{
    if units < i32::MIN as i128 {
        Decimal { units: i32::MIN }
    } else if units > i32::MAX as i128 {
        Decimal { units: i32::MAX }
    } else {
        Decimal { units: units as i32 }
    }
}

/// The on-time rate of a month: the share of completed tickets that were on
/// time, as a percentage, and 100 where none was completed. For counts that
/// can occur, with no more tickets on time than completed, it lies between 0
/// and 100; for others it is limited to what a decimal can hold.
pub fn on_time_rate(on_time_tickets: i32, completed_tickets: i32) -> (rate: Decimal)
    ensures
        rate.units == within_decimal(
            on_time_rate_units(on_time_tickets as int, completed_tickets as int),
        ),
        0 <= on_time_tickets <= completed_tickets ==> rate.units == on_time_rate_units(
            on_time_tickets as int,
            completed_tickets as int,
        ) && 0 <= rate.units <= FULL_SCORE,
{
    if completed_tickets != 0 {
        proof {
            if 0 <= on_time_tickets <= completed_tickets {
                lemma_round_div_range(
                    on_time_tickets * 100 * SCALE,
                    completed_tickets as int,
                    FULL_SCORE as int,
                );
            }
        }
        to_decimal(
            div_round(
                product(on_time_tickets, 100 * SCALE) as i128,
                completed_tickets as i64,
            ),
        )
    } else {
        Decimal { units: FULL_SCORE }
    }
}

/// The average delivery time of a month in days: the days of delivery
/// divided by the completed tickets, and 0 where none was completed. With one
/// day for each completed ticket it is 1; a quotient beyond what a decimal
/// can hold is limited to that.
pub fn avg_delivery_time(total_delivery_days: i32, completed_tickets: i32) -> (days: Decimal)
    ensures
        days.units == within_decimal(
            avg_delivery_units(total_delivery_days as int, completed_tickets as int),
        ),
        total_delivery_days == completed_tickets ==> days.units == avg_delivery_units(
            total_delivery_days as int,
            completed_tickets as int,
        ) && days.units == if completed_tickets == 0 {
            0
        } else {
            SCALE
        },
{
    if completed_tickets != 0 {
        proof {
            if total_delivery_days == completed_tickets {
                lemma_round_div_exact(SCALE as int, completed_tickets as int);
                assert(SCALE * completed_tickets == total_delivery_days * SCALE) by (nonlinear_arith)
                    requires
                        total_delivery_days == completed_tickets,
                ;
            }
        }
        to_decimal(
            div_round(product(total_delivery_days, SCALE) as i128, completed_tickets as i64),
        )
    } else {
        Decimal { units: 0 }
    }
}

/// Computes the report of a developer's month from the records: checks that
/// the developer is on record, adds up tickets and bugs, scores them, and
/// measures the overall score against the first three of `prior_scores`.
/// `id` and `generated_at` are carried into the report as they are.
pub fn compute_monthly_kpi(
    id: String,
    generated_at: String,
    developer_id: &str,
    month: i32,
    year: i32,
    developers: &Vec<Developer>,
    tickets: &Vec<Ticket>,
    bugs: &Vec<Bug>,
    config: &KPIConfig,
    prior_scores: &Vec<Decimal>,
) -> (r: Result<MonthlyKPI, String>)
    requires
        tickets.len() <= i32::MAX,
        bugs.len() <= i32::MAX,
    ensures
        match r {
            Ok(kpi) => {
                &&& developer_known(developers@, developer_id@)
                &&& kpi.id == id
                &&& kpi.generated_at == generated_at
                &&& is_monthly_kpi(
                    kpi,
                    developer_id@,
                    year as int,
                    month as int,
                    tickets@,
                    bugs@,
                    *config,
                    prior_scores@,
                )
                &&& 0 <= kpi.delivery_score.units <= FULL_SCORE
                &&& 0 <= kpi.quality_score.units <= FULL_SCORE
                &&& 0 <= kpi.overall_score.units <= FULL_SCORE
                &&& 0 <= kpi.on_time_rate.units <= FULL_SCORE
                &&& kpi.on_time_tickets + kpi.late_tickets == kpi.completed_tickets
                &&& kpi.completed_tickets <= kpi.total_tickets
            },
            Err(message) => {
                &&& !developer_known(developers@, developer_id@)
                &&& message@ == "Developer not found"@
            },
        },
{
    if !developer_exists(developers, developer_id) {
        return Err(String::from_str("Developer not found"));
    }
    let ticket_metrics = aggregate_ticket_metrics(tickets, developer_id, month, year);
    let bug_metrics = aggregate_bug_metrics(bugs, developer_id, month, year);
    let delivery_metrics = DeliveryMetrics {
        completed_tickets: ticket_metrics.completed_tickets,
        on_time_tickets: ticket_metrics.on_time_tickets,
        early_deliveries: ticket_metrics.early_deliveries,
        late_critical_tickets: ticket_metrics.late_critical_tickets,
        reopened_tickets: ticket_metrics.reopened_tickets,
    };
    let delivery_score = calculate_delivery_score(&delivery_metrics);
    let quality_score = calculate_quality_score(
        &bug_metrics.dev_error_by_severity,
        bug_metrics.conceptual_bugs,
        config,
    );
    let overall_score = calculate_overall_score(delivery_score, quality_score, config);
    let basis_len: usize = if prior_scores.len() <= TREND_MONTHS {
        prior_scores.len()
    } else {
        TREND_MONTHS
    };
    let basis = slice_subrange(prior_scores.as_slice(), 0, basis_len);
    assert(basis@ =~= trend_basis(prior_scores@));
    let trend = calculate_trend(overall_score, basis);
    Ok(
        MonthlyKPI {
            id,
            developer_id: developer_id.to_owned(),
            month,
            year,
            total_tickets: ticket_metrics.total_tickets,
            completed_tickets: ticket_metrics.completed_tickets,
            on_time_tickets: ticket_metrics.on_time_tickets,
            late_tickets: ticket_metrics.late_tickets,
            reopened_tickets: ticket_metrics.reopened_tickets,
            on_time_rate: on_time_rate(
                ticket_metrics.on_time_tickets,
                ticket_metrics.completed_tickets,
            ),
            avg_delivery_time: avg_delivery_time(
                ticket_metrics.total_delivery_days,
                ticket_metrics.completed_tickets,
            ),
            total_bugs: bug_metrics.total_bugs,
            developer_error_bugs: bug_metrics.developer_error_bugs,
            conceptual_bugs: bug_metrics.conceptual_bugs,
            other_bugs: bug_metrics.other_bugs,
            delivery_score,
            quality_score,
            overall_score,
            trend: Some(trend),
            generated_at,
        },
    )
}

/// The report is of this developer and this month.
pub open spec fn report_of(k: MonthlyKPI, developer_id: Seq<char>, year: int, month: int) -> bool {
    k.developer_id@ == developer_id && k.year == year && k.month == month
}

/// Report `i` is the first in the history that is of this developer and this
/// month.
pub open spec fn first_report_of(
    history: Seq<MonthlyKPI>,
    developer_id: Seq<char>,
    year: int,
    month: int,
    i: int,
) -> bool {
    &&& 0 <= i < history.len()
    &&& report_of(history[i], developer_id, year, month)
    &&& forall|j: int| 0 <= j < i ==> !report_of(#[trigger] history[j], developer_id, year, month)
}

/// No report in the history is of this developer and this month.
pub open spec fn no_report_of(
    history: Seq<MonthlyKPI>,
    developer_id: Seq<char>,
    year: int,
    month: int,
) -> bool {
    forall|j: int|
        0 <= j < history.len() ==> !report_of(#[trigger] history[j], developer_id, year, month)
}

/// A report of the developer's month as the records and the history give it:
/// the trend is measured against the overall scores of the three most recent
/// earlier reports of the developer.
pub open spec fn is_report_from_history(
    kpi: MonthlyKPI,
    developer_id: Seq<char>,
    year: int,
    month: int,
    tickets: Seq<Ticket>,
    bugs: Seq<Bug>,
    config: KPIConfig,
    history: Seq<MonthlyKPI>,
) -> bool {
    exists|prior: Seq<Decimal>|
        #[trigger] are_previous_scores(
            prior,
            history,
            developer_id,
            year,
            month,
            TREND_MONTHS as int,
        ) && is_monthly_kpi(kpi, developer_id, year, month, tickets, bugs, config, prior)
}

/// Finds the stored report of a developer's month: the first one in the
/// history, if there is any.
pub fn find_monthly_kpi(history: &Vec<MonthlyKPI>, developer_id: &str, month: i32, year: i32) -> (found:
    Option<usize>)
    ensures
        match found {
            Some(i) => first_report_of(
                history@,
                developer_id@,
                year as int,
                month as int,
                i as int,
            ),
            None => no_report_of(history@, developer_id@, year as int, month as int),
        },
{
    let mut i: usize = 0;
    while i < history.len()
        invariant
            i <= history.len(),
            forall|j: int|
                0 <= j < i ==> !report_of(
                    #[trigger] history@[j],
                    developer_id@,
                    year as int,
                    month as int,
                ),
        decreases history.len() - i,
    {
        let k = &history[i];
        if k.year == year && k.month == month && same_text(k.developer_id.as_str(), developer_id) {
            return Some(i);
        }
        i += 1;
    }
    None
}

/// Builds the report of a developer's month that is to be stored. A report
/// already stored for that month keeps its identifier; otherwise the report
/// gets `fresh_id`. The trend is measured against the history.
pub fn build_monthly_kpi(
    fresh_id: String,
    generated_at: String,
    developer_id: &str,
    month: i32,
    year: i32,
    developers: &Vec<Developer>,
    tickets: &Vec<Ticket>,
    bugs: &Vec<Bug>,
    history: &Vec<MonthlyKPI>,
    config: &KPIConfig,
) -> (r: Result<MonthlyKPI, String>)
    requires
        tickets.len() <= i32::MAX,
        bugs.len() <= i32::MAX,
    ensures
        match r {
            Ok(kpi) => {
                &&& developer_known(developers@, developer_id@)
                &&& kpi.generated_at == generated_at
                &&& is_report_from_history(
                    kpi,
                    developer_id@,
                    year as int,
                    month as int,
                    tickets@,
                    bugs@,
                    *config,
                    history@,
                )
                &&& no_report_of(history@, developer_id@, year as int, month as int) ==> kpi.id
                    == fresh_id
                &&& forall|i: int|
                    first_report_of(history@, developer_id@, year as int, month as int, i)
                        ==> kpi.id == (#[trigger] history@[i]).id
            },
            Err(message) => {
                &&& !developer_known(developers@, developer_id@)
                &&& message@ == "Developer not found"@
            },
        },
{
    let id = match find_monthly_kpi(history, developer_id, month, year) {
        Some(i) => history[i].id.clone(),
        None => fresh_id,
    };
    let prior = get_previous_scores(history, developer_id, month, year, TREND_MONTHS);
    compute_monthly_kpi(
        id,
        generated_at,
        developer_id,
        month,
        year,
        developers,
        tickets,
        bugs,
        config,
        &prior,
    )
}

/// Generates the report of a developer's month that is to be stored, with
/// the current time as the time of its making. A report already stored for
/// that month keeps its identifier; otherwise the report gets a new one.
pub fn generate_monthly_kpi(
    developer_id: &str,
    month: i32,
    year: i32,
    developers: &Vec<Developer>,
    tickets: &Vec<Ticket>,
    bugs: &Vec<Bug>,
    history: &Vec<MonthlyKPI>,
    config: &KPIConfig,
) -> (r: Result<MonthlyKPI, String>)
    requires
        tickets.len() <= i32::MAX,
        bugs.len() <= i32::MAX,
    ensures
        match r {
            Ok(kpi) => {
                &&& developer_known(developers@, developer_id@)
                &&& is_report_from_history(
                    kpi,
                    developer_id@,
                    year as int,
                    month as int,
                    tickets@,
                    bugs@,
                    *config,
                    history@,
                )
                &&& no_report_of(history@, developer_id@, year as int, month as int)
                    ==> kpi.id@.len() == IDENTIFIER_LENGTH
                &&& forall|i: int|
                    first_report_of(history@, developer_id@, year as int, month as int, i)
                        ==> kpi.id == (#[trigger] history@[i]).id
            },
            Err(message) => {
                &&& !developer_known(developers@, developer_id@)
                &&& message@ == "Developer not found"@
            },
        },
{
    let reading = read_clock();
    build_monthly_kpi(
        new_identifier(),
        reading.timestamp,
        developer_id,
        month,
        year,
        developers,
        tickets,
        bugs,
        history,
        config,
    )
}

/// The month that a reading of the clock stands for: the number that its
/// month text writes, and 1 where it writes none.
pub open spec fn month_read(reading: ClockReading) -> int {
    match parsed_i32(reading.month@) {
        Some(month) => month as int,
        None => 1,
    }
}

/// The year that a reading of the clock stands for: the number that its year
/// text writes, and 2024 where it writes none.
pub open spec fn year_read(reading: ClockReading) -> int {
    match parsed_i32(reading.year@) {
        Some(year) => year as int,
        None => 2024,
    }
}

/// The identifier of a report that is computed for a purpose and not stored:
/// purpose, developer, year and month, with hyphens between them.
pub open spec fn unstored_id(purpose: Seq<char>, developer_id: Seq<char>, year: int, month: int) -> Seq<
    char,
> {
    purpose + "-"@ + developer_id + "-"@ + int_text(year) + "-"@ + int_text(month)
}

/// Writes the identifier of a report that is not stored.
pub fn unstored_id_text(purpose: &str, developer_id: &str, year: i32, month: i32) -> (id: String)
    ensures
        id@ == unstored_id(purpose@, developer_id@, year as int, month as int),
{
    let mut id = String::from_str(purpose);
    id.append("-");
    id.append(developer_id);
    id.append("-");
    id.append(int_to_text(year as i64).as_str());
    id.append("-");
    id.append(int_to_text(month as i64).as_str());
    id
}

/// Computes the report of the month in which the clock was read, without
/// storing anything: the same figures and scores as the stored report of
/// that month would have, under the identifier `preview-` with developer,
/// year and month.
pub fn preview_monthly_kpi(
    reading: ClockReading,
    developer_id: &str,
    developers: &Vec<Developer>,
    tickets: &Vec<Ticket>,
    bugs: &Vec<Bug>,
    history: &Vec<MonthlyKPI>,
    config: &KPIConfig,
) -> (r: Result<MonthlyKPI, String>)
    requires
        tickets.len() <= i32::MAX,
        bugs.len() <= i32::MAX,
    ensures
        match r {
            Ok(kpi) => {
                &&& developer_known(developers@, developer_id@)
                &&& kpi.generated_at == reading.timestamp
                &&& kpi.id@ == unstored_id(
                    "preview"@,
                    developer_id@,
                    year_read(reading),
                    month_read(reading),
                )
                &&& is_report_from_history(
                    kpi,
                    developer_id@,
                    year_read(reading),
                    month_read(reading),
                    tickets@,
                    bugs@,
                    *config,
                    history@,
                )
            },
            Err(message) => {
                &&& !developer_known(developers@, developer_id@)
                &&& message@ == "Developer not found"@
            },
        },
{
    let month: i32 = match parse_i32(reading.month.as_str()) {
        Some(month) => month,
        None => 1,
    };
    let year: i32 = match parse_i32(reading.year.as_str()) {
        Some(year) => year,
        None => 2024,
    };
    let prior = get_previous_scores(history, developer_id, month, year, TREND_MONTHS);
    compute_monthly_kpi(
        unstored_id_text("preview", developer_id, year, month),
        reading.timestamp,
        developer_id,
        month,
        year,
        developers,
        tickets,
        bugs,
        config,
        &prior,
    )
}

/// Computes the report of the current month without storing anything, for
/// display while the month is under way.
pub fn get_current_month_kpi(
    developer_id: &str,
    developers: &Vec<Developer>,
    tickets: &Vec<Ticket>,
    bugs: &Vec<Bug>,
    history: &Vec<MonthlyKPI>,
    config: &KPIConfig,
) -> (r: Result<MonthlyKPI, String>)
    requires
        tickets.len() <= i32::MAX,
        bugs.len() <= i32::MAX,
    ensures
        match r {
            Ok(kpi) => {
                &&& developer_known(developers@, developer_id@)
                &&& kpi.id@ == unstored_id(
                    "preview"@,
                    developer_id@,
                    kpi.year as int,
                    kpi.month as int,
                )
                &&& is_report_from_history(
                    kpi,
                    developer_id@,
                    kpi.year as int,
                    kpi.month as int,
                    tickets@,
                    bugs@,
                    *config,
                    history@,
                )
            },
            Err(message) => {
                &&& !developer_known(developers@, developer_id@)
                &&& message@ == "Developer not found"@
            },
        },
{
    preview_monthly_kpi(read_clock(), developer_id, developers, tickets, bugs, history, config)
}

/// The records determine the report of a month: two reports of one
/// developer's month, computed from the same tickets, bugs, configuration and
/// earlier scores, agree in every figure, rate, score and in the trend. They
/// may differ in their identifiers and in the time of their making only.
pub proof fn lemma_report_determined(
    first: MonthlyKPI,
    second: MonthlyKPI,
    developer_id: Seq<char>,
    year: int,
    month: int,
    tickets: Seq<Ticket>,
    bugs: Seq<Bug>,
    config: KPIConfig,
    prior_scores: Seq<Decimal>,
)
    requires
        is_monthly_kpi(first, developer_id, year, month, tickets, bugs, config, prior_scores),
        is_monthly_kpi(second, developer_id, year, month, tickets, bugs, config, prior_scores),
    ensures
        first.delivery_score == second.delivery_score,
        first.quality_score == second.quality_score,
        first.overall_score == second.overall_score,
        first.trend == second.trend,
        first.on_time_rate == second.on_time_rate,
        first.avg_delivery_time == second.avg_delivery_time,
        first.total_tickets == second.total_tickets,
        first.completed_tickets == second.completed_tickets,
        first.on_time_tickets == second.on_time_tickets,
        first.late_tickets == second.late_tickets,
        first.reopened_tickets == second.reopened_tickets,
        first.total_bugs == second.total_bugs,
        first.developer_error_bugs == second.developer_error_bugs,
        first.conceptual_bugs == second.conceptual_bugs,
        first.other_bugs == second.other_bugs,
{
}

/// A report that is only shown and a report that is stored, made from the
/// same records and the same history, carry the same scores and the same
/// trend.
pub proof fn lemma_preview_agrees_with_stored(
    preview: MonthlyKPI,
    stored: MonthlyKPI,
    developer_id: Seq<char>,
    year: int,
    month: int,
    tickets: Seq<Ticket>,
    bugs: Seq<Bug>,
    config: KPIConfig,
    history: Seq<MonthlyKPI>,
)
    requires
        is_report_from_history(preview, developer_id, year, month, tickets, bugs, config, history),
        is_report_from_history(stored, developer_id, year, month, tickets, bugs, config, history),
    ensures
        preview.delivery_score == stored.delivery_score,
        preview.quality_score == stored.quality_score,
        preview.overall_score == stored.overall_score,
        preview.trend == stored.trend,
{
    let a = choose|prior: Seq<Decimal>|
        #[trigger] are_previous_scores(
            prior,
            history,
            developer_id,
            year,
            month,
            TREND_MONTHS as int,
        ) && is_monthly_kpi(preview, developer_id, year, month, tickets, bugs, config, prior);
    let b = choose|prior: Seq<Decimal>|
        #[trigger] are_previous_scores(
            prior,
            history,
            developer_id,
            year,
            month,
            TREND_MONTHS as int,
        ) && is_monthly_kpi(stored, developer_id, year, month, tickets, bugs, config, prior);
    lemma_previous_scores_unique(a, b, history, developer_id, year, month, TREND_MONTHS as int);
}

/// Computing the report of a month again gives the same figures, rates,
/// scores and trend, as long as tickets, bugs and configuration are the same
/// and the history holds the same earlier reports of the developer. Reports
/// of the month itself or of later months, such as the one stored by the
/// first computation, make no difference.
pub proof fn lemma_report_repeats(
    first: MonthlyKPI,
    second: MonthlyKPI,
    developer_id: Seq<char>,
    year: int,
    month: int,
    tickets: Seq<Ticket>,
    bugs: Seq<Bug>,
    config: KPIConfig,
    history_before: Seq<MonthlyKPI>,
    history_after: Seq<MonthlyKPI>,
)
    requires
        same_earlier_rows(history_before, history_after, developer_id, year, month),
        is_report_from_history(
            first,
            developer_id,
            year,
            month,
            tickets,
            bugs,
            config,
            history_before,
        ),
        is_report_from_history(
            second,
            developer_id,
            year,
            month,
            tickets,
            bugs,
            config,
            history_after,
        ),
    ensures
        first.delivery_score == second.delivery_score,
        first.quality_score == second.quality_score,
        first.overall_score == second.overall_score,
        first.trend == second.trend,
        first.on_time_rate == second.on_time_rate,
        first.avg_delivery_time == second.avg_delivery_time,
        first.total_tickets == second.total_tickets,
        first.completed_tickets == second.completed_tickets,
        first.on_time_tickets == second.on_time_tickets,
        first.late_tickets == second.late_tickets,
        first.reopened_tickets == second.reopened_tickets,
        first.total_bugs == second.total_bugs,
        first.developer_error_bugs == second.developer_error_bugs,
        first.conceptual_bugs == second.conceptual_bugs,
        first.other_bugs == second.other_bugs,
{
    let a = choose|prior: Seq<Decimal>|
        #[trigger] are_previous_scores(
            prior,
            history_before,
            developer_id,
            year,
            month,
            TREND_MONTHS as int,
        ) && is_monthly_kpi(first, developer_id, year, month, tickets, bugs, config, prior);
    let b = choose|prior: Seq<Decimal>|
        #[trigger] are_previous_scores(
            prior,
            history_after,
            developer_id,
            year,
            month,
            TREND_MONTHS as int,
        ) && is_monthly_kpi(second, developer_id, year, month, tickets, bugs, config, prior);
    lemma_previous_scores_read_earlier_rows(
        a,
        history_before,
        history_after,
        developer_id,
        year,
        month,
        TREND_MONTHS as int,
    );
    lemma_previous_scores_unique(
        a,
        b,
        history_after,
        developer_id,
        year,
        month,
        TREND_MONTHS as int,
    );
}

/// The first report of a developer, with no earlier score to measure it
/// against, has the trend stable.
pub proof fn lemma_first_report_is_stable(
    kpi: MonthlyKPI,
    developer_id: Seq<char>,
    year: int,
    month: int,
    tickets: Seq<Ticket>,
    bugs: Seq<Bug>,
    config: KPIConfig,
)
    requires
        is_monthly_kpi(kpi, developer_id, year, month, tickets, bugs, config, Seq::empty()),
    ensures
        kpi.trend == Some(KPITrend::Stable),
{
}

/// The figures of a report hang together: the scores and the on-time rate lie
/// between 0 and 100 points, the tickets on time and the late ones make up
/// the completed ones, and no more tickets are completed than counted.
pub proof fn lemma_report_consistent(
    kpi: MonthlyKPI,
    developer_id: Seq<char>,
    year: int,
    month: int,
    tickets: Seq<Ticket>,
    bugs: Seq<Bug>,
    config: KPIConfig,
    prior_scores: Seq<Decimal>,
)
    requires
        is_monthly_kpi(kpi, developer_id, year, month, tickets, bugs, config, prior_scores),
    ensures
        0 <= kpi.delivery_score.units <= FULL_SCORE,
        0 <= kpi.quality_score.units <= FULL_SCORE,
        0 <= kpi.overall_score.units <= FULL_SCORE,
        0 <= kpi.on_time_rate.units <= FULL_SCORE,
        kpi.on_time_tickets + kpi.late_tickets == kpi.completed_tickets,
        kpi.completed_tickets <= kpi.total_tickets,
{
    lemma_ticket_counts(tickets, developer_id, year, month);
    if kpi.completed_tickets != 0 {
        lemma_round_div_range(
            kpi.on_time_tickets * 100 * SCALE,
            kpi.completed_tickets as int,
            FULL_SCORE as int,
        );
    }
}

} // verus!
