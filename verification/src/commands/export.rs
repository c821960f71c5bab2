//! The report of a month as a table for export: of one developer, stored or
//! computed, or of the whole team.

use crate::commands::metrics::{
    aggregate_bug_metrics, aggregate_ticket_metrics, bugs_in_period, bugs_of_other_type,
    bugs_of_type, tickets_completed, tickets_in_period, tickets_late, tickets_on_time,
    tickets_reopened,
};
use crate::commands::reports::{
    avg_delivery_time, avg_delivery_units, compute_monthly_kpi, delivery_score_of,
    developer_known, find_monthly_kpi, first_report_of, is_report_from_history, no_report_of,
    on_time_rate, overall_score_of, quality_score_of, report_of, unstored_id, unstored_id_text,
    TREND_MONTHS,
};
use crate::commands::history::get_previous_scores;
use crate::decimal::{lemma_round_div_range, round_div, two_decimals, Decimal};
use crate::models::bug::{Bug, BugType};
use crate::models::developer::Developer;
use crate::models::kpi::{KPIConfig, KPITrend, MonthlyKPI};
use crate::models::ticket::Ticket;
use crate::services::kpi_calculator::{
    calculate_delivery_score, calculate_overall_score, calculate_quality_score,
    on_time_rate_units, DeliveryMetrics, FULL_SCORE,
};
use crate::system::read_clock;
use crate::text::{int_text, int_to_text, same_text};
use vstd::prelude::*;
use vstd::string::*;

verus! {

/// A figure of a developer's month that a team report adds up.
pub enum Figure {
    TotalTickets,
    CompletedTickets,
    OnTimeTickets,
    LateTickets,
    ReopenedTickets,
    TotalBugs,
    DeveloperErrorBugs,
    ConceptualBugs,
    OtherBugs,
    DeliveryScore,
    QualityScore,
    OverallScore,
    /// The developer as such, to count developers.
    Head,
}

/// The value of a figure for one developer's month; scores are in units.
pub open spec fn figure_of(
    figure: Figure,
    developer_id: Seq<char>,
    year: int,
    month: int,
    tickets: Seq<Ticket>,
    bugs: Seq<Bug>,
    config: KPIConfig,
) -> int {
    match figure {
        Figure::TotalTickets => tickets_in_period(tickets, developer_id, year, month),
        Figure::CompletedTickets => tickets_completed(tickets, developer_id, year, month),
        Figure::OnTimeTickets => tickets_on_time(tickets, developer_id, year, month),
        Figure::LateTickets => tickets_late(tickets, developer_id, year, month),
        Figure::ReopenedTickets => tickets_reopened(tickets, developer_id, year, month),
        Figure::TotalBugs => bugs_in_period(bugs, developer_id, year, month),
        Figure::DeveloperErrorBugs => bugs_of_type(
            bugs,
            BugType::DeveloperError,
            developer_id,
            year,
            month,
        ),
        Figure::ConceptualBugs => bugs_of_type(
            bugs,
            BugType::Conceptual,
            developer_id,
            year,
            month,
        ),
        Figure::OtherBugs => bugs_of_other_type(bugs, developer_id, year, month),
        Figure::DeliveryScore => delivery_score_of(tickets, developer_id, year, month),
        Figure::QualityScore => quality_score_of(bugs, developer_id, year, month, config),
        Figure::OverallScore => overall_score_of(
            tickets,
            bugs,
            developer_id,
            year,
            month,
            config,
        ),
        Figure::Head => 1,
    }
}

/// A figure added up over the active developers of a list.
pub open spec fn team_sum(
    figure: Figure,
    developers: Seq<Developer>,
    year: int,
    month: int,
    tickets: Seq<Ticket>,
    bugs: Seq<Bug>,
    config: KPIConfig,
) -> int
    decreases developers.len(),
{
    if developers.len() == 0 {
        0
    } else {
        team_sum(figure, developers.drop_last(), year, month, tickets, bugs, config)
            + if developers.last().is_active {
            figure_of(figure, developers.last().id@, year, month, tickets, bugs, config)
        } else {
            0
        }
    }
}

/// How many developers of a list are active.
pub open spec fn active_count(developers: Seq<Developer>) -> int {
    team_sum(
        Figure::Head,
        developers,
        0,
        0,
        Seq::empty(),
        Seq::empty(),
        KPIConfig::standard(),
    )
}

/// The mean of a score over the active developers, in units.
pub open spec fn team_mean(
    figure: Figure,
    developers: Seq<Developer>,
    year: int,
    month: int,
    tickets: Seq<Ticket>,
    bugs: Seq<Bug>,
    config: KPIConfig,
) -> int {
    round_div(
        team_sum(figure, developers, year, month, tickets, bugs, config),
        active_count(developers),
    )
}

/// The identifier of a team report: `team`, year and month.
pub open spec fn team_id(year: int, month: int) -> Seq<char> {
    "team-"@ + int_text(year) + "-"@ + int_text(month)
}

/// The report of a month for the whole team: the figures of the active
/// developers added up, the rates taken from the sums, each score the mean of
/// the developers' scores, and no trend.
pub open spec fn is_team_kpi(
    kpi: MonthlyKPI,
    developers: Seq<Developer>,
    year: int,
    month: int,
    tickets: Seq<Ticket>,
    bugs: Seq<Bug>,
    config: KPIConfig,
) -> bool {
    &&& kpi.id@ == team_id(year, month)
    &&& kpi.developer_id@ == "all"@
    &&& kpi.month == month
    &&& kpi.year == year
    &&& kpi.total_tickets == team_sum(
        Figure::TotalTickets,
        developers,
        year,
        month,
        tickets,
        bugs,
        config,
    )
    &&& kpi.completed_tickets == team_sum(
        Figure::CompletedTickets,
        developers,
        year,
        month,
        tickets,
        bugs,
        config,
    )
    &&& kpi.on_time_tickets == team_sum(
        Figure::OnTimeTickets,
        developers,
        year,
        month,
        tickets,
        bugs,
        config,
    )
    &&& kpi.late_tickets == team_sum(
        Figure::LateTickets,
        developers,
        year,
        month,
        tickets,
        bugs,
        config,
    )
    &&& kpi.reopened_tickets == team_sum(
        Figure::ReopenedTickets,
        developers,
        year,
        month,
        tickets,
        bugs,
        config,
    )
    &&& kpi.on_time_rate.units == on_time_rate_units(
        kpi.on_time_tickets as int,
        kpi.completed_tickets as int,
    )
    &&& kpi.avg_delivery_time.units == avg_delivery_units(
        kpi.completed_tickets as int,
        kpi.completed_tickets as int,
    )
    &&& kpi.total_bugs == team_sum(
        Figure::TotalBugs,
        developers,
        year,
        month,
        tickets,
        bugs,
        config,
    )
    &&& kpi.developer_error_bugs == team_sum(
        Figure::DeveloperErrorBugs,
        developers,
        year,
        month,
        tickets,
        bugs,
        config,
    )
    &&& kpi.conceptual_bugs == team_sum(
        Figure::ConceptualBugs,
        developers,
        year,
        month,
        tickets,
        bugs,
        config,
    )
    &&& kpi.other_bugs == team_sum(
        Figure::OtherBugs,
        developers,
        year,
        month,
        tickets,
        bugs,
        config,
    )
    &&& kpi.delivery_score.units == team_mean(
        Figure::DeliveryScore,
        developers,
        year,
        month,
        tickets,
        bugs,
        config,
    )
    &&& kpi.quality_score.units == team_mean(
        Figure::QualityScore,
        developers,
        year,
        month,
        tickets,
        bugs,
        config,
    )
    &&& kpi.overall_score.units == team_mean(
        Figure::OverallScore,
        developers,
        year,
        month,
        tickets,
        bugs,
        config,
    )
    &&& kpi.trend is None
}

/// Sums kept while the developers of a team are gone through.
struct TeamTotals {
    active: i128,
    total_tickets: i128,
    completed_tickets: i128,
    on_time_tickets: i128,
    late_tickets: i128,
    reopened_tickets: i128,
    total_bugs: i128,
    developer_error_bugs: i128,
    conceptual_bugs: i128,
    other_bugs: i128,
    delivery_scores: i128,
    quality_scores: i128,
    overall_scores: i128,
}

impl TeamTotals {
    /// The sums are those of the given developers.
    spec fn describes(
        self,
        developers: Seq<Developer>,
        year: int,
        month: int,
        tickets: Seq<Ticket>,
        bugs: Seq<Bug>,
        config: KPIConfig,
    ) -> bool {
        &&& self.active == active_count(developers)
        &&& self.total_tickets == team_sum(
            Figure::TotalTickets,
            developers,
            year,
            month,
            tickets,
            bugs,
            config,
        )
        &&& self.completed_tickets == team_sum(
            Figure::CompletedTickets,
            developers,
            year,
            month,
            tickets,
            bugs,
            config,
        )
        &&& self.on_time_tickets == team_sum(
            Figure::OnTimeTickets,
            developers,
            year,
            month,
            tickets,
            bugs,
            config,
        )
        &&& self.late_tickets == team_sum(
            Figure::LateTickets,
            developers,
            year,
            month,
            tickets,
            bugs,
            config,
        )
        &&& self.reopened_tickets == team_sum(
            Figure::ReopenedTickets,
            developers,
            year,
            month,
            tickets,
            bugs,
            config,
        )
        &&& self.total_bugs == team_sum(
            Figure::TotalBugs,
            developers,
            year,
            month,
            tickets,
            bugs,
            config,
        )
        &&& self.developer_error_bugs == team_sum(
            Figure::DeveloperErrorBugs,
            developers,
            year,
            month,
            tickets,
            bugs,
            config,
        )
        &&& self.conceptual_bugs == team_sum(
            Figure::ConceptualBugs,
            developers,
            year,
            month,
            tickets,
            bugs,
            config,
        )
        &&& self.other_bugs == team_sum(
            Figure::OtherBugs,
            developers,
            year,
            month,
            tickets,
            bugs,
            config,
        )
        &&& self.delivery_scores == team_sum(
            Figure::DeliveryScore,
            developers,
            year,
            month,
            tickets,
            bugs,
            config,
        )
        &&& self.quality_scores == team_sum(
            Figure::QualityScore,
            developers,
            year,
            month,
            tickets,
            bugs,
            config,
        )
        &&& self.overall_scores == team_sum(
            Figure::OverallScore,
            developers,
            year,
            month,
            tickets,
            bugs,
            config,
        )
    }

    /// How the sums hang together after `seen` developers, none of whose
    /// figures is above what a count can hold.
    spec fn bounded(self, seen: int) -> bool {
        &&& 0 <= self.active <= seen
        &&& 0 <= self.on_time_tickets <= self.completed_tickets <= self.total_tickets <= seen
            * i32::MAX
        &&& 0 <= self.late_tickets
        &&& self.on_time_tickets + self.late_tickets == self.completed_tickets
        &&& 0 <= self.reopened_tickets <= self.total_tickets
        &&& 0 <= self.developer_error_bugs <= self.total_bugs <= seen * i32::MAX
        &&& 0 <= self.conceptual_bugs <= self.total_bugs
        &&& 0 <= self.other_bugs <= self.total_bugs
        &&& 0 <= self.delivery_scores <= self.active * FULL_SCORE
        &&& 0 <= self.quality_scores <= self.active * FULL_SCORE
        &&& 0 <= self.overall_scores <= self.active * FULL_SCORE
    }
}

/// The figures of the team are within what the counts of a report can hold:
/// the tickets and the bugs that count for the month, added up over the
/// active developers, are each at most `i32::MAX`. All other counts of the
/// report are parts of these two.
pub open spec fn team_figures_fit(
    developers: Seq<Developer>,
    year: int,
    month: int,
    tickets: Seq<Ticket>,
    bugs: Seq<Bug>,
) -> bool {
    &&& team_sum(
        Figure::TotalTickets,
        developers,
        year,
        month,
        tickets,
        bugs,
        KPIConfig::standard(),
    ) <= i32::MAX
    &&& team_sum(Figure::TotalBugs, developers, year, month, tickets, bugs, KPIConfig::standard())
        <= i32::MAX
}

/// A count of tickets or bugs does not depend on the configuration.
pub proof fn lemma_counts_ignore_config(
    figure: Figure,
    developers: Seq<Developer>,
    year: int,
    month: int,
    tickets: Seq<Ticket>,
    bugs: Seq<Bug>,
    first: KPIConfig,
    second: KPIConfig,
)
    requires
        !(figure is DeliveryScore),
        !(figure is QualityScore),
        !(figure is OverallScore),
    ensures
        team_sum(figure, developers, year, month, tickets, bugs, first) == team_sum(
            figure,
            developers,
            year,
            month,
            tickets,
            bugs,
            second,
        ),
    decreases developers.len(),
{
    if developers.len() > 0 {
        lemma_counts_ignore_config(
            figure,
            developers.drop_last(),
            year,
            month,
            tickets,
            bugs,
            first,
            second,
        );
    }
}

/// Adds up the month of every active developer.
fn team_totals(
    developers: &Vec<Developer>,
    month: i32,
    year: i32,
    tickets: &Vec<Ticket>,
    bugs: &Vec<Bug>,
    config: &KPIConfig,
) -> (totals: TeamTotals)
    requires
        tickets.len() <= i32::MAX,
        bugs.len() <= i32::MAX,
    ensures
        totals.describes(developers@, year as int, month as int, tickets@, bugs@, *config),
        totals.bounded(developers.len() as int),
{
    let mut totals = TeamTotals {
        active: 0,
        total_tickets: 0,
        completed_tickets: 0,
        on_time_tickets: 0,
        late_tickets: 0,
        reopened_tickets: 0,
        total_bugs: 0,
        developer_error_bugs: 0,
        conceptual_bugs: 0,
        other_bugs: 0,
        delivery_scores: 0,
        quality_scores: 0,
        overall_scores: 0,
    };
    let ghost y = year as int;
    let ghost m = month as int;
    let mut i: usize = 0;
    while i < developers.len()
        invariant
            i <= developers.len(),
            tickets.len() <= i32::MAX,
            bugs.len() <= i32::MAX,
            y == year as int,
            m == month as int,
            totals.describes(developers@.take(i as int), y, m, tickets@, bugs@, *config),
            totals.bounded(i as int),
        decreases developers.len() - i,
    {
        let developer = &developers[i];
        assert(developers@.take(i + 1).drop_last() =~= developers@.take(i as int));
        assert(developers@.take(i + 1).last() == *developer);
        if developer.is_active {
            let ticket_metrics = aggregate_ticket_metrics(
                tickets,
                developer.id.as_str(),
                month,
                year,
            );
            let bug_metrics = aggregate_bug_metrics(bugs, developer.id.as_str(), month, year);
            let delivery_metrics = DeliveryMetrics {
                completed_tickets: ticket_metrics.completed_tickets,
                on_time_tickets: ticket_metrics.on_time_tickets,
                early_deliveries: ticket_metrics.early_deliveries,
                late_critical_tickets: ticket_metrics.late_critical_tickets,
                reopened_tickets: ticket_metrics.reopened_tickets,
            };
            let delivery = calculate_delivery_score(&delivery_metrics);
            let quality = calculate_quality_score(
                &bug_metrics.dev_error_by_severity,
                bug_metrics.conceptual_bugs,
                config,
            );
            let overall = calculate_overall_score(delivery, quality, config);
            totals.active += 1;
            totals.total_tickets += ticket_metrics.total_tickets as i128;
            totals.completed_tickets += ticket_metrics.completed_tickets as i128;
            totals.on_time_tickets += ticket_metrics.on_time_tickets as i128;
            totals.late_tickets += ticket_metrics.late_tickets as i128;
            totals.reopened_tickets += ticket_metrics.reopened_tickets as i128;
            totals.total_bugs += bug_metrics.total_bugs as i128;
            totals.developer_error_bugs += bug_metrics.developer_error_bugs as i128;
            totals.conceptual_bugs += bug_metrics.conceptual_bugs as i128;
            totals.other_bugs += bug_metrics.other_bugs as i128;
            totals.delivery_scores += delivery.units as i128;
            totals.quality_scores += quality.units as i128;
            totals.overall_scores += overall.units as i128;
        }
        i += 1;
    }
    assert(developers@.take(developers.len() as int) =~= developers@);
    totals
}

/// Writes the identifier of a team report.
fn team_id_text(year: i32, month: i32) -> (id: String)
    ensures
        id@ == team_id(year as int, month as int),
{
    let mut id = String::from_str("team-");
    id.append(int_to_text(year as i64).as_str());
    id.append("-");
    id.append(int_to_text(month as i64).as_str());
    id
}

/// The mean of a sum of scores over `count` developers.
fn mean_score(sum: i128, count: i128) -> (mean: Decimal)
    requires
        0 < count <= usize::MAX,
        0 <= sum <= count * FULL_SCORE,
    ensures
        mean.units == round_div(sum as int, count as int),
        0 <= mean.units <= FULL_SCORE,
{
    proof {
        lemma_round_div_range(sum as int, count as int, FULL_SCORE as int);
    }
    Decimal { units: ((2 * sum + count) / (2 * count)) as i32 }
}

/// Whether the figures of the team are within what the counts of a report
/// can hold.
pub fn team_sums_fit(
    developers: &Vec<Developer>,
    month: i32,
    year: i32,
    tickets: &Vec<Ticket>,
    bugs: &Vec<Bug>,
) -> (fit: bool)
    requires
        tickets.len() <= i32::MAX,
        bugs.len() <= i32::MAX,
    ensures
        fit == team_figures_fit(developers@, year as int, month as int, tickets@, bugs@),
{
    let config = KPIConfig::default();
    let totals = team_totals(developers, month, year, tickets, bugs, &config);
    totals.total_tickets <= i32::MAX as i128 && totals.total_bugs <= i32::MAX as i128
}

/// Computes the report of a month for the whole team. There must be an
/// active developer, and the tickets and bugs of the team must be no more
/// than a count can hold, which [`team_sums_fit`] tells.
pub fn team_monthly_kpi(
    generated_at: String,
    month: i32,
    year: i32,
    developers: &Vec<Developer>,
    tickets: &Vec<Ticket>,
    bugs: &Vec<Bug>,
    config: &KPIConfig,
) -> (r: Result<MonthlyKPI, String>)
    requires
        tickets.len() <= i32::MAX,
        bugs.len() <= i32::MAX,
        team_figures_fit(developers@, year as int, month as int, tickets@, bugs@),
    ensures
        match r {
            Ok(kpi) => {
                &&& active_count(developers@) > 0
                &&& kpi.generated_at == generated_at
                &&& is_team_kpi(
                    kpi,
                    developers@,
                    year as int,
                    month as int,
                    tickets@,
                    bugs@,
                    *config,
                )
            },
            Err(message) => {
                &&& active_count(developers@) == 0
                &&& message@ == "No active developers found"@
            },
        },
{
    let totals = team_totals(developers, month, year, tickets, bugs, config);
    if totals.active == 0 {
        return Err(String::from_str("No active developers found"));
    }
    proof {
        lemma_counts_ignore_config(
            Figure::TotalTickets,
            developers@,
            year as int,
            month as int,
            tickets@,
            bugs@,
            *config,
            KPIConfig::standard(),
        );
        lemma_counts_ignore_config(
            Figure::TotalBugs,
            developers@,
            year as int,
            month as int,
            tickets@,
            bugs@,
            *config,
            KPIConfig::standard(),
        );
    }
    let on_time_tickets = totals.on_time_tickets as i32;
    let completed_tickets = totals.completed_tickets as i32;
    Ok(
        MonthlyKPI {
            id: team_id_text(year, month),
            developer_id: String::from_str("all"),
            month,
            year,
            total_tickets: totals.total_tickets as i32,
            completed_tickets,
            on_time_tickets,
            late_tickets: totals.late_tickets as i32,
            reopened_tickets: totals.reopened_tickets as i32,
            on_time_rate: on_time_rate(
                on_time_tickets,
                completed_tickets,
            ),
            avg_delivery_time: avg_delivery_time(
                completed_tickets,
                completed_tickets,
            ),
            total_bugs: totals.total_bugs as i32,
            developer_error_bugs: totals.developer_error_bugs as i32,
            conceptual_bugs: totals.conceptual_bugs as i32,
            other_bugs: totals.other_bugs as i32,
            delivery_score: mean_score(totals.delivery_scores, totals.active),
            quality_score: mean_score(totals.quality_scores, totals.active),
            overall_score: mean_score(totals.overall_scores, totals.active),
            trend: None,
            generated_at,
        },
    )
}

/// A report without figures: the report that is exported for a developer who
/// is not on record. All counts, rates and scores are 0, it has no trend, and
/// the time of its making is empty.
pub open spec fn is_blank_report(
    kpi: MonthlyKPI,
    id: Seq<char>,
    developer_id: Seq<char>,
    year: int,
    month: int,
) -> bool {
    &&& kpi.id@ == id
    &&& kpi.developer_id@ == developer_id
    &&& kpi.month == month
    &&& kpi.year == year
    &&& kpi.total_tickets == 0
    &&& kpi.completed_tickets == 0
    &&& kpi.on_time_tickets == 0
    &&& kpi.late_tickets == 0
    &&& kpi.reopened_tickets == 0
    &&& kpi.on_time_rate.units == 0
    &&& kpi.avg_delivery_time.units == 0
    &&& kpi.total_bugs == 0
    &&& kpi.developer_error_bugs == 0
    &&& kpi.conceptual_bugs == 0
    &&& kpi.other_bugs == 0
    &&& kpi.delivery_score.units == 0
    &&& kpi.quality_score.units == 0
    &&& kpi.overall_score.units == 0
    &&& kpi.trend is None
    &&& kpi.generated_at@ == Seq::<char>::empty()
}

/// A report without figures.
fn blank_report(id: String, developer_id: &str, year: i32, month: i32) -> (kpi: MonthlyKPI)
    ensures
        is_blank_report(kpi, id@, developer_id@, year as int, month as int),
{
    let zero = Decimal { units: 0 };
    MonthlyKPI {
        id,
        developer_id: developer_id.to_owned(),
        month,
        year,
        total_tickets: 0,
        completed_tickets: 0,
        on_time_tickets: 0,
        late_tickets: 0,
        reopened_tickets: 0,
        on_time_rate: zero,
        avg_delivery_time: zero,
        total_bugs: 0,
        developer_error_bugs: 0,
        conceptual_bugs: 0,
        other_bugs: 0,
        delivery_score: zero,
        quality_score: zero,
        overall_score: zero,
        trend: None,
        generated_at: String::new(),
    }
}

/// A copy of a report.
pub fn copy_report(kpi: &MonthlyKPI) -> (copy: MonthlyKPI)
    ensures
        copy == *kpi,
{
    MonthlyKPI {
        id: kpi.id.clone(),
        developer_id: kpi.developer_id.clone(),
        month: kpi.month,
        year: kpi.year,
        total_tickets: kpi.total_tickets,
        completed_tickets: kpi.completed_tickets,
        on_time_tickets: kpi.on_time_tickets,
        late_tickets: kpi.late_tickets,
        reopened_tickets: kpi.reopened_tickets,
        on_time_rate: kpi.on_time_rate,
        avg_delivery_time: kpi.avg_delivery_time,
        total_bugs: kpi.total_bugs,
        developer_error_bugs: kpi.developer_error_bugs,
        conceptual_bugs: kpi.conceptual_bugs,
        other_bugs: kpi.other_bugs,
        delivery_score: kpi.delivery_score,
        quality_score: kpi.quality_score,
        overall_score: kpi.overall_score,
        trend: kpi.trend,
        generated_at: kpi.generated_at.clone(),
    }
}

/// The report that is exported for a month.
///
/// For a developer it is the stored report of the month, the first in the
/// history, where there is one. Where there is none, it is computed under the
/// identifier `export-` with developer, year and month; and for a developer
/// who is not on record it is a report without figures. Without a developer
/// it is the report of the team, which needs an active developer.
pub open spec fn is_export_report(
    kpi: MonthlyKPI,
    generated_at: String,
    developer_id: Option<Seq<char>>,
    year: int,
    month: int,
    developers: Seq<Developer>,
    tickets: Seq<Ticket>,
    bugs: Seq<Bug>,
    history: Seq<MonthlyKPI>,
    config: KPIConfig,
) -> bool {
    match developer_id {
        Some(dev) => {
            &&& forall|i: int|
                first_report_of(history, dev, year, month, i) ==> kpi == #[trigger] history[i]
            &&& no_report_of(history, dev, year, month) && !developer_known(developers, dev)
                ==> is_blank_report(kpi, unstored_id("export"@, dev, year, month), dev, year, month)
            &&& no_report_of(history, dev, year, month) && developer_known(developers, dev) ==> {
                &&& kpi.id@ == unstored_id("export"@, dev, year, month)
                &&& kpi.generated_at == generated_at
                &&& is_report_from_history(kpi, dev, year, month, tickets, bugs, config, history)
            }
        },
        None => {
            &&& active_count(developers) > 0
            &&& kpi.generated_at == generated_at
            &&& is_team_kpi(kpi, developers, year, month, tickets, bugs, config)
        },
    }
}

/// The developer that an export is asked for, as a sequence of characters.
pub open spec fn chosen(developer_id: Option<&str>) -> Option<Seq<char>> {
    match developer_id {
        Some(dev) => Some(dev@),
        None => None,
    }
}

/// The text is the table of the report that is exported for a month.
pub open spec fn is_export_csv(
    csv: Seq<char>,
    generated_at: String,
    developer_id: Option<Seq<char>>,
    year: int,
    month: int,
    developers: Seq<Developer>,
    tickets: Seq<Ticket>,
    bugs: Seq<Bug>,
    history: Seq<MonthlyKPI>,
    config: KPIConfig,
) -> bool {
    exists|kpi: MonthlyKPI|
        #[trigger] is_export_report(
            kpi,
            generated_at,
            developer_id,
            year,
            month,
            developers,
            tickets,
            bugs,
            history,
            config,
        ) && csv == csv_text(kpi)
}

/// Picks or computes the report that is exported for a month; see
/// [`is_export_report`]. The only failure is a team without an active
/// developer.
pub fn monthly_kpi_for_export(
    generated_at: String,
    developer_id: Option<&str>,
    month: i32,
    year: i32,
    developers: &Vec<Developer>,
    tickets: &Vec<Ticket>,
    bugs: &Vec<Bug>,
    history: &Vec<MonthlyKPI>,
    config: &KPIConfig,
) -> (r: Result<MonthlyKPI, String>)
    requires
        tickets.len() <= i32::MAX,
        bugs.len() <= i32::MAX,
        developer_id is None ==> team_figures_fit(
            developers@,
            year as int,
            month as int,
            tickets@,
            bugs@,
        ),
    ensures
        match r {
            Ok(kpi) => is_export_report(
                kpi,
                generated_at,
                chosen(developer_id),
                year as int,
                month as int,
                developers@,
                tickets@,
                bugs@,
                history@,
                *config,
            ),
            Err(message) => {
                &&& developer_id is None
                &&& active_count(developers@) == 0
                &&& message@ == "No active developers found"@
            },
        },
{
    match developer_id {
        Some(dev) => {
            match find_monthly_kpi(history, dev, month, year) {
                Some(i) => Ok(copy_report(&history[i])),
                None => {
                    let id = unstored_id_text("export", dev, year, month);
                    let prior = get_previous_scores(history, dev, month, year, TREND_MONTHS);
                    match compute_monthly_kpi(
                        id,
                        generated_at,
                        dev,
                        month,
                        year,
                        developers,
                        tickets,
                        bugs,
                        config,
                        &prior,
                    ) {
                        Ok(kpi) => Ok(kpi),
                        Err(_) => Ok(
                            blank_report(
                                unstored_id_text("export", dev, year, month),
                                dev,
                                year,
                                month,
                            ),
                        ),
                    }
                },
            }
        },
        None => team_monthly_kpi(generated_at, month, year, developers, tickets, bugs, config),
    }
}

/// The English name of a month, December for any number above 11.
pub open spec fn month_name(month: int) -> Seq<char> {
    if month == 1 {
        "January"@
    } else if month == 2 {
        "February"@
    } else if month == 3 {
        "March"@
    } else if month == 4 {
        "April"@
    } else if month == 5 {
        "May"@
    } else if month == 6 {
        "June"@
    } else if month == 7 {
        "July"@
    } else if month == 8 {
        "August"@
    } else if month == 9 {
        "September"@
    } else if month == 10 {
        "October"@
    } else if month == 11 {
        "November"@
    } else {
        "December"@
    }
}

/// The English name of a month.
pub fn month_name_text(month: i32) -> (name: &'static str)
    requires
        1 <= month <= 12,
    ensures
        name@ == month_name(month as int),
{
    if month == 1 {
        "January"
    } else if month == 2 {
        "February"
    } else if month == 3 {
        "March"
    } else if month == 4 {
        "April"
    } else if month == 5 {
        "May"
    } else if month == 6 {
        "June"
    } else if month == 7 {
        "July"
    } else if month == 8 {
        "August"
    } else if month == 9 {
        "September"
    } else if month == 10 {
        "October"
    } else if month == 11 {
        "November"
    } else {
        "December"
    }
}

/// The developer as a report names it: the team for the identifier `all`,
/// the identifier itself otherwise.
pub open spec fn shown_developer(developer_id: Seq<char>) -> Seq<char> {
    if developer_id == "all"@ {
        "All Developers (Team)"@
    } else {
        developer_id
    }
}

/// The lines above the table of a report: title, period, developer and time
/// of making, an empty line, and the names of the two columns.
pub open spec fn csv_heading(kpi: MonthlyKPI) -> Seq<char> {
    "KPI Report\n"@ + "Period: "@ + month_name(kpi.month as int) + " "@ + int_text(kpi.year as int)
        + "\n"@ + "Developer: "@ + shown_developer(kpi.developer_id@) + "\n"@ + "Generated: "@
        + kpi.generated_at@ + "\n\n"@ + "Metric,Value\n"@
}

/// One line of the table: a metric and its value.
pub open spec fn csv_row(metric: Seq<char>, value: Seq<char>) -> Seq<char> {
    metric + ","@ + value + "\n"@
}

/// The line of the trend, which a report without a trend does not have.
pub open spec fn csv_trend_row(trend: Option<KPITrend>) -> Seq<char> {
    match trend {
        Some(t) => csv_row("Trend"@, t.name()),
        None => Seq::empty(),
    }
}

/// A report as a table of comma-separated values: the heading, then one line
/// for each figure. Counts are written as integers; rates and scores with two
/// fractional digits and a percent sign; the delivery time with two
/// fractional digits and the word `days`.
pub open spec fn csv_text(kpi: MonthlyKPI) -> Seq<char> {
    csv_heading(kpi) + csv_row("Total Tickets"@, int_text(kpi.total_tickets as int)) + csv_row(
        "Completed Tickets"@,
        int_text(kpi.completed_tickets as int),
    ) + csv_row("On-Time Tickets"@, int_text(kpi.on_time_tickets as int)) + csv_row(
        "Late Tickets"@,
        int_text(kpi.late_tickets as int),
    ) + csv_row("Reopened Tickets"@, int_text(kpi.reopened_tickets as int)) + csv_row(
        "On-Time Rate"@,
        two_decimals(kpi.on_time_rate.units as int) + "%"@,
    ) + csv_row("Avg Delivery Time"@, two_decimals(kpi.avg_delivery_time.units as int) + " days"@)
        + csv_row("Total Bugs"@, int_text(kpi.total_bugs as int)) + csv_row(
        "Developer Error Bugs"@,
        int_text(kpi.developer_error_bugs as int),
    ) + csv_row("Conceptual Bugs"@, int_text(kpi.conceptual_bugs as int)) + csv_row(
        "Other Bugs"@,
        int_text(kpi.other_bugs as int),
    ) + csv_row("Delivery Score"@, two_decimals(kpi.delivery_score.units as int) + "%"@)
        + csv_row("Quality Score"@, two_decimals(kpi.quality_score.units as int) + "%"@) + csv_row(
        "Overall Score"@,
        two_decimals(kpi.overall_score.units as int) + "%"@,
    ) + csv_trend_row(kpi.trend)
}

/// Appends a line of the table.
fn push_row(out: &mut String, metric: &str, value: &str)
    ensures
        final(out)@ == old(out)@ + csv_row(metric@, value@),
{
    let mut row = String::from_str(metric);
    row.append(",");
    row.append(value);
    row.append("\n");
    out.append(row.as_str());
}

/// Appends a line of the table whose value is a count.
fn push_count_row(out: &mut String, metric: &str, count: i32)
    ensures
        final(out)@ == old(out)@ + csv_row(metric@, int_text(count as int)),
{
    push_row(out, metric, int_to_text(count as i64).as_str());
}

/// Appends a line of the table whose value is a decimal with a unit.
fn push_decimal_row(out: &mut String, metric: &str, value: Decimal, unit: &str)
    ensures
        final(out)@ == old(out)@ + csv_row(metric@, two_decimals(value.units as int) + unit@),
{
    let mut written = value.to_fixed2();
    written.append(unit);
    push_row(out, metric, written.as_str());
}

/// Writes a report as a table of comma-separated values.
pub fn render_kpi_csv(kpi: &MonthlyKPI) -> (csv: String)
    requires
        1 <= kpi.month <= 12,
    ensures
        csv@ == csv_text(*kpi),
{
    let mut csv = String::from_str("KPI Report\n");
    csv.append("Period: ");
    csv.append(month_name_text(kpi.month));
    csv.append(" ");
    csv.append(int_to_text(kpi.year as i64).as_str());
    csv.append("\n");
    csv.append("Developer: ");
    if same_text(kpi.developer_id.as_str(), "all") {
        csv.append("All Developers (Team)");
    } else {
        csv.append(kpi.developer_id.as_str());
    }
    csv.append("\n");
    csv.append("Generated: ");
    csv.append(kpi.generated_at.as_str());
    csv.append("\n\n");
    csv.append("Metric,Value\n");
    assert(csv@ == csv_heading(*kpi));
    push_count_row(&mut csv, "Total Tickets", kpi.total_tickets);
    push_count_row(&mut csv, "Completed Tickets", kpi.completed_tickets);
    push_count_row(&mut csv, "On-Time Tickets", kpi.on_time_tickets);
    push_count_row(&mut csv, "Late Tickets", kpi.late_tickets);
    push_count_row(&mut csv, "Reopened Tickets", kpi.reopened_tickets);
    push_decimal_row(&mut csv, "On-Time Rate", kpi.on_time_rate, "%");
    push_decimal_row(&mut csv, "Avg Delivery Time", kpi.avg_delivery_time, " days");
    push_count_row(&mut csv, "Total Bugs", kpi.total_bugs);
    push_count_row(&mut csv, "Developer Error Bugs", kpi.developer_error_bugs);
    push_count_row(&mut csv, "Conceptual Bugs", kpi.conceptual_bugs);
    push_count_row(&mut csv, "Other Bugs", kpi.other_bugs);
    push_decimal_row(&mut csv, "Delivery Score", kpi.delivery_score, "%");
    push_decimal_row(&mut csv, "Quality Score", kpi.quality_score, "%");
    push_decimal_row(&mut csv, "Overall Score", kpi.overall_score, "%");
    let ghost rows = csv@;
    match kpi.trend {
        Some(trend) => {
            push_row(&mut csv, "Trend", trend.as_str());
        },
        None => {
            assert(csv@ =~= rows + csv_trend_row(kpi.trend));
        },
    }
    csv
}

/// Exports the report of a month as a table of comma-separated values, made
/// at the given time; see [`is_export_report`] for which report that is.
pub fn export_csv_at(
    generated_at: String,
    developer_id: Option<&str>,
    month: i32,
    year: i32,
    developers: &Vec<Developer>,
    tickets: &Vec<Ticket>,
    bugs: &Vec<Bug>,
    history: &Vec<MonthlyKPI>,
    config: &KPIConfig,
) -> (r: Result<String, String>)
    requires
        1 <= month <= 12,
        tickets.len() <= i32::MAX,
        bugs.len() <= i32::MAX,
        developer_id is None ==> team_figures_fit(
            developers@,
            year as int,
            month as int,
            tickets@,
            bugs@,
        ),
    ensures
        match r {
            Ok(csv) => is_export_csv(
                csv@,
                generated_at,
                chosen(developer_id),
                year as int,
                month as int,
                developers@,
                tickets@,
                bugs@,
                history@,
                *config,
            ),
            Err(message) => {
                &&& developer_id is None
                &&& active_count(developers@) == 0
                &&& message@ == "No active developers found"@
            },
        },
{
    let ghost made = generated_at;
    match monthly_kpi_for_export(
        generated_at,
        developer_id,
        month,
        year,
        developers,
        tickets,
        bugs,
        history,
        config,
    ) {
        Ok(kpi) => {
            proof {
                lemma_export_month(
                    kpi,
                    made,
                    chosen(developer_id),
                    year as int,
                    month as int,
                    developers@,
                    tickets@,
                    bugs@,
                    history@,
                    *config,
                );
            }
            Ok(render_kpi_csv(&kpi))
        },
        Err(message) => Err(message),
    }
}

/// The report that is exported for a month is of that month.
pub proof fn lemma_export_month(
    kpi: MonthlyKPI,
    generated_at: String,
    developer_id: Option<Seq<char>>,
    year: int,
    month: int,
    developers: Seq<Developer>,
    tickets: Seq<Ticket>,
    bugs: Seq<Bug>,
    history: Seq<MonthlyKPI>,
    config: KPIConfig,
)
    requires
        is_export_report(
            kpi,
            generated_at,
            developer_id,
            year,
            month,
            developers,
            tickets,
            bugs,
            history,
            config,
        ),
    ensures
        kpi.month == month,
        kpi.year == year,
{
    match developer_id {
        Some(dev) => {
            if no_report_of(history, dev, year, month) {
            } else {
                let i = choose|i: int|
                    0 <= i < history.len() && report_of(#[trigger] history[i], dev, year, month);
                lemma_first_report_exists(history, dev, year, month, i);
                let f = choose|f: int| first_report_of(history, dev, year, month, f);
                assert(kpi == history[f]);
            }
        },
        None => {},
    }
}

/// Where a history holds a report of a developer's month, it holds a first
/// one.
pub proof fn lemma_first_report_exists(
    history: Seq<MonthlyKPI>,
    developer_id: Seq<char>,
    year: int,
    month: int,
    i: int,
)
    requires
        0 <= i < history.len(),
        report_of(history[i], developer_id, year, month),
    ensures
        exists|f: int| first_report_of(history, developer_id, year, month, f),
    decreases i,
{
    if exists|j: int| 0 <= j < i && report_of(#[trigger] history[j], developer_id, year, month) {
        let j = choose|j: int|
            0 <= j < i && report_of(#[trigger] history[j], developer_id, year, month);
        lemma_first_report_exists(history, developer_id, year, month, j);
    } else {
        assert(first_report_of(history, developer_id, year, month, i));
    }
}

/// Exports the report of a month as a table of comma-separated values: of a
/// developer, or of the whole team where no developer is given.
pub fn export_monthly_kpi_csv(
    developer_id: Option<&str>,
    month: i32,
    year: i32,
    developers: &Vec<Developer>,
    tickets: &Vec<Ticket>,
    bugs: &Vec<Bug>,
    history: &Vec<MonthlyKPI>,
    config: &KPIConfig,
) -> (r: Result<String, String>)
    requires
        1 <= month <= 12,
        tickets.len() <= i32::MAX,
        bugs.len() <= i32::MAX,
        developer_id is None ==> team_figures_fit(
            developers@,
            year as int,
            month as int,
            tickets@,
            bugs@,
        ),
    ensures
        match r {
            Ok(csv) => exists|generated_at: String|
                #[trigger] is_export_csv(
                    csv@,
                    generated_at,
                    chosen(developer_id),
                    year as int,
                    month as int,
                    developers@,
                    tickets@,
                    bugs@,
                    history@,
                    *config,
                ),
            Err(message) => {
                &&& developer_id is None
                &&& active_count(developers@) == 0
                &&& message@ == "No active developers found"@
            },
        },
{
    let reading = read_clock();
    export_csv_at(
        reading.timestamp,
        developer_id,
        month,
        year,
        developers,
        tickets,
        bugs,
        history,
        config,
    )
}

} // verus!
