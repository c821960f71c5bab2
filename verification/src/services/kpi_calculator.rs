//! Delivery, quality and overall scores, and the trend of a score.
//!
//! A score is a [`Decimal`] between 0 and 100 points. The formulas are stated
//! over whole numbers of ten-thousandths of a point; where a formula divides,
//! the quotient is rounded to the nearest ten-thousandth, a tie going up.

use crate::decimal::{clamp, div_round, product, round_div, Decimal, SCALE};
use crate::models::kpi::{KPIConfig, KPITrend};
use vstd::prelude::*;

verus! {

/// The best score, 100 points, in units.
pub const FULL_SCORE: i32 = 1_000_000;

/// Points given for each ticket delivered before its due date.
pub const EARLY_BONUS: i32 = 5;

/// Points taken for each critical ticket delivered late.
pub const LATE_CRITICAL_PENALTY: i32 = 10;

/// Points taken for each reopened ticket.
pub const REOPEN_PENALTY: i32 = 5;

/// Points taken for each conceptual bug.
pub const CONCEPTUAL_PENALTY: i32 = 3;

/// Distance in points from the average of earlier scores beyond which a score
/// counts as a change of direction.
pub const TREND_THRESHOLD: i32 = 5;

/// Bugs caused by a developer's own mistake, counted by severity.
#[derive(Debug, Clone, Copy, PartialEq, Eq, Structural)]
pub struct BugCounts {
    pub critical: i32,
    pub high: i32,
    pub medium: i32,
    pub low: i32,
}

impl Default for BugCounts {
    fn default() -> (r: BugCounts)
        ensures
            r == (BugCounts { critical: 0, high: 0, medium: 0, low: 0 }),
    {
        BugCounts { critical: 0, high: 0, medium: 0, low: 0 }
    }
}

/// The ticket counts that the delivery score is computed from.
#[derive(Debug, Clone, Copy, PartialEq, Eq, Structural)]
pub struct DeliveryMetrics {
    pub completed_tickets: i32,
    pub on_time_tickets: i32,
    pub early_deliveries: i32,
    pub late_critical_tickets: i32,
    pub reopened_tickets: i32,
}

/// A number of units limited to the range of a score.
pub open spec fn clamp_score(units: int) -> int {
    clamp(units, 0, FULL_SCORE as int)
}

/// The share of completed tickets that were on time, as a percentage in
/// units; 100 where nothing was completed.
pub open spec fn on_time_rate_units(on_time: int, completed: int) -> int {
    if completed == 0 {
        FULL_SCORE as int
    } else {
        round_div(on_time * 100 * SCALE, completed)
    }
}

/// The delivery score in units: the on-time percentage, plus 5 points for
/// each early delivery, minus 10 for each late critical ticket and 5 for each
/// reopened one, limited to 0..100. With nothing completed it is 100.
pub open spec fn delivery_units(
    completed: int,
    on_time: int,
    early: int,
    late_critical: int,
    reopened: int,
) -> int {
    if completed == 0 {
        FULL_SCORE as int
    } else {
        clamp_score(
            on_time_rate_units(on_time, completed) + SCALE * (EARLY_BONUS * early
                - LATE_CRITICAL_PENALTY * late_critical - REOPEN_PENALTY * reopened),
        )
    }
}

/// The delivery score of a month's ticket counts, in units.
pub open spec fn delivery_score_units(m: DeliveryMetrics) -> int {
    delivery_units(
        m.completed_tickets as int,
        m.on_time_tickets as int,
        m.early_deliveries as int,
        m.late_critical_tickets as int,
        m.reopened_tickets as int,
    )
}

/// What the bugs of a month take off the quality score, in units: each count
/// of a developer's own errors times the penalty of its severity, and 3
/// points for each conceptual bug.
pub open spec fn quality_deduction_units(
    critical: int,
    high: int,
    medium: int,
    low: int,
    conceptual: int,
    config: KPIConfig,
) -> int {
    critical * config.bug_penalties.critical.units + high * config.bug_penalties.high.units
        + medium * config.bug_penalties.medium.units + low * config.bug_penalties.low.units
        + conceptual * (CONCEPTUAL_PENALTY * SCALE)
}

/// The quality score in units: 100 points less the deduction, limited to
/// 0..100.
pub open spec fn quality_units(
    critical: int,
    high: int,
    medium: int,
    low: int,
    conceptual: int,
    config: KPIConfig,
) -> int {
    clamp_score(FULL_SCORE - quality_deduction_units(critical, high, medium, low, conceptual, config))
}

/// The quality score of a month's bug counts, in units.
pub open spec fn quality_score_units(bugs: BugCounts, conceptual: int, config: KPIConfig) -> int {
    quality_units(
        bugs.critical as int,
        bugs.high as int,
        bugs.medium as int,
        bugs.low as int,
        conceptual,
        config,
    )
}

/// The overall score in units: the two scores weighted as configured and
/// added, rounded, and limited to 0..100.
pub open spec fn overall_units(delivery: int, quality: int, config: KPIConfig) -> int {
    clamp_score(
        round_div(
            delivery * config.delivery_weight.units + quality * config.quality_weight.units,
            SCALE as int,
        ),
    )
}

/// The sum of a list of decimals, in units.
pub open spec fn sum_units(s: Seq<Decimal>) -> int
    decreases s.len(),
{
    if s.len() == 0 {
        0
    } else {
        sum_units(s.drop_last()) + s.last().units
    }
}

/// The trend of a score of `current` units against earlier scores. With no
/// earlier score it is stable. Otherwise it is improving where the score
/// exceeds their mean by more than 5 points, declining where it falls short
/// of it by more than 5, and stable in between. Both sides of each comparison
/// are multiplied by the number of earlier scores, so that the mean is never
/// rounded.
pub open spec fn trend_of(current: int, previous: Seq<Decimal>) -> KPITrend {
    let n = previous.len() as int;
    let total = sum_units(previous);
    if n == 0 {
        KPITrend::Stable
    } else if current * n > total + TREND_THRESHOLD * SCALE * n {
        KPITrend::Improving
    } else if current * n < total - TREND_THRESHOLD * SCALE * n {
        KPITrend::Declining
    } else {
        KPITrend::Stable
    }
}

/// With equal weights of one half, the overall score is the mean of the two
/// scores: exactly where their sum in units is even, and rounded up by half a
/// unit where it is odd.
pub proof fn lemma_equal_weights_mean(delivery: int, quality: int, config: KPIConfig)
    requires
        0 <= delivery <= FULL_SCORE,
        0 <= quality <= FULL_SCORE,
        config.delivery_weight.units == SCALE / 2,
        config.quality_weight.units == SCALE / 2,
    ensures
        (delivery + quality) % 2 == 0 ==> 2 * overall_units(delivery, quality, config) == delivery
            + quality,
        (delivery + quality) % 2 == 1 ==> 2 * overall_units(delivery, quality, config) == delivery
            + quality + 1,
{
    let total = delivery + quality;
    assert(delivery * 5_000 + quality * 5_000 == total * 5_000);
    assert(round_div(total * 5_000, 10_000) == (total * 10_000 + 10_000) / 20_000);
    assert((total * 10_000 + 10_000) / 20_000 == (total + 1) / 2) by {
        let q = (total + 1) / 2;
        let r = (total + 1) % 2;
        vstd::arithmetic::div_mod::lemma_fundamental_div_mod_converse(
            total * 10_000 + 10_000,
            20_000,
            q,
            r * 10_000,
        );
    }
}

/// All three scores of any month lie between 0 and 100 points.
pub proof fn lemma_scores_in_range(
    metrics: DeliveryMetrics,
    bugs: BugCounts,
    conceptual: int,
    delivery: int,
    quality: int,
    config: KPIConfig,
)
    ensures
        0 <= delivery_score_units(metrics) <= FULL_SCORE,
        0 <= quality_score_units(bugs, conceptual, config) <= FULL_SCORE,
        0 <= overall_units(delivery, quality, config) <= FULL_SCORE,
{
}

/// A month without completed tickets has the full delivery score.
pub proof fn lemma_nothing_completed(metrics: DeliveryMetrics)
    requires
        metrics.completed_tickets == 0,
    ensures
        delivery_score_units(metrics) == FULL_SCORE,
{
}

/// A month without bugs has the full quality score, whatever the penalties.
pub proof fn lemma_no_bugs(config: KPIConfig)
    ensures
        quality_units(0, 0, 0, 0, 0, config) == FULL_SCORE,
{
}

/// Against no earlier score, every score is stable.
pub proof fn lemma_no_history_is_stable(current: int)
    ensures
        trend_of(current, Seq::empty()) == KPITrend::Stable,
{
}

/// Limits a number of units to the range of a score.
fn to_score(units: i128) -> (score: Decimal)
    ensures
        score.units == clamp_score(units as int),
{
    if units < 0 {
        Decimal { units: 0 }
    } else if units > FULL_SCORE as i128 {
        Decimal { units: FULL_SCORE }
    } else {
        Decimal { units: units as i32 }
    }
}

/// Calculates the delivery score of a month.
pub fn calculate_delivery_score(metrics: &DeliveryMetrics) -> (score: Decimal)
    ensures
        score.units == delivery_score_units(*metrics),
        0 <= score.units <= FULL_SCORE,
        metrics.completed_tickets == 0 ==> score.units == FULL_SCORE,
{
    if metrics.completed_tickets == 0 {
        return Decimal { units: FULL_SCORE };
    }
    let base: i128 = div_round(
        product(metrics.on_time_tickets, 100 * SCALE) as i128,
        metrics.completed_tickets as i64,
    );
    let bonus: i128 = product(EARLY_BONUS, metrics.early_deliveries) as i128;
    let late: i128 = product(LATE_CRITICAL_PENALTY, metrics.late_critical_tickets) as i128;
    let reopened: i128 = product(REOPEN_PENALTY, metrics.reopened_tickets) as i128;
    to_score(base + (SCALE as i128) * (bonus - late - reopened))
}

/// Calculates the quality score of a month from the bugs charged to a
/// developer.
pub fn calculate_quality_score(
    developer_error_bugs: &BugCounts,
    conceptual_bugs: i32,
    config: &KPIConfig,
) -> (score: Decimal)
    ensures
        score.units == quality_score_units(*developer_error_bugs, conceptual_bugs as int, *config),
        0 <= score.units <= FULL_SCORE,
        developer_error_bugs.critical == 0 && developer_error_bugs.high == 0
            && developer_error_bugs.medium == 0 && developer_error_bugs.low == 0 && conceptual_bugs
            == 0 ==> score.units == FULL_SCORE,
{
    let penalties = &config.bug_penalties;
    let critical: i128 = product(developer_error_bugs.critical, penalties.critical.units) as i128;
    let high: i128 = product(developer_error_bugs.high, penalties.high.units) as i128;
    let medium: i128 = product(developer_error_bugs.medium, penalties.medium.units) as i128;
    let low: i128 = product(developer_error_bugs.low, penalties.low.units) as i128;
    let conceptual: i128 = product(conceptual_bugs, CONCEPTUAL_PENALTY * SCALE) as i128;
    to_score((FULL_SCORE as i128) - (critical + high + medium + low + conceptual))
}

/// Calculates the overall score from the delivery and the quality score.
pub fn calculate_overall_score(
    delivery_score: Decimal,
    quality_score: Decimal,
    config: &KPIConfig,
) -> (score: Decimal)
    ensures
        score.units == overall_units(delivery_score.units as int, quality_score.units as int, *config),
        0 <= score.units <= FULL_SCORE,
{
    let weighted: i128 = (product(delivery_score.units, config.delivery_weight.units) as i128) + (
    product(quality_score.units, config.quality_weight.units) as i128);
    to_score(div_round(weighted, SCALE as i64))
}

/// Classifies a score against the scores of earlier months.
pub fn calculate_trend(current_score: Decimal, previous_scores: &[Decimal]) -> (trend: KPITrend)
    ensures
        trend == trend_of(current_score.units as int, previous_scores@),
        previous_scores@.len() == 0 ==> trend == KPITrend::Stable,
{
    let n: usize = previous_scores.len();
    if n == 0 {
        return KPITrend::Stable;
    }
    let mut total: i128 = 0;
    let mut i: usize = 0;
    while i < n
        invariant
            i <= n,
            n == previous_scores@.len(),
            total == sum_units(previous_scores@.take(i as int)),
            -0x8000_0000 * i <= total <= 0x8000_0000 * i,
        decreases n - i,
    {
        assert(previous_scores@.take(i + 1).drop_last() =~= previous_scores@.take(i as int));
        total = total + (previous_scores[i].units as i128);
        i += 1;
    }
    assert(previous_scores@.take(n as int) =~= previous_scores@);
    let count: i128 = n as i128;
    let current: i128 = current_score.units as i128;
    assert(-0x8000_0000 * count <= current * count <= 0x8000_0000 * count) by (nonlinear_arith)
        requires
            -0x8000_0000 <= current <= 0x8000_0000,
            count >= 0,
    ;
    let scaled: i128 = current * count;
    let margin: i128 = ((TREND_THRESHOLD * SCALE) as i128) * count;
    if scaled > total + margin {
        KPITrend::Improving
    } else if scaled < total - margin {
        KPITrend::Declining
    } else {
        KPITrend::Stable
    }
}

} // verus!
