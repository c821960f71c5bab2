use kpi_tool::decimal::Decimal;
use kpi_tool::models::{BugPenalties, KPIConfig, KPITrend};
use kpi_tool::services::kpi_calculator::{
    CONCEPTUAL_PENALTY, EARLY_BONUS, FULL_SCORE, LATE_CRITICAL_PENALTY, REOPEN_PENALTY,
    TREND_THRESHOLD,
};
use kpi_tool::services::{
    calculate_delivery_score, calculate_overall_score, calculate_quality_score, calculate_trend,
    BugCounts, DeliveryMetrics,
};

fn score(whole: i32) -> Decimal {
    Decimal { units: whole * 10_000 }
}

fn delivery(completed: i32, on_time: i32, early: i32, late_critical: i32, reopened: i32) -> Decimal {
    calculate_delivery_score(&DeliveryMetrics {
        completed_tickets: completed,
        on_time_tickets: on_time,
        early_deliveries: early,
        late_critical_tickets: late_critical,
        reopened_tickets: reopened,
    })
}

fn weights(delivery_weight: i32, quality_weight: i32) -> KPIConfig {
    KPIConfig {
        delivery_weight: Decimal { units: delivery_weight },
        quality_weight: Decimal { units: quality_weight },
        bug_penalties: KPIConfig::default().bug_penalties,
    }
}

#[test]
fn scoring_constants() {
    assert_eq!(FULL_SCORE, 1_000_000);
    assert_eq!(EARLY_BONUS, 5);
    assert_eq!(LATE_CRITICAL_PENALTY, 10);
    assert_eq!(REOPEN_PENALTY, 5);
    assert_eq!(CONCEPTUAL_PENALTY, 3);
    assert_eq!(TREND_THRESHOLD, 5);
}

#[test]
fn delivery_all_on_time_is_full() {
    assert_eq!(delivery(10, 10, 0, 0, 0), score(100));
}

#[test]
fn delivery_with_one_late_critical_and_two_reopened() {
    // base 80, less 10 for the late critical ticket, less 5 for each reopened one
    assert_eq!(delivery(10, 8, 0, 1, 2), score(60));
}

#[test]
fn delivery_with_one_late_critical_and_one_reopened() {
    assert_eq!(delivery(10, 8, 0, 1, 1), score(65));
}

#[test]
fn delivery_without_completed_tickets_is_full_whatever_else() {
    assert_eq!(delivery(0, 0, 0, 0, 0), score(100));
    assert_eq!(delivery(0, 0, 0, 7, 9), score(100));
    assert_eq!(delivery(0, 5, 3, 0, 100), score(100));
}

#[test]
fn delivery_rounds_the_on_time_share() {
    assert_eq!(delivery(3, 1, 0, 0, 0), Decimal { units: 333_333 });
    assert_eq!(delivery(3, 2, 0, 0, 0), Decimal { units: 666_667 });
    assert_eq!(delivery(7, 3, 0, 0, 0), Decimal { units: 428_571 });
    assert_eq!(delivery(6, 1, 1, 0, 0), Decimal { units: 216_667 });
}

#[test]
fn delivery_is_limited_to_the_range() {
    assert_eq!(delivery(10, 10, 5, 0, 0), score(100));
    assert_eq!(delivery(10, 0, 0, 3, 0), score(0));
    assert_eq!(delivery(10, 2, 0, 1, 4), score(0));
    assert_eq!(delivery(10, 5, 1, 1, 1), score(40));
    assert_eq!(delivery(1, 1, i32::MAX, 0, 0), score(100));
    assert_eq!(delivery(1, 1, 0, i32::MAX, i32::MAX), score(0));
    assert_eq!(delivery(1, i32::MAX, 0, 0, 0), score(100));
}

#[test]
fn delivery_stays_in_range_for_any_counts() {
    let values = [i32::MIN, -7, -1, 0, 1, 2, 3, 10, i32::MAX];
    for completed in values {
        for on_time in values {
            for other in values {
                let result = delivery(completed, on_time, other, other, other);
                assert!(0 <= result.units && result.units <= FULL_SCORE);
            }
        }
    }
}

#[test]
fn quality_without_bugs_is_full_for_any_penalties() {
    let harsh = KPIConfig {
        delivery_weight: Decimal { units: 5_000 },
        quality_weight: Decimal { units: 5_000 },
        bug_penalties: BugPenalties {
            critical: Decimal { units: i32::MAX },
            high: Decimal { units: i32::MAX },
            medium: Decimal { units: -5 },
            low: Decimal { units: i32::MIN },
        },
    };
    assert_eq!(calculate_quality_score(&BugCounts::default(), 0, &harsh), score(100));
    assert_eq!(calculate_quality_score(&BugCounts::default(), 0, &KPIConfig::default()), score(100));
}

#[test]
fn quality_with_standard_penalties() {
    let config = KPIConfig::default();
    let bugs = BugCounts { critical: 1, high: 1, medium: 2, low: 0 };
    assert_eq!(calculate_quality_score(&bugs, 0, &config), score(65));
    let bugs = BugCounts { critical: 0, high: 0, medium: 0, low: 3 };
    assert_eq!(calculate_quality_score(&bugs, 0, &config), score(94));
    let bugs = BugCounts { critical: 1, high: 2, medium: 3, low: 4 };
    assert_eq!(calculate_quality_score(&bugs, 5, &config), score(27));
}

#[test]
fn quality_with_conceptual_bugs_only() {
    assert_eq!(calculate_quality_score(&BugCounts::default(), 3, &KPIConfig::default()), score(91));
    assert_eq!(calculate_quality_score(&BugCounts::default(), 33, &KPIConfig::default()), score(1));
    assert_eq!(calculate_quality_score(&BugCounts::default(), 34, &KPIConfig::default()), score(0));
}

#[test]
fn quality_with_fractional_penalties() {
    let mut config = KPIConfig::default();
    config.bug_penalties.low = Decimal { units: 25_000 };
    let bugs = BugCounts { critical: 0, high: 0, medium: 0, low: 3 };
    assert_eq!(calculate_quality_score(&bugs, 0, &config), Decimal { units: 925_000 });
}

#[test]
fn quality_is_limited_to_the_range() {
    let config = KPIConfig::default();
    let bugs = BugCounts { critical: i32::MAX, high: i32::MAX, medium: i32::MAX, low: i32::MAX };
    assert_eq!(calculate_quality_score(&bugs, i32::MAX, &config), score(0));
    let bugs = BugCounts { critical: -1, high: 0, medium: 0, low: 0 };
    assert_eq!(calculate_quality_score(&bugs, 0, &config), score(100));
}

#[test]
fn overall_with_equal_weights_is_the_mean() {
    let config = KPIConfig::default();
    assert_eq!(calculate_overall_score(score(80), score(90), &config), score(85));
    assert_eq!(calculate_overall_score(score(0), score(0), &config), score(0));
    assert_eq!(calculate_overall_score(score(100), score(100), &config), score(100));
    assert_eq!(calculate_overall_score(score(100), score(0), &config), score(50));
    for d in [0, 1, 2, 333_333, 500_000, 999_999, 1_000_000] {
        for q in [0, 1, 3, 666_667, 999_998, 1_000_000] {
            let result = calculate_overall_score(Decimal { units: d }, Decimal { units: q }, &config);
            assert_eq!(result.units, (d + q + 1) / 2);
            if (d + q) % 2 == 0 {
                assert_eq!(2 * result.units, d + q);
            }
        }
    }
}

#[test]
fn overall_with_other_weights() {
    assert_eq!(calculate_overall_score(score(80), score(90), &weights(7_000, 3_000)), score(83));
    assert_eq!(calculate_overall_score(score(80), score(90), &weights(10_000, 0)), score(80));
    assert_eq!(calculate_overall_score(score(80), score(90), &weights(0, 10_000)), score(90));
    assert_eq!(
        calculate_overall_score(Decimal { units: 333_333 }, score(50), &weights(3_333, 6_667)),
        Decimal { units: 444_450 }
    );
}

#[test]
fn overall_is_limited_to_the_range() {
    assert_eq!(calculate_overall_score(score(100), score(100), &weights(10_000, 10_000)), score(100));
    assert_eq!(calculate_overall_score(score(100), score(100), &weights(-10_000, 0)), score(0));
    let wild = weights(i32::MIN, i32::MIN);
    let low = Decimal { units: i32::MIN };
    assert_eq!(calculate_overall_score(low, low, &wild), score(100));
    let high = Decimal { units: i32::MAX };
    assert_eq!(calculate_overall_score(high, high, &wild), score(0));
}

#[test]
fn trend_against_three_earlier_scores() {
    let previous = vec![score(70), score(72), score(68)];
    assert_eq!(calculate_trend(score(80), &previous), KPITrend::Improving);
    assert_eq!(calculate_trend(score(62), &previous), KPITrend::Declining);
    assert_eq!(calculate_trend(score(73), &previous), KPITrend::Stable);
}

#[test]
fn trend_threshold_is_strict() {
    let previous = vec![score(70), score(72), score(68)];
    assert_eq!(calculate_trend(score(75), &previous), KPITrend::Stable);
    assert_eq!(calculate_trend(score(65), &previous), KPITrend::Stable);
    assert_eq!(calculate_trend(Decimal { units: 750_001 }, &previous), KPITrend::Improving);
    assert_eq!(calculate_trend(Decimal { units: 649_999 }, &previous), KPITrend::Declining);
}

#[test]
fn trend_does_not_round_the_mean() {
    // mean 70.00003333..., so 75.0000 is within 5 points and 75.0001 is beyond
    let previous = vec![score(70), score(70), Decimal { units: 700_001 }];
    assert_eq!(calculate_trend(Decimal { units: 750_000 }, &previous), KPITrend::Stable);
    assert_eq!(calculate_trend(Decimal { units: 750_001 }, &previous), KPITrend::Improving);
    // mean 69.99996666..., so 65.0000 is within 5 points and 64.9999 is beyond
    let previous = vec![score(70), score(70), Decimal { units: 699_999 }];
    assert_eq!(calculate_trend(Decimal { units: 650_000 }, &previous), KPITrend::Stable);
    assert_eq!(calculate_trend(Decimal { units: 649_999 }, &previous), KPITrend::Declining);
}

#[test]
fn trend_without_history_is_stable_for_any_score() {
    for units in [i32::MIN, -1, 0, 1, 500_000, 1_000_000, i32::MAX] {
        assert_eq!(calculate_trend(Decimal { units }, &[]), KPITrend::Stable);
    }
}

#[test]
fn trend_against_one_and_many_scores() {
    assert_eq!(calculate_trend(score(80), &[score(70)]), KPITrend::Improving);
    assert_eq!(calculate_trend(score(70), &[score(80)]), KPITrend::Declining);
    let many = vec![score(50); 1000];
    assert_eq!(calculate_trend(score(56), &many), KPITrend::Improving);
    assert_eq!(calculate_trend(score(55), &many), KPITrend::Stable);
    let extreme = vec![Decimal { units: i32::MAX }; 100];
    assert_eq!(calculate_trend(Decimal { units: i32::MIN }, &extreme), KPITrend::Declining);
}

#[test]
fn scores_are_the_same_when_computed_twice() {
    let metrics = DeliveryMetrics {
        completed_tickets: 7,
        on_time_tickets: 3,
        early_deliveries: 1,
        late_critical_tickets: 1,
        reopened_tickets: 0,
    };
    let bugs = BugCounts { critical: 0, high: 1, medium: 1, low: 2 };
    let config = KPIConfig::default();
    let first = (
        calculate_delivery_score(&metrics),
        calculate_quality_score(&bugs, 1, &config),
    );
    let second = (
        calculate_delivery_score(&metrics),
        calculate_quality_score(&bugs, 1, &config),
    );
    assert_eq!(first, second);
    assert_eq!(
        calculate_overall_score(first.0, first.1, &config),
        calculate_overall_score(second.0, second.1, &config)
    );
}
