use kpi_tool::commands::config::{validate_kpi_config, WEIGHT_TOLERANCE};
use kpi_tool::decimal::Decimal;
use kpi_tool::models::KPIConfig;

fn check(values: [i32; 6]) -> Result<KPIConfig, String> {
    validate_kpi_config(
        Decimal { units: values[0] },
        Decimal { units: values[1] },
        Decimal { units: values[2] },
        Decimal { units: values[3] },
        Decimal { units: values[4] },
        Decimal { units: values[5] },
    )
}

#[test]
fn standard_configuration_is_accepted() {
    assert_eq!(WEIGHT_TOLERANCE, 100);
    assert_eq!(check([5_000, 5_000, 150_000, 100_000, 50_000, 20_000]), Ok(KPIConfig::default()));
}

#[test]
fn accepted_configuration_holds_what_was_given() {
    let config = check([7_000, 3_000, 1, 2, 3, 0]).unwrap();
    assert_eq!(config.delivery_weight.units, 7_000);
    assert_eq!(config.quality_weight.units, 3_000);
    assert_eq!(config.bug_penalties.critical.units, 1);
    assert_eq!(config.bug_penalties.high.units, 2);
    assert_eq!(config.bug_penalties.medium.units, 3);
    assert_eq!(config.bug_penalties.low.units, 0);
}

#[test]
fn weights_must_add_up_to_one_within_the_tolerance() {
    assert!(check([5_000, 5_100, 0, 0, 0, 0]).is_ok());
    assert!(check([5_000, 4_900, 0, 0, 0, 0]).is_ok());
    assert_eq!(
        check([5_000, 5_101, 0, 0, 0, 0]),
        Err("Weights must sum to 1.0 (current: 1.01)".to_string())
    );
    assert_eq!(
        check([5_000, 4_899, 0, 0, 0, 0]),
        Err("Weights must sum to 1.0 (current: 0.99)".to_string())
    );
    assert_eq!(
        check([6_000, 6_000, 0, 0, 0, 0]),
        Err("Weights must sum to 1.0 (current: 1.20)".to_string())
    );
    assert_eq!(
        check([i32::MAX, i32::MAX, 0, 0, 0, 0]),
        Err("Weights must sum to 1.0 (current: 429496.73)".to_string())
    );
    assert_eq!(
        check([-20_000, 5_000, -1, 0, 0, 0]),
        Err("Weights must sum to 1.0 (current: -1.50)".to_string())
    );
}

#[test]
fn each_weight_must_lie_between_zero_and_one() {
    assert_eq!(
        check([-50, 10_000, 0, 0, 0, 0]),
        Err("Delivery weight must be between 0 and 1".to_string())
    );
    assert_eq!(
        check([10_050, 0, 0, 0, 0, 0]),
        Err("Delivery weight must be between 0 and 1".to_string())
    );
    assert_eq!(
        check([10_000, -50, 0, 0, 0, 0]),
        Err("Quality weight must be between 0 and 1".to_string())
    );
    assert_eq!(
        check([0, 10_050, 0, 0, 0, 0]),
        Err("Quality weight must be between 0 and 1".to_string())
    );
    assert!(check([0, 10_000, 0, 0, 0, 0]).is_ok());
    assert!(check([10_000, 0, 0, 0, 0, 0]).is_ok());
}

#[test]
fn penalties_must_not_be_negative() {
    for place in 2..6 {
        let mut values = [5_000, 5_000, 10, 10, 10, 10];
        values[place] = -1;
        assert_eq!(check(values), Err("Bug penalties must be non-negative".to_string()));
    }
    assert_eq!(
        check([-50, 10_000, -1, 0, 0, 0]),
        Err("Delivery weight must be between 0 and 1".to_string())
    );
}
