use kpi_tool::decimal::{div_round, product, write_two_decimals, Decimal, SCALE};

#[test]
fn div_round_rounds_to_nearest() {
    assert_eq!(div_round(7, 2), 4);
    assert_eq!(div_round(5, 2), 3);
    assert_eq!(div_round(4, 2), 2);
    assert_eq!(div_round(1, 3), 0);
    assert_eq!(div_round(2, 3), 1);
    assert_eq!(div_round(0, 5), 0);
    assert_eq!(div_round(1_000_000, 3), 333_333);
    assert_eq!(div_round(2_000_000, 3), 666_667);
}

#[test]
fn div_round_sends_ties_up() {
    assert_eq!(div_round(1, 2), 1);
    assert_eq!(div_round(3, 2), 2);
    assert_eq!(div_round(-1, 2), 0);
    assert_eq!(div_round(-3, 2), -1);
    assert_eq!(div_round(-5, 2), -2);
}

#[test]
fn div_round_takes_negative_numbers() {
    assert_eq!(div_round(-7, 2), -3);
    assert_eq!(div_round(-8, 3), -3);
    assert_eq!(div_round(-7, 3), -2);
    assert_eq!(div_round(7, -2), -3);
    assert_eq!(div_round(-7, -2), 4);
    assert_eq!(div_round(1, -2), 0);
    assert_eq!(div_round(-1, -2), 1);
    assert_eq!(div_round(10, -5), -2);
}

#[test]
fn div_round_agrees_with_floats_away_from_ties() {
    for n in -200i128..200 {
        for d in [-7i64, -3, -1, 1, 3, 7, 11] {
            let exact = n as f64 / d as f64;
            assert_eq!(div_round(n, d), (exact + 0.5).floor() as i128, "{} / {}", n, d);
        }
    }
}

#[test]
fn product_of_extremes() {
    assert_eq!(product(i32::MAX, i32::MAX), (i32::MAX as i64) * (i32::MAX as i64));
    assert_eq!(product(i32::MIN, i32::MIN), (i32::MIN as i64) * (i32::MIN as i64));
    assert_eq!(product(i32::MIN, i32::MAX), (i32::MIN as i64) * (i32::MAX as i64));
    assert_eq!(product(-3, 7), -21);
}

#[test]
fn decimal_from_int() {
    assert_eq!(SCALE, 10_000);
    assert_eq!(Decimal::from_int(0), Some(Decimal { units: 0 }));
    assert_eq!(Decimal::from_int(100), Some(Decimal { units: 1_000_000 }));
    assert_eq!(Decimal::from_int(-3), Some(Decimal { units: -30_000 }));
    assert_eq!(Decimal::from_int(214_748), Some(Decimal { units: 2_147_480_000 }));
    assert_eq!(Decimal::from_int(214_749), None);
    assert_eq!(Decimal::from_int(-214_749), None);
}

#[test]
fn two_decimals_of_whole_and_fractional_numbers() {
    assert_eq!(Decimal { units: 0 }.to_fixed2(), "0.00");
    assert_eq!(Decimal { units: 1_000_000 }.to_fixed2(), "100.00");
    assert_eq!(Decimal { units: 12_500 }.to_fixed2(), "1.25");
    assert_eq!(Decimal { units: 333_333 }.to_fixed2(), "33.33");
    assert_eq!(Decimal { units: 666_667 }.to_fixed2(), "66.67");
    assert_eq!(Decimal { units: 10_000 }.to_fixed2(), "1.00");
    assert_eq!(Decimal { units: 900 }.to_fixed2(), "0.09");
}

#[test]
fn two_decimals_rounds_half_away_from_zero() {
    assert_eq!(Decimal { units: 49 }.to_fixed2(), "0.00");
    assert_eq!(Decimal { units: 50 }.to_fixed2(), "0.01");
    assert_eq!(Decimal { units: 12_349 }.to_fixed2(), "1.23");
    assert_eq!(Decimal { units: 12_350 }.to_fixed2(), "1.24");
    assert_eq!(Decimal { units: 9_950 }.to_fixed2(), "1.00");
    assert_eq!(Decimal { units: -12_350 }.to_fixed2(), "-1.24");
    assert_eq!(Decimal { units: -12_349 }.to_fixed2(), "-1.23");
    assert_eq!(Decimal { units: -1 }.to_fixed2(), "-0.00");
}

#[test]
fn two_decimals_of_extremes() {
    assert_eq!(Decimal { units: i32::MAX }.to_fixed2(), "214748.36");
    assert_eq!(Decimal { units: i32::MIN }.to_fixed2(), "-214748.36");
    assert_eq!(write_two_decimals(i64::MAX), "922337203685477.58");
    assert_eq!(write_two_decimals(i64::MIN), "-922337203685477.58");
    assert_eq!(write_two_decimals(20_001), "2.00");
}

#[test]
fn two_decimals_agrees_with_float_formatting_on_hundredths() {
    for hundredths in 0..20_000i32 {
        let shown = Decimal { units: hundredths * 100 }.to_fixed2();
        assert_eq!(shown, format!("{:.2}", hundredths as f64 / 100.0));
    }
}
