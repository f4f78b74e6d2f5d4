use lattic3::decimal::Decimal;
use lattic3::yield_multiplier_weftv2::execution::{compute_liquidity_delta, compute_session_fee, SessionError};
use lattic3::yield_multiplier_weftv2::fees::{FeeCurve, FeeError, FeePoint, FeeStructure};
use lattic3::yield_multiplier_weftv2::weft::PositionMetrics;
use lattic3::ledger::ResourceRef;
use scrypto::prelude::index_map_new;

fn point(x_attos: u128, y_attos: u128) -> FeePoint {
    FeePoint { x: Decimal::from_attos(x_attos), y: Decimal::from_attos(y_attos) }
}

const UNIT: u128 = 1_000_000_000_000_000_000;

fn neg(units: u64) -> Decimal {
    Decimal::from_units(units).checked_neg().unwrap()
}

#[test]
fn default_fee_structure() {
    let fees = FeeStructure::default();
    assert_eq!(fees.open, Decimal::from_units(16));
    assert_eq!(fees.close, Decimal::from_units(4));
    assert_eq!(fees.execute, Decimal::from_units(4));
}

#[test]
fn setting_fees_keeps_what_is_not_given() {
    let mut fees = FeeStructure::default();
    fees.set(Some(Decimal::from_units(1)), None, Some(Decimal::from_units(3)));
    assert_eq!(
        fees,
        FeeStructure { open: Decimal::from_units(1), close: Decimal::from_units(4), execute: Decimal::from_units(3) }
    );
    fees.set(None, Some(Decimal::zero()), None);
    assert_eq!(
        fees,
        FeeStructure { open: Decimal::from_units(1), close: Decimal::zero(), execute: Decimal::from_units(3) }
    );
    fees.set(None, None, None);
    assert_eq!(fees.open, Decimal::from_units(1));
}

#[test]
fn default_curve() {
    let curve = FeeCurve::default();
    assert_eq!(curve.points(), &vec![point(0, 0), point(10_000 * UNIT, UNIT / 100)]);
    assert_eq!(curve.rate_at(Decimal::zero()), Decimal::zero());
    assert_eq!(curve.rate_at(Decimal::from_units(1000)), Decimal::from_attos(UNIT / 1000));
    assert_eq!(curve.rate_at(Decimal::from_units(5000)), Decimal::from_attos(UNIT / 200));
    assert_eq!(curve.rate_at(Decimal::from_units(10_000)), Decimal::from_attos(UNIT / 100));
    assert_eq!(curve.rate_at(Decimal::from_units(1_000_000)), Decimal::from_attos(UNIT / 100));
    assert_eq!(curve.rate_at(neg(5)), Decimal::zero());
}

#[test]
fn lookups_outside_the_breakpoints_are_flat() {
    let curve = FeeCurve::new(vec![point(10 * UNIT, 2 * UNIT), point(20 * UNIT, 4 * UNIT)]).unwrap();
    assert_eq!(curve.rate_at(Decimal::zero()), Decimal::from_units(2));
    assert_eq!(curve.rate_at(neg(1000)), Decimal::from_units(2));
    assert_eq!(curve.rate_at(Decimal::from_attos(10 * UNIT - 1)), Decimal::from_units(2));
    assert_eq!(curve.rate_at(Decimal::from_units(10)), Decimal::from_units(2));
    assert_eq!(curve.rate_at(Decimal::from_units(15)), Decimal::from_units(3));
    assert_eq!(curve.rate_at(Decimal::from_units(20)), Decimal::from_units(4));
    assert_eq!(curve.rate_at(Decimal::from_units(21)), Decimal::from_units(4));
    assert_eq!(curve.rate_at(Decimal::from_digits(0, 0, u64::MAX >> 1)), Decimal::from_units(4));
}

#[test]
fn interpolation_on_each_segment() {
    let curve = FeeCurve::new(vec![
        point(0, 0),
        point(100 * UNIT, 10 * UNIT),
        point(200 * UNIT, 10 * UNIT),
        point(400 * UNIT, 50 * UNIT),
    ])
    .unwrap();
    assert_eq!(curve.rate_at(Decimal::from_units(50)), Decimal::from_units(5));
    assert_eq!(curve.rate_at(Decimal::from_units(100)), Decimal::from_units(10));
    assert_eq!(curve.rate_at(Decimal::from_units(150)), Decimal::from_units(10));
    assert_eq!(curve.rate_at(Decimal::from_units(200)), Decimal::from_units(10));
    assert_eq!(curve.rate_at(Decimal::from_units(300)), Decimal::from_units(30));
    assert_eq!(curve.rate_at(Decimal::from_units(350)), Decimal::from_units(40));
    assert_eq!(curve.rate_at(Decimal::from_units(400)), Decimal::from_units(50));
}

#[test]
fn interpolation_rounds_toward_zero() {
    // From 0 to 1 over a width of 3: the slope is 0.333333333333333333.
    let rising = FeeCurve::new(vec![point(0, 0), point(3 * UNIT, UNIT)]).unwrap();
    assert_eq!(rising.rate_at(Decimal::from_units(1)), Decimal::from_attos(333_333_333_333_333_333));
    assert_eq!(rising.rate_at(Decimal::from_units(2)), Decimal::from_attos(666_666_666_666_666_666));
    assert_eq!(rising.rate_at(Decimal::from_attos(1)), Decimal::zero());
    assert_eq!(rising.rate_at(Decimal::from_units(3)), Decimal::one());
    // A falling segment: from 1 to 0 over a width of 3.
    let falling = FeeCurve::new(vec![point(0, UNIT), point(3 * UNIT, 0)]).unwrap();
    assert_eq!(falling.rate_at(Decimal::from_units(1)), Decimal::from_attos(UNIT - 333_333_333_333_333_333));
    assert_eq!(falling.rate_at(Decimal::from_units(2)), Decimal::from_attos(UNIT - 666_666_666_666_666_666));
    assert_eq!(falling.rate_at(Decimal::from_units(3)), Decimal::zero());
}

#[test]
fn largest_coordinates_do_not_overflow() {
    let top = u128::MAX;
    let curve = FeeCurve::new(vec![point(0, 0), point(top, top)]).unwrap();
    assert_eq!(curve.rate_at(Decimal::from_attos(top)), Decimal::from_attos(top));
    assert_eq!(curve.rate_at(Decimal::from_attos(top - 1)), Decimal::from_attos(top - 1));
    assert_eq!(curve.rate_at(Decimal::from_attos(12_345)), Decimal::from_attos(12_345));
    let steep = FeeCurve::new(vec![point(0, top), point(1, 0), point(2, top)]).unwrap();
    assert_eq!(steep.rate_at(Decimal::zero()), Decimal::from_attos(top));
    assert_eq!(steep.rate_at(Decimal::from_attos(1)), Decimal::zero());
    assert_eq!(steep.rate_at(Decimal::from_attos(2)), Decimal::from_attos(top));
}

#[test]
fn rates_do_not_fall_on_a_rising_curve() {
    let curve = FeeCurve::new(vec![
        point(0, 0),
        point(7, 3),
        point(1_000, 3),
        point(3 * UNIT, UNIT),
        point(10 * UNIT, 7 * UNIT + 1),
    ])
    .unwrap();
    let mut previous = curve.rate_at(neg(1));
    let mut x: u128 = 0;
    while x < 12 * UNIT {
        let rate = curve.rate_at(Decimal::from_attos(x));
        assert!(previous.le(&rate), "rate fell at {}", x);
        previous = rate;
        x = x * 3 / 2 + 1;
    }
}

#[test]
fn no_fee_on_sessions_without_growth() {
    let curve = FeeCurve::new(vec![point(0, 5 * UNIT), point(UNIT, 6 * UNIT)]).unwrap();
    assert_eq!(curve.rate_for_delta(Decimal::zero()), Decimal::zero());
    assert_eq!(curve.rate_for_delta(neg(3)), Decimal::zero());
    assert_eq!(curve.rate_for_delta(Decimal::from_attos(1)), Decimal::from_attos(5 * UNIT + 1));
    assert_eq!(curve.rate_for_delta(Decimal::from_units(2)), Decimal::from_units(6));
}

#[test]
fn breakpoints_are_validated() {
    assert_eq!(FeeCurve::new(vec![]).unwrap_err(), FeeError::TooFewPoints);
    assert_eq!(FeeCurve::new(vec![point(0, 0)]).unwrap_err(), FeeError::TooFewPoints);
    assert_eq!(FeeCurve::new(vec![point(0, 1), point(0, 2)]).unwrap_err(), FeeError::NotStrictlyIncreasing);
    assert_eq!(FeeCurve::new(vec![point(5, 1), point(3, 2)]).unwrap_err(), FeeError::NotStrictlyIncreasing);
    assert_eq!(
        FeeCurve::new(vec![point(0, 0), point(5, 1), point(5, 2)]).unwrap_err(),
        FeeError::NotStrictlyIncreasing
    );
    assert!(FeeCurve::new(vec![point(0, 9), point(1, 0)]).is_ok());
}

#[test]
fn every_strictly_increasing_list_is_a_curve() {
    let least = Decimal::from_digits(0, 0, 1 << 63);
    let greatest = Decimal::from_digits(u64::MAX, u64::MAX, u64::MAX >> 1);
    // Breakpoints and rates below zero.
    let curve = FeeCurve::new(vec![
        FeePoint { x: neg(10), y: neg(4) },
        FeePoint { x: neg(2), y: neg(8) },
        FeePoint { x: Decimal::from_units(6), y: Decimal::from_units(8) },
    ])
    .unwrap();
    assert_eq!(curve.rate_at(neg(11)), neg(4));
    assert_eq!(curve.rate_at(neg(10)), neg(4));
    assert_eq!(curve.rate_at(neg(6)), neg(6));
    assert_eq!(curve.rate_at(neg(2)), neg(8));
    assert_eq!(curve.rate_at(Decimal::zero()), neg(4));
    assert_eq!(curve.rate_at(Decimal::from_units(2)), Decimal::zero());
    assert_eq!(curve.rate_at(Decimal::from_units(6)), Decimal::from_units(8));
    // Coordinates at and beyond 2^128 subunits.
    let high = Decimal::from_digits(0, 0, 1);
    let higher = Decimal::from_digits(0, 0, 3);
    let curve = FeeCurve::new(vec![FeePoint { x: high, y: high }, FeePoint { x: higher, y: higher }]).unwrap();
    assert_eq!(curve.rate_at(Decimal::from_digits(0, 0, 2)), Decimal::from_digits(0, 0, 2));
    assert_eq!(curve.rate_at(Decimal::from_digits(7, 9, 2)), Decimal::from_digits(7, 9, 2));
    // The ends of the number format.
    let curve = FeeCurve::new(vec![FeePoint { x: least, y: least }, FeePoint { x: greatest, y: greatest }]);
    assert!(curve.is_ok());
}

#[test]
fn a_segment_without_a_slope_is_flat_at_its_left_rate() {
    let least = Decimal::from_digits(0, 0, 1 << 63);
    let greatest = Decimal::from_digits(u64::MAX, u64::MAX, u64::MAX >> 1);
    // Higher than the number format can hold a difference of.
    let tall = FeeCurve::new(vec![
        FeePoint { x: Decimal::zero(), y: least },
        FeePoint { x: Decimal::from_units(10), y: greatest },
        FeePoint { x: Decimal::from_units(20), y: greatest },
    ])
    .unwrap();
    assert_eq!(tall.rate_at(neg(1)), least);
    assert_eq!(tall.rate_at(Decimal::zero()), least);
    assert_eq!(tall.rate_at(Decimal::from_units(5)), least);
    assert_eq!(tall.rate_at(Decimal::from_units(10)), greatest);
    assert_eq!(tall.rate_at(Decimal::from_units(15)), greatest);
    // Wider than the number format can hold a difference of.
    let wide = FeeCurve::new(vec![
        FeePoint { x: least, y: Decimal::from_units(1) },
        FeePoint { x: greatest, y: Decimal::from_units(2) },
    ])
    .unwrap();
    assert_eq!(wide.rate_at(Decimal::zero()), Decimal::from_units(1));
    assert_eq!(wide.rate_at(greatest), Decimal::from_units(2));
    // Steeper than the number format can hold a slope of.
    let steep = FeeCurve::new(vec![
        FeePoint { x: Decimal::zero(), y: Decimal::zero() },
        FeePoint { x: Decimal::from_attos(2), y: Decimal::from_digits(0, 0, 1 << 62) },
    ])
    .unwrap();
    assert_eq!(steep.rate_at(Decimal::from_attos(1)), Decimal::zero());
    assert_eq!(steep.rate_at(Decimal::from_attos(2)), Decimal::from_digits(0, 0, 1 << 62));
    // Rates still do not fall from left to right.
    assert!(tall.rate_at(Decimal::from_units(9)).le(&tall.rate_at(Decimal::from_units(10))));
}

#[test]
fn set_points_commits_valid_lists_only() {
    let mut curve = FeeCurve::default();
    let before = curve.points().clone();

    assert_eq!(curve.set_points(vec![point(1, 1)]), Err(FeeError::TooFewPoints));
    assert_eq!(curve.set_points(vec![point(2, 1), point(1, 1)]), Err(FeeError::NotStrictlyIncreasing));
    assert_eq!(curve.points(), &before);

    assert_eq!(curve.set_points(vec![point(1, 1), point(2, 5)]), Ok(()));
    assert_eq!(curve.points(), &vec![point(1, 1), point(2, 5)]);
    assert_eq!(curve.rate_at(Decimal::from_attos(2)), Decimal::from_attos(5));
}

#[test]
fn liquidity_delta_is_supply_value_less_debt_value() {
    let supply = ResourceRef(10);
    let debt = ResourceRef(12);
    let mut prices = index_map_new();
    prices.insert(supply.0, Decimal::from_units(2));
    prices.insert(debt.0, Decimal::from_units(30));
    let baseline = PositionMetrics { supply: Decimal::from_units(100), debt: Decimal::from_units(1) };
    let grown = PositionMetrics { supply: Decimal::from_units(400), debt: Decimal::from_units(3) };

    // (400 - 100) * 2 - (3 - 1) * 30 = 540
    assert_eq!(compute_liquidity_delta(baseline, grown, supply, debt, Some(&prices)), Ok(Decimal::from_units(540)));
    assert_eq!(compute_liquidity_delta(grown, baseline, supply, debt, Some(&prices)), Ok(neg(540)));
    assert_eq!(compute_liquidity_delta(baseline, baseline, supply, debt, None), Ok(Decimal::zero()));
    assert_eq!(compute_liquidity_delta(baseline, baseline, supply, debt, Some(&prices)), Ok(Decimal::zero()));
    assert_eq!(compute_liquidity_delta(baseline, grown, supply, debt, None), Err(SessionError::PriceUnavailable));
    assert_eq!(
        compute_liquidity_delta(baseline, grown, supply, ResourceRef(99), Some(&prices)),
        Err(SessionError::PriceUnavailable)
    );
    let huge = PositionMetrics { supply: Decimal::from_digits(0, 0, u64::MAX >> 1), debt: Decimal::zero() };
    let tiny = PositionMetrics { supply: neg(1), debt: Decimal::zero() };
    assert_eq!(compute_liquidity_delta(tiny, huge, supply, debt, Some(&prices)), Err(SessionError::Overflow));
    assert_eq!(
        compute_liquidity_delta(PositionMetrics { supply: Decimal::zero(), debt: Decimal::zero() }, huge, supply, debt, Some(&prices)),
        Err(SessionError::Overflow)
    );
}

#[test]
fn session_fee_is_rate_times_growth() {
    let curve = FeeCurve::default();
    assert_eq!(compute_session_fee(&curve, Decimal::zero()), Ok(Decimal::zero()));
    assert_eq!(compute_session_fee(&curve, neg(540)), Ok(Decimal::zero()));
    // Rate 0.001 at 1000: fee 1.
    assert_eq!(compute_session_fee(&curve, Decimal::from_units(1000)), Ok(Decimal::one()));
    // Rate 0.00054 at 540: fee 0.2916.
    assert_eq!(compute_session_fee(&curve, Decimal::from_units(540)), Ok(Decimal::from_attos(291_600_000_000_000_000)));
    // Rate 0.01 beyond 10000: fee 200 at 20000.
    assert_eq!(compute_session_fee(&curve, Decimal::from_units(20_000)), Ok(Decimal::from_units(200)));
    let steep = FeeCurve::new(vec![point(0, 0), point(1, u128::MAX)]).unwrap();
    assert_eq!(
        compute_session_fee(&steep, Decimal::from_digits(0, 0, u64::MAX >> 1)),
        Err(SessionError::Overflow)
    );
}
