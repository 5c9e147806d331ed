use amm_liquidity::LiquidityError;
use amm_liquidity::validate::{SLIPPAGE_SCALE, Slippage, validate_and_scale};

#[test]
fn zero_amount_is_rejected_regardless_of_slippage() {
    let slippages = [
        Slippage { bps: 0 },
        Slippage { bps: 100 },
        Slippage { bps: SLIPPAGE_SCALE },
        Slippage { bps: -1_000 },
        Slippage { bps: 15_000 },
    ];
    for slippage in slippages {
        assert_eq!(
            validate_and_scale(0, slippage, 1_000_000),
            Err(LiquidityError::AmountZero)
        );
    }
}

#[test]
fn slippage_below_zero_is_rejected() {
    // A slippage fraction of -0.1 in basis points.
    let bps = (-0.1_f64 * SLIPPAGE_SCALE as f64) as i64;
    assert_eq!(bps, -1_000);
    assert_eq!(
        validate_and_scale(5, Slippage { bps }, 10),
        Err(LiquidityError::SlippageOutOfRange)
    );
}

#[test]
fn slippage_above_one_is_rejected() {
    // A slippage fraction of 1.5 in basis points.
    let bps = (1.5_f64 * SLIPPAGE_SCALE as f64) as i64;
    assert_eq!(bps, 15_000);
    assert_eq!(
        validate_and_scale(5, Slippage { bps }, 10),
        Err(LiquidityError::SlippageOutOfRange)
    );
}

#[test]
fn slippage_bounds_are_inclusive() {
    assert_eq!(validate_and_scale(5, Slippage { bps: 0 }, 10), Ok(50));
    assert_eq!(
        validate_and_scale(5, Slippage { bps: SLIPPAGE_SCALE }, 10),
        Ok(50)
    );
    assert_eq!(
        validate_and_scale(5, Slippage { bps: SLIPPAGE_SCALE + 1 }, 10),
        Err(LiquidityError::SlippageOutOfRange)
    );
}

#[test]
fn overflowing_product_is_rejected_not_truncated() {
    assert_eq!(
        validate_and_scale(u64::MAX, Slippage { bps: 100 }, 2),
        Err(LiquidityError::MultiplicationOverflow)
    );
    assert_eq!(
        validate_and_scale(u64::MAX / 2 + 1, Slippage { bps: 0 }, 2),
        Err(LiquidityError::MultiplicationOverflow)
    );
}

#[test]
fn largest_representable_product_is_exact() {
    assert_eq!(
        validate_and_scale(u64::MAX / 2, Slippage { bps: 0 }, 2),
        Ok(u64::MAX - 1)
    );
    assert_eq!(validate_and_scale(u64::MAX, Slippage { bps: 0 }, 1), Ok(u64::MAX));
}

#[test]
fn one_unit_is_scaled_to_a_million_lp_units() {
    // A user amount of 1 with a six-decimal multiplier and one percent
    // slippage.
    let bps = (0.01_f64 * SLIPPAGE_SCALE as f64) as i64;
    assert_eq!(bps, 100);
    assert_eq!(
        validate_and_scale(1, Slippage { bps }, 1_000_000),
        Ok(1_000_000)
    );
}

#[test]
fn slippage_range_check_matches_the_closed_interval() {
    assert!(Slippage { bps: 0 }.check_in_range());
    assert!(Slippage { bps: SLIPPAGE_SCALE }.check_in_range());
    assert!(!Slippage { bps: -1 }.check_in_range());
    assert!(!Slippage { bps: SLIPPAGE_SCALE + 1 }.check_in_range());
}

#[test]
fn slippage_positivity_is_strict() {
    assert!(!Slippage { bps: 0 }.check_positive());
    assert!(Slippage { bps: 1 }.check_positive());
    assert!(Slippage { bps: -1 }.check_positive() == false);
}

#[test]
fn zero_check_runs_before_slippage_check() {
    // Both checks fail; the zero check wins because it runs first.
    assert_eq!(
        validate_and_scale(0, Slippage { bps: -1 }, 1),
        Err(LiquidityError::AmountZero)
    );
}

#[test]
fn slippage_check_runs_before_overflow_check() {
    assert_eq!(
        validate_and_scale(u64::MAX, Slippage { bps: -1 }, u64::MAX),
        Err(LiquidityError::SlippageOutOfRange)
    );
}
