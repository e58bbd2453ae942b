use svm_math::{
    defi,
    compound_lower, compound_upper, exp2_lower, exp2_upper, isqrt, log2_lower, log2_upper,
    mul_div_ceil, mul_div_floor, pow_lower, pow_upper, powi_lower, powi_upper, sqrt_ceil,
    sqrt_floor, MathError,
};

const SCALE: u64 = 1_000_000;

#[test]
fn core_operations_walkthrough() -> Result<(), MathError> {
    let one_third = mul_div_floor(SCALE, 1, 3)?;
    assert_eq!(one_third, 333_333);
    assert_eq!(mul_div_ceil(SCALE, 1, 3)?, 333_334);
    assert_eq!(isqrt(10), 3);

    let root_two_lower = sqrt_floor(2 * SCALE, SCALE)?;
    let root_two_upper = sqrt_ceil(2 * SCALE, SCALE)?;
    assert_eq!((root_two_lower, root_two_upper), (1_414_213, 1_414_214));

    let exp_lower = exp2_lower((SCALE / 2) as i64, SCALE)?;
    let exp_upper = exp2_upper((SCALE / 2) as i64, SCALE)?;
    assert!(exp_lower <= root_two_upper && exp_upper >= root_two_lower);

    let log_lower = log2_lower(2 * SCALE, SCALE)?;
    let log_upper = log2_upper(2 * SCALE, SCALE)?;
    assert!(log_lower <= SCALE as i64 && log_upper >= SCALE as i64);

    let power_lower = pow_lower(2 * SCALE, SCALE / 2, SCALE)?;
    let power_upper = pow_upper(2 * SCALE, SCALE / 2, SCALE)?;
    assert!(power_lower <= root_two_upper && power_upper >= root_two_lower);
    assert_eq!(powi_lower(2 * SCALE, 3, SCALE)?, 8 * SCALE);
    assert_eq!(powi_upper(2 * SCALE, 3, SCALE)?, 8 * SCALE);

    let growth_lower = compound_lower(50_000, 365, 365, SCALE)?;
    let growth_upper = compound_upper(50_000, 365, 365, SCALE)?;
    assert!(growth_lower > SCALE && growth_lower <= growth_upper);
    Ok(())
}

#[test]
fn defi_recipes_walkthrough() -> Result<(), MathError> {
    let (net, fee) = defi::fee::net_of_fee(1_000_000, 30)?;
    assert_eq!(net + fee, 1_000_000);

    let output = defi::amm::quote_exact_in(5_000_000, 4_000_000, 250_000, 30)?;
    let replay_input = defi::amm::quote_exact_out(5_000_000, 4_000_000, output, 30)?;
    assert!(replay_input <= 250_000);
    assert_eq!(defi::amm::initial_lp_shares_floor(9, 16), 12);

    assert_eq!(defi::lending::utilization_bps(1, 2)?, 5_000);
    assert_eq!(
        defi::lending::borrow_rate_bps(9_000, 200, 400, 6_000, 8_000)?,
        3_600
    );

    let index_lower = defi::staking::reward_index_accrue_lower(10, 1, 3, 10)?;
    let index_upper = defi::staking::reward_index_accrue_upper(10, 1, 3, 10)?;
    assert_eq!((index_lower, index_upper), (13, 14));
    assert_eq!(
        defi::staking::rewards_owed_floor(30, index_lower, 10, 10)?,
        9
    );

    assert_eq!(
        defi::oracle::price_bounds_scaled(123, 3, -2, 100)?,
        (120, 126)
    );
    assert_eq!(defi::schedule::vested_floor(900, 100, 150, 300, 200)?, 300);
    assert_eq!(defi::schedule::linear_interp_floor(100, 0, 1, 3)?, 66);
    assert_eq!(defi::schedule::linear_interp_ceil(100, 0, 1, 3)?, 67);
    Ok(())
}

#[test]
fn readme_scenarios_hold() -> Result<(), MathError> {
    assert_eq!(mul_div_floor(4_000_000, 250_000, 5_250_000)?, 190_476);

    let (root_two_lo, root_two_hi) = svm_math::exp2_bounds(500_000, SCALE)?;
    assert!(root_two_lo <= 1_414_214 && root_two_hi >= 1_414_213);
    let (one_lo, one_hi) = svm_math::log2_bounds(2 * SCALE, SCALE)?;
    assert!(one_lo <= SCALE as i64 && one_hi >= SCALE as i64);

    let (net, charged) = defi::fee::net_of_fee(250_000, 30)?;
    assert_eq!(net + charged, 250_000);
    let output = defi::amm::quote_exact_in(5_000_000, 4_000_000, 250_000, 30)?;
    let least_replay = defi::amm::quote_exact_out(5_000_000, 4_000_000, output, 30)?;
    assert!(least_replay <= 250_000);
    Ok(())
}
