use flash_loan_arbitrage::config::{ArbitrageConfig, FLASH_LOAN_FEE_BPS, MAX_LOAN_AMOUNT, MIN_LOAN_AMOUNT};
use flash_loan_arbitrage::errors::FlashLoanArbitrageError;
use flash_loan_arbitrage::math::{
    calculate_loan_repayment, calculate_min_amount_with_slippage, check_execution_time, check_profit,
    estimate_swap_output,
};
use flash_loan_arbitrage::simulation::simulate_arbitrage;

#[test]
fn repayment_adds_default_fee() {
    assert_eq!(calculate_loan_repayment(1_000_000, FLASH_LOAN_FEE_BPS), 1_003_000);
    assert_eq!(calculate_loan_repayment(MIN_LOAN_AMOUNT, FLASH_LOAN_FEE_BPS), 1_003);
    assert_eq!(calculate_loan_repayment(MAX_LOAN_AMOUNT, FLASH_LOAN_FEE_BPS), 1_003_000_000_000);
}

#[test]
fn repayment_matches_formula_across_range() {
    let samples = [1_000u64, 1_001, 3_333, 9_999, 123_456_789, 999_999_999_999, 1_000_000_000_000];
    for p in samples {
        let r = calculate_loan_repayment(p, 30);
        assert_eq!(r, p + p * 30 / 10000);
        assert!(r >= p);
    }
}

#[test]
fn repayment_rounds_fee_down() {
    assert_eq!(calculate_loan_repayment(333, 30), 333);
    assert_eq!(calculate_loan_repayment(334, 30), 335);
}

#[test]
fn repayment_exact_when_product_exceeds_u64() {
    let p: u64 = 1 << 62;
    let expected = (p as u128 + p as u128 * 30 / 10_000) as u64;
    assert_eq!(calculate_loan_repayment(p, 30), expected);
    assert!(expected > p);
}

#[test]
fn repayment_waives_fee_when_total_does_not_fit() {
    assert_eq!(calculate_loan_repayment(u64::MAX, 30), u64::MAX);
}

#[test]
fn repayment_falls_back_to_principal_on_sum_overflow() {
    let p = u64::MAX - 1;
    assert_eq!(calculate_loan_repayment(p, 1), p);
}

#[test]
fn repayment_with_zero_fee_is_principal() {
    assert_eq!(calculate_loan_repayment(1_000_000, 0), 1_000_000);
}

#[test]
fn min_out_subtracts_slippage() {
    assert_eq!(calculate_min_amount_with_slippage(980_000, 100), 970_200);
    assert_eq!(calculate_min_amount_with_slippage(960_400, 100), 950_796);
    assert_eq!(calculate_min_amount_with_slippage(0, 100), 0);
}

#[test]
fn min_out_never_exceeds_amount() {
    let cases = [(0u64, 0u64), (1, 10_000), (1, 20_000), (10_000, 10_000), (12_345, 100), (u64::MAX, 2), (u64::MAX, 0)];
    for (amount, bps) in cases {
        assert!(calculate_min_amount_with_slippage(amount, bps) <= amount);
    }
}

#[test]
fn min_out_exact_for_large_amounts() {
    assert_eq!(calculate_min_amount_with_slippage(u64::MAX, 100), u64::MAX - u64::MAX / 100);
    assert_eq!(calculate_min_amount_with_slippage(u64::MAX, 2), u64::MAX - u64::MAX / 5_000);
    let amount: u64 = 18_000_000_000_000_000_000;
    assert_eq!(calculate_min_amount_with_slippage(amount, 100), 17_820_000_000_000_000_000);
}

#[test]
fn min_out_saturates_at_zero_when_tolerance_exceeds_amount() {
    assert_eq!(calculate_min_amount_with_slippage(1, 20_000), 0);
    assert_eq!(calculate_min_amount_with_slippage(10_000, 10_000), 0);
    assert_eq!(calculate_min_amount_with_slippage(10_000, 30_000), 0);
}

#[test]
fn estimate_is_ninety_eight_percent() {
    assert_eq!(estimate_swap_output(1_000_000, 98), Ok(980_000));
    assert_eq!(estimate_swap_output(980_000, 98), Ok(960_400));
    assert_eq!(estimate_swap_output(99, 98), Ok(97));
}

#[test]
fn estimate_exact_for_large_amounts() {
    let expected = (u64::MAX as u128 * 98 / 100) as u64;
    assert_eq!(estimate_swap_output(u64::MAX, 98), Ok(expected));
    assert!(expected > u64::MAX / 100 * 97);
}

#[test]
fn estimate_that_does_not_fit_is_overflow() {
    assert_eq!(estimate_swap_output(u64::MAX, 200), Err(FlashLoanArbitrageError::MathOverflow));
    assert_eq!(estimate_swap_output(u64::MAX, 100), Ok(u64::MAX));
}

#[test]
fn execution_window_accepts_up_to_limit() {
    assert_eq!(check_execution_time(1_000, 1_030, 30), Ok(()));
    assert_eq!(check_execution_time(1_000, 1_000, 30), Ok(()));
    assert_eq!(check_execution_time(1_000, 990, 30), Ok(()));
}

#[test]
fn execution_window_rejects_past_limit() {
    assert_eq!(
        check_execution_time(1_000, 1_031, 30),
        Err(FlashLoanArbitrageError::InstructionTimeoutExceeded)
    );
}

#[test]
fn execution_window_uses_exact_elapsed_time() {
    assert_eq!(
        check_execution_time(i64::MIN, 0, 30),
        Err(FlashLoanArbitrageError::InstructionTimeoutExceeded)
    );
    assert_eq!(
        check_execution_time(i64::MIN, i64::MAX, 30),
        Err(FlashLoanArbitrageError::InstructionTimeoutExceeded)
    );
    assert_eq!(check_execution_time(i64::MAX, i64::MIN, 30), Ok(()));
    assert_eq!(check_execution_time(i64::MAX - 30, i64::MAX, 30), Ok(()));
}

#[test]
fn profit_check_outcomes() {
    assert_eq!(check_profit(500, 2_000, 1_000), Ok(1_500));
    assert_eq!(check_profit(500, 1_500, 1_000), Ok(1_000));
    assert_eq!(check_profit(500, 1_499, 1_000), Err(FlashLoanArbitrageError::InsufficientProfit));
    assert_eq!(check_profit(500, 499, 0), Err(FlashLoanArbitrageError::MathOverflow));
}

#[test]
fn profit_check_is_monotonic_in_final_balance() {
    let (initial, min_profit) = (10_000u64, 1_000u64);
    let mut passed = false;
    for final_balance in (9_000u64..13_000).step_by(50) {
        let ok = check_profit(initial, final_balance, min_profit).is_ok();
        assert!(!passed || ok);
        passed = passed || ok;
    }
    assert!(passed);
}

#[test]
fn simulation_with_default_ratios_is_unprofitable() {
    let config = ArbitrageConfig::default();
    assert_eq!(
        simulate_arbitrage(&config, 1_000_000, 1_000),
        Err(FlashLoanArbitrageError::InsufficientProfit)
    );
}

#[test]
fn simulation_reports_estimated_profit() {
    let mut config = ArbitrageConfig::default();
    config.estimated_output_percent = 110;
    assert_eq!(simulate_arbitrage(&config, 1_000_000, 1_000), Ok(207_000));
    assert_eq!(simulate_arbitrage(&config, 1_000_000, 207_000), Ok(207_000));
    assert_eq!(
        simulate_arbitrage(&config, 1_000_000, 207_001),
        Err(FlashLoanArbitrageError::InsufficientProfit)
    );
}

#[test]
fn simulation_aborts_when_estimate_does_not_fit() {
    let mut config = ArbitrageConfig::default();
    config.estimated_output_percent = u64::MAX;
    assert_eq!(simulate_arbitrage(&config, 1_000_000, 1_000), Err(FlashLoanArbitrageError::MathOverflow));
}

#[test]
fn default_config_holds_protocol_constants() {
    let c = ArbitrageConfig::default();
    assert_eq!(c.min_loan_amount, 1_000);
    assert_eq!(c.max_loan_amount, 1_000_000_000_000);
    assert_eq!(c.min_profit_threshold, 1_000);
    assert_eq!(c.flash_loan_fee_bps, 30);
    assert_eq!(c.slippage_bps, 100);
    assert_eq!(c.max_execution_time, 30);
    assert_eq!(c.estimated_output_percent, 98);
    let waived = ArbitrageConfig::with_fee_bps(0);
    assert_eq!(waived.flash_loan_fee_bps, 0);
    assert_eq!(waived.slippage_bps, 100);
}

#[test]
fn error_messages() {
    assert_eq!(FlashLoanArbitrageError::SameDexError.message(), "DEX A and DEX B cannot be the same");
    assert_eq!(FlashLoanArbitrageError::MathOverflow.message(), "Math operation overflow");
}
