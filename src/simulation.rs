use vstd::prelude::*;

use crate::config::ArbitrageConfig;
use crate::errors::FlashLoanArbitrageError;
use crate::math::{calculate_loan_repayment, estimate_outcome, estimate_swap_output, repayment_of};

verus! {

/// The outcome of a simulated run: both swaps return their estimates, the
/// profit is what the second returns less the repayment (zero where that is
/// negative), and it must reach `min_profit_amount`.
pub open spec fn simulation_outcome(
    config: ArbitrageConfig,
    loan_amount: u64,
    min_profit_amount: u64,
) -> Result<u64, FlashLoanArbitrageError> {
    match estimate_outcome(loan_amount, config.estimated_output_percent) {
        Err(error) => Err(error),
        Ok(intermediate) => match estimate_outcome(intermediate, config.estimated_output_percent) {
            Err(error) => Err(error),
            Ok(returned) => {
                let repayment = repayment_of(loan_amount, config.flash_loan_fee_bps);
                let profit = if returned >= repayment {
                    returned - repayment
                } else {
                    0
                };
                if profit < min_profit_amount {
                    Err(FlashLoanArbitrageError::InsufficientProfit)
                } else {
                    Ok(profit as u64)
                }
            },
        },
    }
}

/// Estimates the profit of a run from the estimated swap outputs alone,
/// without any side effect; fails when an estimate does not fit in a `u64` or
/// the profit is short of `min_profit_amount`.
pub fn simulate_arbitrage(config: &ArbitrageConfig, loan_amount: u64, min_profit_amount: u64) -> (r: Result<
    u64,
    FlashLoanArbitrageError,
>)
    ensures
        r == simulation_outcome(*config, loan_amount, min_profit_amount),
{
    let repayment_amount = calculate_loan_repayment(loan_amount, config.flash_loan_fee_bps);
    let intermediate_amount = estimate_swap_output(loan_amount, config.estimated_output_percent)?;
    let final_amount = estimate_swap_output(intermediate_amount, config.estimated_output_percent)?;
    let estimated_profit = final_amount.checked_sub(repayment_amount).unwrap_or(0);
    if estimated_profit < min_profit_amount {
        Err(FlashLoanArbitrageError::InsufficientProfit)
    } else {
        Ok(estimated_profit)
    }
}

} // verus!
