use vstd::prelude::*;

use crate::config::BPS_DIVISOR;
use crate::errors::FlashLoanArbitrageError;

verus! {

/// `floor(amount * bps / 10000)`, in unbounded arithmetic.
pub open spec fn bps_share(amount: u64, bps: u64) -> int {
    amount * bps / 10000
}

/// What is owed on a loan of `principal` at a fee of `fee_bps`: principal plus
/// fee, or the principal alone (the fee waived) where that sum does not fit in
/// a `u64`.
pub open spec fn repayment_of(principal: u64, fee_bps: u64) -> int {
    if principal + bps_share(principal, fee_bps) <= u64::MAX {
        principal + bps_share(principal, fee_bps)
    } else {
        principal as int
    }
}

/// The least acceptable swap output for an expected `amount` with a slippage
/// tolerance of `slippage_bps`, saturating at zero.
pub open spec fn min_out_of(amount: u64, slippage_bps: u64) -> int {
    if bps_share(amount, slippage_bps) <= amount {
        amount - bps_share(amount, slippage_bps)
    } else {
        0
    }
}

/// The fixed-ratio estimate of a swap's output: `floor(amount * percent / 100)`,
/// in unbounded arithmetic.
pub open spec fn estimate_of(amount: u64, percent: u64) -> int {
    amount * percent / 100
}

/// The estimate, or `MathOverflow` where it does not fit in a `u64`.
pub open spec fn estimate_outcome(amount: u64, percent: u64) -> Result<u64, FlashLoanArbitrageError> {
    if estimate_of(amount, percent) <= u64::MAX {
        Ok(estimate_of(amount, percent) as u64)
    } else {
        Err(FlashLoanArbitrageError::MathOverflow)
    }
}

/// A checkpoint at `now` lies outside the window opened at `start`: the
/// elapsed time, in unbounded arithmetic, exceeds `max_elapsed`.
pub open spec fn timed_out(start: i64, now: i64, max_elapsed: i64) -> bool {
    now - start > max_elapsed
}

/// The outcome of the final profit check.
pub open spec fn profit_outcome(initial: u64, after: u64, min_profit: u64) -> Result<u64, FlashLoanArbitrageError> {
    if after < initial {
        Err(FlashLoanArbitrageError::MathOverflow)
    } else if after - initial < min_profit {
        Err(FlashLoanArbitrageError::InsufficientProfit)
    } else {
        Ok((after - initial) as u64)
    }
}

/// `floor(a * b / d)`, computed in 128 bits, where the product always fits.
fn wide_mul_div(a: u64, b: u64, d: u64) -> (r: u128)
    requires
        d > 0,
    ensures
        r == a * b / (d as int),
{
    assert(a * b <= u64::MAX * u64::MAX) by (nonlinear_arith)
        requires
            a <= u64::MAX,
            b <= u64::MAX,
    ;
    (a as u128) * (b as u128) / (d as u128)
}

/// Principal plus fee owed to the lender; the fee is waived where the sum
/// does not fit in a `u64`.
pub fn calculate_loan_repayment(principal: u64, fee_bps: u64) -> (r: u64)
    ensures
        r == repayment_of(principal, fee_bps),
        r >= principal,
{
    let fee = wide_mul_div(principal, fee_bps, BPS_DIVISOR);
    if fee > u64::MAX as u128 {
        principal
    } else {
        principal.checked_add(fee as u64).unwrap_or(principal)
    }
}

/// The least output a swap may return, given its expected output: the amount
/// less its slippage share, or zero where the share exceeds it.
pub fn calculate_min_amount_with_slippage(amount: u64, slippage_bps: u64) -> (r: u64)
    ensures
        r == min_out_of(amount, slippage_bps),
        r <= amount,
{
    let slippage = wide_mul_div(amount, slippage_bps, BPS_DIVISOR);
    if slippage <= amount as u128 {
        amount - slippage as u64
    } else {
        0
    }
}

/// The expected output of a swap of `amount`, at a fixed ratio of `percent`;
/// `MathOverflow` where it does not fit in a `u64`.
pub fn estimate_swap_output(amount: u64, percent: u64) -> (r: Result<u64, FlashLoanArbitrageError>)
    ensures
        r == estimate_outcome(amount, percent),
{
    let estimate = wide_mul_div(amount, percent, 100);
    if estimate <= u64::MAX as u128 {
        Ok(estimate as u64)
    } else {
        Err(FlashLoanArbitrageError::MathOverflow)
    }
}

/// Fails with `InstructionTimeoutExceeded` when the checkpoint at `now` lies
/// outside the execution window.
pub fn check_execution_time(start_time: i64, current_time: i64, max_elapsed: i64) -> (r: Result<(), FlashLoanArbitrageError>)
    ensures
        r is Err <==> timed_out(start_time, current_time, max_elapsed),
        r is Err ==> r == Err::<(), _>(FlashLoanArbitrageError::InstructionTimeoutExceeded),
{
    let elapsed: i128 = current_time as i128 - start_time as i128;
    if elapsed <= max_elapsed as i128 {
        Ok(())
    } else {
        Err(FlashLoanArbitrageError::InstructionTimeoutExceeded)
    }
}

/// The profit of a run, from the balance before the loan and the balance
/// after repayment; fails when the balance shrank or the profit is short of
/// `min_profit`.
pub fn check_profit(initial_balance: u64, final_balance: u64, min_profit: u64) -> (r: Result<u64, FlashLoanArbitrageError>)
    ensures
        r == profit_outcome(initial_balance, final_balance, min_profit),
{
    match final_balance.checked_sub(initial_balance) {
        None => Err(FlashLoanArbitrageError::MathOverflow),
        Some(profit) => {
            if profit < min_profit {
                Err(FlashLoanArbitrageError::InsufficientProfit)
            } else {
                Ok(profit)
            }
        },
    }
}

} // verus!
