use vstd::prelude::*;

use crate::config::{ArbitrageConfig, FLASH_LOAN_FEE_BPS, MAX_LOAN_AMOUNT, MIN_LOAN_AMOUNT};
use crate::errors::FlashLoanArbitrageError;
use crate::math::{min_out_of, profit_outcome, repayment_of};
use crate::session::{is_terminal, next_stage, ArbitrageSession, Event, Stage};
use crate::validation::validation_outcome;

verus! {

/// At the default fee, a loan in the accepted range costs its principal plus
/// `floor(p * 30 / 10000)`, never less than the principal.
pub proof fn lemma_default_repayment(p: u64)
    requires
        MIN_LOAN_AMOUNT <= p <= MAX_LOAN_AMOUNT,
    ensures
        repayment_of(p, FLASH_LOAN_FEE_BPS) == p + p * 30 / 10000,
        repayment_of(p, FLASH_LOAN_FEE_BPS) >= p,
{
    assert(p * 30 <= 30_000_000_000_000) by (nonlinear_arith)
        requires
            p <= 1_000_000_000_000,
    ;
    assert(p * 30 / 10000 <= 3_000_000_000) by (nonlinear_arith)
        requires
            p * 30 <= 30_000_000_000_000,
    ;
}

/// The repayment is never less than the principal, whatever the fee.
pub proof fn lemma_repayment_covers_principal(p: u64, fee_bps: u64)
    ensures
        repayment_of(p, fee_bps) >= p,
{
    assert(p * fee_bps / 10000 >= 0) by (nonlinear_arith);
}

/// The slippage floor never exceeds the expected amount.
pub proof fn lemma_min_out_bounded(amount: u64, slippage_bps: u64)
    ensures
        min_out_of(amount, slippage_bps) <= amount,
{
    assert(amount * slippage_bps / 10000 >= 0) by (nonlinear_arith);
}

/// For a tolerance of at most 100%, the floor is
/// `amount - floor(amount * slippage_bps / 10000)`, for every amount.
pub proof fn lemma_min_out_formula(amount: u64, slippage_bps: u64)
    requires
        slippage_bps <= 10000,
    ensures
        min_out_of(amount, slippage_bps) == amount - amount * slippage_bps / 10000,
        min_out_of(amount, slippage_bps) <= amount,
{
    assert(amount * slippage_bps / 10000 <= amount) by (nonlinear_arith)
        requires
            slippage_bps <= 10000,
    ;
}

/// A tolerance larger than the amount itself leaves a floor of zero.
pub proof fn lemma_min_out_saturates(amount: u64, slippage_bps: u64)
    requires
        amount * slippage_bps / 10000 > amount,
    ensures
        min_out_of(amount, slippage_bps) == 0,
{
}

/// A profit check that passes for some final balance passes for every larger
/// one.
pub proof fn lemma_profit_check_monotonic(initial: u64, final_balance: u64, larger: u64, min_profit: u64)
    requires
        profit_outcome(initial, final_balance, min_profit) is Ok,
        final_balance <= larger,
    ensures
        profit_outcome(initial, larger, min_profit) is Ok,
{
}

/// The input validator keeps no state: the same inputs always get the same
/// decision.
pub proof fn lemma_validation_repeatable(
    config: ArbitrageConfig,
    loan_amount: u64,
    min_profit_amount: u64,
    dex_a_program: Seq<u8>,
    dex_b_program: Seq<u8>,
    first: Result<(), FlashLoanArbitrageError>,
    second: Result<(), FlashLoanArbitrageError>,
)
    requires
        first == validation_outcome(config, loan_amount, min_profit_amount, dex_a_program, dex_b_program),
        second == validation_outcome(config, loan_amount, min_profit_amount, dex_a_program, dex_b_program),
    ensures
        first == second,
{
}

/// A run commits only from its repayment stage, and only with the profit made
/// over the balance it started with, which meets the required minimum.
pub proof fn lemma_commit_requires_profit(s: ArbitrageSession, e: Event)
    requires
        !is_terminal(s.stage),
        next_stage(s, e) is Committed,
    ensures
        s.stage is AwaitingRepayment,
        e matches Event::Completed { now, balance } && balance >= s.initial_balance
            && next_stage(s, e) == (Stage::Committed { profit: (balance - s.initial_balance) as u64 })
            && balance - s.initial_balance >= s.min_profit_amount,
{
}

} // verus!
