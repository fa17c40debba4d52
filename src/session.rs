use vstd::prelude::*;

use crate::accounts::{check_lender_accounts, check_token_accounts, lender_owns_accounts, token_accounts_outcome, AccountSet};
use crate::config::ArbitrageConfig;
use crate::errors::FlashLoanArbitrageError;
use crate::instruction::{flash_loan_instruction_data, swap_instruction_data, u64_le, FLASH_LOAN_OPCODE, SWAP_OPCODE};
use crate::math::{
    calculate_loan_repayment, calculate_min_amount_with_slippage, check_execution_time, check_profit,
    estimate_outcome, estimate_swap_output, min_out_of, profit_outcome, repayment_of, timed_out,
};
use crate::validation::{validate_inputs, validation_outcome};

verus! {

/// The quote for one swap leg: what it is expected to return and the least
/// it may return.
#[derive(Debug, Clone, Copy, PartialEq, Eq, Structural)]
pub struct SwapConfig {
    pub estimated_out_amount: u64,
    pub min_out_amount: u64,
    pub slippage_bps: u64,
}

/// Where a run stands. A run moves forward only: the loan is requested, then
/// swap A, then swap B, then the repayment, and it ends committed or aborted.
#[derive(Debug, Clone, Copy, PartialEq, Eq, Structural)]
pub enum Stage {
    /// Inputs and accounts are valid; the loan has been requested.
    AwaitingLoan,
    /// The loan is taken; swap A has been submitted with this quote.
    AwaitingSwapA { swap_a: SwapConfig },
    /// Swap A returned `intermediate`; swap B has been submitted with this quote.
    AwaitingSwapB { intermediate: u64, swap_b: SwapConfig },
    /// Swap B left `final_balance`; `repayment` is being paid back.
    AwaitingRepayment { final_balance: u64, repayment: u64 },
    /// Repaid with at least the required profit.
    Committed { profit: u64 },
    /// Stopped on `error`; the host reverts every effect.
    Aborted { error: FlashLoanArbitrageError },
}

/// What the host must do next.
#[derive(Debug)]
pub enum Action {
    /// Call the lending program with `data`, then report the clock.
    Borrow { data: Vec<u8> },
    /// Call venue A with `data`, then report the clock and the balance of
    /// venue A's output token account.
    SwapOnVenueA { data: Vec<u8> },
    /// Call venue B with `data`, then report the clock and the balance of the
    /// loan token account.
    SwapOnVenueB { data: Vec<u8> },
    /// Transfer `amount` from the loan token account to the lender's reserve,
    /// then report the clock and the balance of the loan token account.
    Repay { amount: u64 },
    /// The run is over with this outcome: the profit, or why it aborted.
    Finish { outcome: Result<u64, FlashLoanArbitrageError> },
}

/// What the host observed after performing an action.
#[derive(Debug, Clone, Copy, PartialEq, Eq, Structural)]
pub enum Event {
    /// The call succeeded; `now` is the clock and `balance` the balance that
    /// the action asked for (zero where it asked for none).
    Completed { now: i64, balance: u64 },
    /// The call failed.
    Failed,
}

/// One arbitrage run: its fixed inputs and the stage it has reached.
#[derive(Debug, Clone, Copy)]
pub struct ArbitrageSession {
    pub config: ArbitrageConfig,
    pub accounts: AccountSet,
    pub loan_amount: u64,
    pub min_profit_amount: u64,
    /// Clock reading when the run began.
    pub start_time: i64,
    /// Balance of the loan token account before the loan.
    pub initial_balance: u64,
    pub stage: Stage,
}

/// The quote for swapping `amount` under `config`, or `MathOverflow` where
/// the estimate does not fit in a `u64`.
pub open spec fn quote_outcome(amount: u64, config: ArbitrageConfig) -> Result<SwapConfig, FlashLoanArbitrageError> {
    match estimate_outcome(amount, config.estimated_output_percent) {
        Err(error) => Err(error),
        Ok(estimated) => Ok(
            SwapConfig {
                estimated_out_amount: estimated,
                min_out_amount: min_out_of(estimated, config.slippage_bps) as u64,
                slippage_bps: config.slippage_bps,
            },
        ),
    }
}

/// The decision taken before anything is requested: token accounts, then
/// inputs, then the lender's accounts.
pub open spec fn begin_outcome(
    config: ArbitrageConfig,
    accounts: AccountSet,
    loan_amount: u64,
    min_profit_amount: u64,
) -> Result<(), FlashLoanArbitrageError> {
    if token_accounts_outcome(accounts) is Err {
        token_accounts_outcome(accounts)
    } else if validation_outcome(
        config,
        loan_amount,
        min_profit_amount,
        accounts.dex_a_program@,
        accounts.dex_b_program@,
    ) is Err {
        validation_outcome(config, loan_amount, min_profit_amount, accounts.dex_a_program@, accounts.dex_b_program@)
    } else if !lender_owns_accounts(accounts) {
        Err(FlashLoanArbitrageError::LendingPoolOwnerMismatch)
    } else {
        Ok(())
    }
}

/// The stage reached from `s` on `e`.
pub open spec fn next_stage(s: ArbitrageSession, e: Event) -> Stage {
    let c = s.config;
    let a = s.accounts;
    match s.stage {
        Stage::AwaitingLoan => match e {
            Event::Failed => Stage::Aborted { error: FlashLoanArbitrageError::FlashLoanInitFailed },
            Event::Completed { now, .. } => {
                if timed_out(s.start_time, now, c.max_execution_time) {
                    Stage::Aborted { error: FlashLoanArbitrageError::InstructionTimeoutExceeded }
                } else {
                    match quote_outcome(s.loan_amount, c) {
                        Err(error) => Stage::Aborted { error },
                        Ok(swap_a) => {
                            if a.dex_a_pool_owner@ != a.dex_a_program@ {
                                Stage::Aborted { error: FlashLoanArbitrageError::DexPoolOwnerMismatch }
                            } else {
                                Stage::AwaitingSwapA { swap_a }
                            }
                        },
                    }
                }
            },
        },
        Stage::AwaitingSwapA { swap_a } => match e {
            Event::Failed => Stage::Aborted { error: FlashLoanArbitrageError::DexSwapFailed },
            Event::Completed { now, balance } => {
                if balance < swap_a.min_out_amount {
                    Stage::Aborted { error: FlashLoanArbitrageError::FirstSwapInsufficientOutput }
                } else if timed_out(s.start_time, now, c.max_execution_time) {
                    Stage::Aborted { error: FlashLoanArbitrageError::InstructionTimeoutExceeded }
                } else {
                    match quote_outcome(balance, c) {
                        Err(error) => Stage::Aborted { error },
                        Ok(swap_b) => {
                            if a.dex_b_pool_owner@ != a.dex_b_program@ {
                                Stage::Aborted { error: FlashLoanArbitrageError::DexPoolOwnerMismatch }
                            } else {
                                Stage::AwaitingSwapB { intermediate: balance, swap_b }
                            }
                        },
                    }
                }
            },
        },
        Stage::AwaitingSwapB { swap_b, .. } => match e {
            Event::Failed => Stage::Aborted { error: FlashLoanArbitrageError::DexSwapFailed },
            Event::Completed { now, balance } => {
                if balance < swap_b.min_out_amount {
                    Stage::Aborted { error: FlashLoanArbitrageError::SecondSwapInsufficientOutput }
                } else if timed_out(s.start_time, now, c.max_execution_time) {
                    Stage::Aborted { error: FlashLoanArbitrageError::InstructionTimeoutExceeded }
                } else if balance < repayment_of(s.loan_amount, c.flash_loan_fee_bps) {
                    Stage::Aborted { error: FlashLoanArbitrageError::FlashLoanRepaymentFailed }
                } else if a.loan_reserve_owner@ != a.lending_program@ {
                    Stage::Aborted { error: FlashLoanArbitrageError::LendingPoolOwnerMismatch }
                } else {
                    Stage::AwaitingRepayment {
                        final_balance: balance,
                        repayment: repayment_of(s.loan_amount, c.flash_loan_fee_bps) as u64,
                    }
                }
            },
        },
        Stage::AwaitingRepayment { .. } => match e {
            Event::Failed => Stage::Aborted { error: FlashLoanArbitrageError::FlashLoanRepaymentFailed },
            Event::Completed { now, balance } => {
                match profit_outcome(s.initial_balance, balance, s.min_profit_amount) {
                    Err(error) => Stage::Aborted { error },
                    Ok(profit) => {
                        if timed_out(s.start_time, now, c.max_execution_time) {
                            Stage::Aborted { error: FlashLoanArbitrageError::InstructionTimeoutExceeded }
                        } else {
                            Stage::Committed { profit }
                        }
                    },
                }
            },
        },
        Stage::Committed { .. } | Stage::Aborted { .. } => s.stage,
    }
}

/// `action` is what the host must do for session `s` at its current stage.
pub open spec fn action_for(s: ArbitrageSession, action: Action) -> bool {
    match s.stage {
        Stage::AwaitingLoan => action matches Action::Borrow { data } && data@ == seq![FLASH_LOAN_OPCODE]
            + u64_le(s.loan_amount),
        Stage::AwaitingSwapA { swap_a } => action matches Action::SwapOnVenueA { data } && data@ == seq![
            SWAP_OPCODE,
        ] + u64_le(s.loan_amount) + u64_le(swap_a.min_out_amount),
        Stage::AwaitingSwapB { intermediate, swap_b } => action matches Action::SwapOnVenueB { data }
            && data@ == seq![SWAP_OPCODE] + u64_le(intermediate) + u64_le(swap_b.min_out_amount),
        Stage::AwaitingRepayment { repayment, .. } => action == Action::Repay { amount: repayment },
        Stage::Committed { profit } => action == Action::Finish { outcome: Ok(profit) },
        Stage::Aborted { error } => action == Action::Finish { outcome: Err(error) },
    }
}

/// How far along the pipeline a stage lies.
pub open spec fn stage_rank(st: Stage) -> int {
    match st {
        Stage::AwaitingLoan => 0,
        Stage::AwaitingSwapA { .. } => 1,
        Stage::AwaitingSwapB { .. } => 2,
        Stage::AwaitingRepayment { .. } => 3,
        Stage::Committed { .. } => 4,
        Stage::Aborted { .. } => 4,
    }
}

/// The stage ends the run.
pub open spec fn is_terminal(st: Stage) -> bool {
    st is Committed || st is Aborted
}

/// Computes the quote for swapping `amount`.
pub fn quote_swap(amount: u64, config: &ArbitrageConfig) -> (r: Result<SwapConfig, FlashLoanArbitrageError>)
    ensures
        r == quote_outcome(amount, *config),
{
    let estimated = estimate_swap_output(amount, config.estimated_output_percent)?;
    Ok(
        SwapConfig {
            estimated_out_amount: estimated,
            min_out_amount: calculate_min_amount_with_slippage(estimated, config.slippage_bps),
            slippage_bps: config.slippage_bps,
        },
    )
}

impl ArbitrageSession {
    /// Starts a run: checks the accounts and inputs and, when they pass,
    /// requests the loan. `start_time` is the clock and `initial_balance` the
    /// balance of the loan token account, both read before this call.
    pub fn begin(
        config: ArbitrageConfig,
        accounts: AccountSet,
        loan_amount: u64,
        min_profit_amount: u64,
        start_time: i64,
        initial_balance: u64,
    ) -> (r: (ArbitrageSession, Action))
        ensures
            r.0.config == config,
            r.0.accounts == accounts,
            r.0.loan_amount == loan_amount,
            r.0.min_profit_amount == min_profit_amount,
            r.0.start_time == start_time,
            r.0.initial_balance == initial_balance,
            r.0.stage == (match begin_outcome(config, accounts, loan_amount, min_profit_amount) {
                Ok(_) => Stage::AwaitingLoan,
                Err(error) => Stage::Aborted { error },
            }),
            action_for(r.0, r.1),
    {
        let checked = match check_token_accounts(&accounts) {
            Err(e) => Err(e),
            Ok(()) => match validate_inputs(
                &config,
                loan_amount,
                min_profit_amount,
                &accounts.dex_a_program,
                &accounts.dex_b_program,
            ) {
                Err(e) => Err(e),
                Ok(()) => check_lender_accounts(&accounts),
            },
        };
        let (stage, action) = match checked {
            Err(error) => (Stage::Aborted { error }, Action::Finish { outcome: Err(error) }),
            Ok(()) => (Stage::AwaitingLoan, Action::Borrow { data: flash_loan_instruction_data(loan_amount) }),
        };
        let session = ArbitrageSession {
            config,
            accounts,
            loan_amount,
            min_profit_amount,
            start_time,
            initial_balance,
            stage,
        };
        (session, action)
    }

    /// Takes the host's report on the last action and decides the next one.
    pub fn advance(&mut self, event: Event) -> (action: Action)
        ensures
            final(self).stage == next_stage(*old(self), event),
            final(self).config == old(self).config,
            final(self).accounts == old(self).accounts,
            final(self).loan_amount == old(self).loan_amount,
            final(self).min_profit_amount == old(self).min_profit_amount,
            final(self).start_time == old(self).start_time,
            final(self).initial_balance == old(self).initial_balance,
            action_for(*final(self), action),
            is_terminal(old(self).stage) ==> final(self).stage == old(self).stage,
            !is_terminal(old(self).stage) ==> stage_rank(final(self).stage) > stage_rank(old(self).stage),
    {
        let stage = self.stage;
        match stage {
            Stage::AwaitingLoan => match event {
                Event::Failed => self.abort(FlashLoanArbitrageError::FlashLoanInitFailed),
                Event::Completed { now, balance: _ } => {
                    if check_execution_time(self.start_time, now, self.config.max_execution_time).is_err() {
                        return self.abort(FlashLoanArbitrageError::InstructionTimeoutExceeded);
                    }
                    let swap_a = match quote_swap(self.loan_amount, &self.config) {
                        Err(error) => return self.abort(error),
                        Ok(q) => q,
                    };
                    if !self.accounts.dex_a_pool_owner.same_as(&self.accounts.dex_a_program) {
                        return self.abort(FlashLoanArbitrageError::DexPoolOwnerMismatch);
                    }
                    self.stage = Stage::AwaitingSwapA { swap_a };
                    Action::SwapOnVenueA { data: swap_instruction_data(self.loan_amount, swap_a.min_out_amount) }
                },
            },
            Stage::AwaitingSwapA { swap_a } => match event {
                Event::Failed => self.abort(FlashLoanArbitrageError::DexSwapFailed),
                Event::Completed { now, balance } => {
                    if balance < swap_a.min_out_amount {
                        return self.abort(FlashLoanArbitrageError::FirstSwapInsufficientOutput);
                    }
                    if check_execution_time(self.start_time, now, self.config.max_execution_time).is_err() {
                        return self.abort(FlashLoanArbitrageError::InstructionTimeoutExceeded);
                    }
                    let swap_b = match quote_swap(balance, &self.config) {
                        Err(error) => return self.abort(error),
                        Ok(q) => q,
                    };
                    if !self.accounts.dex_b_pool_owner.same_as(&self.accounts.dex_b_program) {
                        return self.abort(FlashLoanArbitrageError::DexPoolOwnerMismatch);
                    }
                    self.stage = Stage::AwaitingSwapB { intermediate: balance, swap_b };
                    Action::SwapOnVenueB { data: swap_instruction_data(balance, swap_b.min_out_amount) }
                },
            },
            Stage::AwaitingSwapB { intermediate: _, swap_b } => match event {
                Event::Failed => self.abort(FlashLoanArbitrageError::DexSwapFailed),
                Event::Completed { now, balance } => {
                    if balance < swap_b.min_out_amount {
                        return self.abort(FlashLoanArbitrageError::SecondSwapInsufficientOutput);
                    }
                    if check_execution_time(self.start_time, now, self.config.max_execution_time).is_err() {
                        return self.abort(FlashLoanArbitrageError::InstructionTimeoutExceeded);
                    }
                    let repayment = calculate_loan_repayment(self.loan_amount, self.config.flash_loan_fee_bps);
                    if balance < repayment {
                        return self.abort(FlashLoanArbitrageError::FlashLoanRepaymentFailed);
                    }
                    if !self.accounts.loan_reserve_owner.same_as(&self.accounts.lending_program) {
                        return self.abort(FlashLoanArbitrageError::LendingPoolOwnerMismatch);
                    }
                    self.stage = Stage::AwaitingRepayment { final_balance: balance, repayment };
                    Action::Repay { amount: repayment }
                },
            },
            Stage::AwaitingRepayment { final_balance: _, repayment: _ } => match event {
                Event::Failed => self.abort(FlashLoanArbitrageError::FlashLoanRepaymentFailed),
                Event::Completed { now, balance } => {
                    match check_profit(self.initial_balance, balance, self.min_profit_amount) {
                        Err(error) => self.abort(error),
                        Ok(profit) => {
                            if check_execution_time(self.start_time, now, self.config.max_execution_time).is_err() {
                                return self.abort(FlashLoanArbitrageError::InstructionTimeoutExceeded);
                            }
                            self.stage = Stage::Committed { profit };
                            Action::Finish { outcome: Ok(profit) }
                        },
                    }
                },
            },
            Stage::Committed { profit } => Action::Finish { outcome: Ok(profit) },
            Stage::Aborted { error } => Action::Finish { outcome: Err(error) },
        }
    }

    /// Ends the run on `error`.
    fn abort(&mut self, error: FlashLoanArbitrageError) -> (action: Action)
        ensures
            *final(self) == (ArbitrageSession { stage: Stage::Aborted { error }, ..*old(self) }),
            action == (Action::Finish { outcome: Err(error) }),
    {
        self.stage = Stage::Aborted { error };
        Action::Finish { outcome: Err(error) }
    }
}

} // verus!
