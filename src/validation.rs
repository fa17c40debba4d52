use vstd::prelude::*;

use crate::accounts::Address;
use crate::config::ArbitrageConfig;
use crate::errors::FlashLoanArbitrageError;

verus! {

/// The decision of the input validator, first failure first.
pub open spec fn validation_outcome(
    config: ArbitrageConfig,
    loan_amount: u64,
    min_profit_amount: u64,
    dex_a_program: Seq<u8>,
    dex_b_program: Seq<u8>,
) -> Result<(), FlashLoanArbitrageError> {
    if loan_amount == 0 {
        Err(FlashLoanArbitrageError::InvalidLoanAmount)
    } else if loan_amount < config.min_loan_amount {
        Err(FlashLoanArbitrageError::LoanAmountTooSmall)
    } else if loan_amount > config.max_loan_amount {
        Err(FlashLoanArbitrageError::LoanAmountTooLarge)
    } else if min_profit_amount < config.min_profit_threshold {
        Err(FlashLoanArbitrageError::InsufficientProfit)
    } else if dex_a_program == dex_b_program {
        Err(FlashLoanArbitrageError::SameDexError)
    } else {
        Ok(())
    }
}

/// Checks the loan amount, the required profit and that the two venues differ.
pub fn validate_inputs(
    config: &ArbitrageConfig,
    loan_amount: u64,
    min_profit_amount: u64,
    dex_a_program: &Address,
    dex_b_program: &Address,
) -> (r: Result<(), FlashLoanArbitrageError>)
    ensures
        r == validation_outcome(*config, loan_amount, min_profit_amount, dex_a_program@, dex_b_program@),
{
    if loan_amount == 0 {
        Err(FlashLoanArbitrageError::InvalidLoanAmount)
    } else if loan_amount < config.min_loan_amount {
        Err(FlashLoanArbitrageError::LoanAmountTooSmall)
    } else if loan_amount > config.max_loan_amount {
        Err(FlashLoanArbitrageError::LoanAmountTooLarge)
    } else if min_profit_amount < config.min_profit_threshold {
        Err(FlashLoanArbitrageError::InsufficientProfit)
    } else if dex_a_program.same_as(dex_b_program) {
        Err(FlashLoanArbitrageError::SameDexError)
    } else {
        Ok(())
    }
}

} // verus!
