use vstd::prelude::*;

verus! {

/// Every reason for which an arbitrage run aborts.
#[derive(Debug, Clone, Copy, PartialEq, Eq, Structural)]
pub enum FlashLoanArbitrageError {
    FlashLoanInitFailed,
    FlashLoanRepaymentFailed,
    DexSwapFailed,
    InsufficientProfit,
    InvalidTokenAccount,
    InvalidPoolAccount,
    InvalidLoanAmount,
    MathOverflow,
    Unauthorized,
    TokenAccountMintMismatch,
    TokenAccountOwnerMismatch,
    DexPoolOwnerMismatch,
    LendingPoolOwnerMismatch,
    InstructionTimeoutExceeded,
    SlippageToleranceExceeded,
    FirstSwapInsufficientOutput,
    SecondSwapInsufficientOutput,
    LoanAmountTooSmall,
    LoanAmountTooLarge,
    SameDexError,
}

impl FlashLoanArbitrageError {
    /// The human-readable message for this error.
    pub fn message(&self) -> &'static str {
        match self {
            FlashLoanArbitrageError::FlashLoanInitFailed => "Flash loan initialization failed",
            FlashLoanArbitrageError::FlashLoanRepaymentFailed => "Flash loan repayment failed",
            FlashLoanArbitrageError::DexSwapFailed => "DEX swap failed",
            FlashLoanArbitrageError::InsufficientProfit => "Insufficient profit from arbitrage",
            FlashLoanArbitrageError::InvalidTokenAccount => "Invalid token account",
            FlashLoanArbitrageError::InvalidPoolAccount => "Invalid pool account",
            FlashLoanArbitrageError::InvalidLoanAmount => "Invalid loan amount",
            FlashLoanArbitrageError::MathOverflow => "Math operation overflow",
            FlashLoanArbitrageError::Unauthorized => "Unauthorized access",
            FlashLoanArbitrageError::TokenAccountMintMismatch => "Token account mint mismatch",
            FlashLoanArbitrageError::TokenAccountOwnerMismatch => "Token account owner mismatch",
            FlashLoanArbitrageError::DexPoolOwnerMismatch => "DEX pool account owner mismatch",
            FlashLoanArbitrageError::LendingPoolOwnerMismatch => "Lending pool account owner mismatch",
            FlashLoanArbitrageError::InstructionTimeoutExceeded => "Instruction timeout exceeded",
            FlashLoanArbitrageError::SlippageToleranceExceeded => "Slippage tolerance exceeded",
            FlashLoanArbitrageError::FirstSwapInsufficientOutput => "First swap failed: insufficient output",
            FlashLoanArbitrageError::SecondSwapInsufficientOutput => "Second swap failed: insufficient output",
            FlashLoanArbitrageError::LoanAmountTooSmall => "Loan amount too small",
            FlashLoanArbitrageError::LoanAmountTooLarge => "Loan amount too large",
            FlashLoanArbitrageError::SameDexError => "DEX A and DEX B cannot be the same",
        }
    }
}

} // verus!
