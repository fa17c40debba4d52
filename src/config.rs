use vstd::prelude::*;

verus! {

/// Smallest loan accepted, in base units.
pub const MIN_LOAN_AMOUNT: u64 = 1_000;

/// Largest loan accepted, in base units.
pub const MAX_LOAN_AMOUNT: u64 = 1_000_000_000_000;

/// Floor under the caller's required profit, in base units.
pub const MIN_PROFIT_THRESHOLD: u64 = 1000;

/// Lending fee: 0.3%.
pub const FLASH_LOAN_FEE_BPS: u64 = 30;

/// One whole in basis points.
pub const BPS_DIVISOR: u64 = 10000;

/// Slippage tolerance on each swap: 1%.
pub const DEFAULT_SLIPPAGE_BPS: u64 = 100;

/// Largest time allowed between the start of a run and any checkpoint.
pub const MAX_EXECUTION_TIME: i64 = 30;

/// Fixed-ratio price estimate: a swap is expected to return 98% of its input.
pub const ESTIMATED_OUTPUT_PERCENT: u64 = 98;

/// The tunable constants of a run, injected rather than compiled in.
#[derive(Debug, Clone, Copy, PartialEq, Eq, Structural)]
pub struct ArbitrageConfig {
    pub min_loan_amount: u64,
    pub max_loan_amount: u64,
    pub min_profit_threshold: u64,
    pub flash_loan_fee_bps: u64,
    pub slippage_bps: u64,
    pub max_execution_time: i64,
    pub estimated_output_percent: u64,
}

impl ArbitrageConfig {
    /// The configuration made of the protocol's default constants.
    pub open spec fn spec_default() -> ArbitrageConfig {
        ArbitrageConfig {
            min_loan_amount: MIN_LOAN_AMOUNT,
            max_loan_amount: MAX_LOAN_AMOUNT,
            min_profit_threshold: MIN_PROFIT_THRESHOLD,
            flash_loan_fee_bps: FLASH_LOAN_FEE_BPS,
            slippage_bps: DEFAULT_SLIPPAGE_BPS,
            max_execution_time: MAX_EXECUTION_TIME,
            estimated_output_percent: ESTIMATED_OUTPUT_PERCENT,
        }
    }

    /// The default configuration with another lending fee.
    pub fn with_fee_bps(fee_bps: u64) -> (r: ArbitrageConfig)
        ensures
            r == (ArbitrageConfig { flash_loan_fee_bps: fee_bps, ..ArbitrageConfig::spec_default() }),
    {
        let mut c = ArbitrageConfig::default();
        c.flash_loan_fee_bps = fee_bps;
        c
    }
}

impl Default for ArbitrageConfig {
    fn default() -> (r: ArbitrageConfig)
        ensures
            r == ArbitrageConfig::spec_default(),
    {
        ArbitrageConfig {
            min_loan_amount: MIN_LOAN_AMOUNT,
            max_loan_amount: MAX_LOAN_AMOUNT,
            min_profit_threshold: MIN_PROFIT_THRESHOLD,
            flash_loan_fee_bps: FLASH_LOAN_FEE_BPS,
            slippage_bps: DEFAULT_SLIPPAGE_BPS,
            max_execution_time: MAX_EXECUTION_TIME,
            estimated_output_percent: ESTIMATED_OUTPUT_PERCENT,
        }
    }
}

} // verus!
