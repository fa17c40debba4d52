//! Flash-loan arbitrage across two exchange venues: input validation, fee and
//! slippage arithmetic, and the staged borrow / swap / swap / repay pipeline,
//! with every decision stated and proved.

pub mod config;
pub mod errors;
pub mod math;
pub mod accounts;
pub mod instruction;
pub mod validation;
pub mod session;
pub mod laws;
pub mod simulation;
