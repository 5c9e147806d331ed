//! Client-side orchestration for liquidity operations against an on-chain
//! AMM pool: amount and slippage validation with overflow-safe decimal
//! scaling, translation of validated intents into builder commands, atomic
//! composition of several instruction sets into one transaction, a
//! simulate-then-submit transaction pipeline with a dry-run mode, and
//! consistency checks for locally cached market and pool records.

use vstd::prelude::*;

pub mod accounts;
pub mod cache;
pub mod ops;
pub mod pipeline;
pub mod validate;

verus! {

/// Failure of a liquidity operation before anything is sent to the chain.
#[derive(Debug, Clone, PartialEq, Eq)]
pub enum LiquidityError {
    /// The user-supplied amount was zero.
    AmountZero,
    /// The slippage fraction lies outside the closed interval from zero to one.
    SlippageOutOfRange,
    /// Scaling the raw amount by the pool's decimal multiplier would overflow.
    MultiplicationOverflow,
    /// The instruction builder failed outright.
    InstructionGenerationFailed,
    /// An error reported by a collaborator, carried as its message.
    InternalError(String),
    /// The instruction builder returned no instructions at all.
    NoInstructions,
}

} // verus!
