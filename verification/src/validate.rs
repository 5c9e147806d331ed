//! Amount and slippage validation, and overflow-safe decimal scaling.
//!
//! Every liquidity intent passes through here before any chain interaction:
//! a zero amount, a slippage fraction outside the closed unit interval, and
//! a scaled amount that would not fit in 64 bits are each rejected with a
//! distinct error, in that order, and a valid intent is scaled exactly.

use vstd::prelude::*;

use crate::LiquidityError;

verus! {

/// Number of slippage units that make up the whole: a `Slippage` of
/// `SLIPPAGE_SCALE` basis points is a fraction of exactly one.
pub const SLIPPAGE_SCALE: i64 = 10_000;

/// A slippage fraction, held in basis points so that out-of-range requests
/// (negative, or above one) are representable and can be rejected.
#[derive(Clone, Copy, Debug, PartialEq, Eq, Structural)]
pub struct Slippage {
    /// Basis points: `bps` out of `SLIPPAGE_SCALE` parts.
    pub bps: i64,
}

impl Slippage {
    /// The fraction lies in the closed interval from zero to one.
    pub open spec fn in_range(self) -> bool {
        0 <= self.bps <= SLIPPAGE_SCALE
    }

    /// The fraction is strictly greater than zero.
    pub open spec fn is_positive(self) -> bool {
        self.bps > 0
    }

    /// Runtime check matching `in_range`.
    pub fn check_in_range(&self) -> (r: bool)
        ensures
            r == self.in_range(),
    {
        0 <= self.bps && self.bps <= SLIPPAGE_SCALE
    }

    /// Runtime check matching `is_positive`: the boolean handed to the
    /// withdrawal builder, which supports no continuous tolerance — it can
    /// only be told whether to enforce a floor on what comes back.
    pub fn check_positive(&self) -> (r: bool)
        ensures
            r == self.is_positive(),
    {
        self.bps > 0
    }
}

/// What validation and scaling must return for the given inputs: the checks
/// run in a fixed order (zero amount, slippage range, overflow), and a valid
/// intent is scaled to `raw_amount * decimals_multiplier` exactly.
pub open spec fn spec_validate_and_scale(
    raw_amount: u64,
    slippage: Slippage,
    decimals_multiplier: u64,
) -> Result<u64, LiquidityError> {
    if raw_amount == 0 {
        Err(LiquidityError::AmountZero)
    } else if !slippage.in_range() {
        Err(LiquidityError::SlippageOutOfRange)
    } else if raw_amount * decimals_multiplier > u64::MAX {
        Err(LiquidityError::MultiplicationOverflow)
    } else {
        Ok((raw_amount * decimals_multiplier) as u64)
    }
}

/// A zero amount always fails validation with `AmountZero`, whatever the
/// slippage — in range or not — and whatever the multiplier.
pub proof fn lemma_zero_amount_always_rejected(slippage: Slippage, decimals_multiplier: u64)
    ensures
        spec_validate_and_scale(0, slippage, decimals_multiplier)
            == Err::<u64, LiquidityError>(LiquidityError::AmountZero),
{
}

/// A slippage fraction outside the closed unit interval always fails
/// validation with `SlippageOutOfRange`, whatever the multiplier.
pub proof fn lemma_out_of_range_slippage_rejected(
    raw_amount: u64,
    slippage: Slippage,
    decimals_multiplier: u64,
)
    requires
        raw_amount != 0,
        !slippage.in_range(),
    ensures
        spec_validate_and_scale(raw_amount, slippage, decimals_multiplier)
            == Err::<u64, LiquidityError>(LiquidityError::SlippageOutOfRange),
{
}

/// A product that exceeds the representable range always fails validation
/// with `MultiplicationOverflow`: no wrapped or truncated value is ever
/// returned.
pub proof fn lemma_overflowing_product_rejected(
    raw_amount: u64,
    slippage: Slippage,
    decimals_multiplier: u64,
)
    requires
        raw_amount != 0,
        slippage.in_range(),
        raw_amount * decimals_multiplier > u64::MAX,
    ensures
        spec_validate_and_scale(raw_amount, slippage, decimals_multiplier)
            == Err::<u64, LiquidityError>(LiquidityError::MultiplicationOverflow),
{
}

/// A valid intent is scaled to exactly the mathematical product of the raw
/// amount and the multiplier.
pub proof fn lemma_valid_intent_scaled_exactly(
    raw_amount: u64,
    slippage: Slippage,
    decimals_multiplier: u64,
)
    requires
        raw_amount != 0,
        slippage.in_range(),
        raw_amount * decimals_multiplier <= u64::MAX,
    ensures
        spec_validate_and_scale(raw_amount, slippage, decimals_multiplier)
            == Ok::<u64, LiquidityError>((raw_amount * decimals_multiplier) as u64),
{
}

/// Validates a raw user amount and a slippage fraction, and scales the
/// amount by the pool's decimal multiplier with overflow detection.
///
/// A zero amount is rejected whatever the slippage; an out-of-range slippage
/// is rejected whatever the multiplier; an overflowing product is rejected
/// rather than wrapped or truncated; and otherwise the exact product is
/// returned.
pub fn validate_and_scale(
    raw_amount: u64,
    slippage: Slippage,
    decimals_multiplier: u64,
) -> (r: Result<u64, LiquidityError>)
    ensures
        r == spec_validate_and_scale(raw_amount, slippage, decimals_multiplier),
{
    if raw_amount == 0 {
        return Err(LiquidityError::AmountZero);
    }
    if !slippage.check_in_range() {
        return Err(LiquidityError::SlippageOutOfRange);
    }
    match raw_amount.checked_mul(decimals_multiplier) {
        Some(scaled) => Ok(scaled),
        None => Err(LiquidityError::MultiplicationOverflow),
    }
}

} // verus!
