//! Translation of validated liquidity intents into builder commands, and
//! atomic composition of the built instruction sets.
//!
//! The AMM-specific account derivation and argument encoding live in an
//! external instruction builder, reached through the narrow
//! [`InstructionBuilder`] capability. This module validates and scales the
//! user's request, fixes the exact command handed to the builder, converts
//! an empty builder result into an explicit error rather than a silent
//! no-op, and concatenates the instruction sets of a combined
//! add-then-remove operation into one sequence, to be submitted as a single
//! atomic transaction.

use vstd::prelude::*;

use crate::LiquidityError;
use crate::accounts::AmmPoolInfo;
use crate::validate::{Slippage, spec_validate_and_scale, validate_and_scale};
use solana_program::instruction::Instruction;

verus! {

#[verifier::external_type_specification]
#[verifier::external_body]
pub struct ExInstruction(Instruction);

/// A command for the external instruction builder: the builder's own shape,
/// filled from validated domain values only.
///
/// Token-account fields left as `None` ask the builder to derive the
/// associated accounts itself.
#[derive(Debug, Clone, PartialEq, Eq)]
pub enum AmmCommand {
    /// Add liquidity to the pool.
    Deposit {
        pool_id: [u8; 32],
        deposit_token_coin: Option<[u8; 32]>,
        deposit_token_pc: Option<[u8; 32]>,
        recipient_token_lp: Option<[u8; 32]>,
        /// The amount to deposit, already scaled to on-chain units.
        amount_specified: u64,
        another_min_limit: bool,
        /// Which side the specified amount is denominated in.
        base_coin: bool,
    },
    /// Remove liquidity from the pool.
    Withdraw {
        pool_id: [u8; 32],
        withdraw_token_lp: Option<[u8; 32]>,
        recipient_token_coin: Option<[u8; 32]>,
        recipient_token_pc: Option<[u8; 32]>,
        /// The amount of liquidity to burn, already scaled to on-chain units.
        input_lp_amount: u64,
        /// Whether the builder should enforce a minimum received amount at
        /// all; the builder supports no continuous tolerance.
        slippage_limit: bool,
    },
}

/// The external builder of chain instructions. An implementation translates
/// one command into the concrete instruction sequence for it, returning
/// `Ok(None)` when it has nothing to build and `Err` with its message when
/// it fails; nothing further is assumed of it.
pub trait InstructionBuilder {
    fn build(&self, command: &AmmCommand) -> Result<Option<Vec<Instruction>>, String>;
}

/// The deposit command owed for the given inputs: the validation errors in
/// their fixed order, or the command with the exactly scaled amount, derived
/// token accounts, and the fixed base/quote side.
pub open spec fn spec_add_liquidity_command(
    pool_id: [u8; 32],
    amount: u64,
    slippage: Slippage,
    decimals_multiplier: u64,
) -> Result<AmmCommand, LiquidityError> {
    match spec_validate_and_scale(amount, slippage, decimals_multiplier) {
        Err(e) => Err(e),
        Ok(scaled) => Ok(AmmCommand::Deposit {
            pool_id,
            deposit_token_coin: None,
            deposit_token_pc: None,
            recipient_token_lp: None,
            amount_specified: scaled,
            another_min_limit: false,
            base_coin: false,
        }),
    }
}

/// The withdrawal command owed for the given inputs: the validation errors
/// in their fixed order, or the command with the exactly scaled LP amount
/// and the boolean slippage gate, true exactly when the slippage fraction is
/// strictly positive.
pub open spec fn spec_remove_liquidity_command(
    pool_id: [u8; 32],
    input_lp_amount: u64,
    slippage: Slippage,
    decimals_multiplier: u64,
) -> Result<AmmCommand, LiquidityError> {
    match spec_validate_and_scale(input_lp_amount, slippage, decimals_multiplier) {
        Err(e) => Err(e),
        Ok(scaled) => Ok(AmmCommand::Withdraw {
            pool_id,
            withdraw_token_lp: None,
            recipient_token_coin: None,
            recipient_token_pc: None,
            input_lp_amount: scaled,
            slippage_limit: slippage.is_positive(),
        }),
    }
}

/// Validates and scales an add-liquidity request and shapes the deposit
/// command for the builder.
pub fn build_add_liquidity_command(
    pool_id: &[u8; 32],
    amount: u64,
    slippage: Slippage,
    decimals_multiplier: u64,
) -> (r: Result<AmmCommand, LiquidityError>)
    ensures
        r == spec_add_liquidity_command(*pool_id, amount, slippage, decimals_multiplier),
{
    match validate_and_scale(amount, slippage, decimals_multiplier) {
        Err(e) => Err(e),
        Ok(scaled) => Ok(AmmCommand::Deposit {
            pool_id: *pool_id,
            deposit_token_coin: None,
            deposit_token_pc: None,
            recipient_token_lp: None,
            amount_specified: scaled,
            another_min_limit: false,
            base_coin: false,
        }),
    }
}

/// Validates and scales a remove-liquidity request and shapes the
/// withdrawal command for the builder.
pub fn build_remove_liquidity_command(
    pool_id: &[u8; 32],
    input_lp_amount: u64,
    slippage: Slippage,
    decimals_multiplier: u64,
) -> (r: Result<AmmCommand, LiquidityError>)
    ensures
        r == spec_remove_liquidity_command(*pool_id, input_lp_amount, slippage,
            decimals_multiplier),
{
    match validate_and_scale(input_lp_amount, slippage, decimals_multiplier) {
        Err(e) => Err(e),
        Ok(scaled) => Ok(AmmCommand::Withdraw {
            pool_id: *pool_id,
            withdraw_token_lp: None,
            recipient_token_coin: None,
            recipient_token_pc: None,
            input_lp_amount: scaled,
            slippage_limit: slippage.check_positive(),
        }),
    }
}

/// Normalizes a builder result: a failure is surfaced with its message, and
/// a missing or empty instruction set is an explicit error — a liquidity
/// operation that builds no instructions must never pass as a success.
pub fn require_instructions(
    built: Result<Option<Vec<Instruction>>, String>,
) -> (r: Result<Vec<Instruction>, LiquidityError>)
    ensures
        built matches Err(message) ==> (r matches Err(e)
            && e matches LiquidityError::InternalError(m) && m@ == message@),
        built matches Ok(None) ==> (r matches Err(e) && e is NoInstructions),
        (built matches Ok(Some(instructions)) && instructions@.len() == 0) ==> (
            r matches Err(e) && e is NoInstructions),
        built matches Ok(Some(instructions)) ==> (instructions@.len() > 0 ==> (
            r matches Ok(out) && out@ == instructions@)),
        r matches Ok(out) ==> out@.len() > 0,
{
    match built {
        Err(message) => Err(LiquidityError::InternalError(message)),
        Ok(None) => Err(LiquidityError::NoInstructions),
        Ok(Some(instructions)) => {
            if instructions.len() == 0 {
                Err(LiquidityError::NoInstructions)
            } else {
                Ok(instructions)
            }
        },
    }
}

/// Builds the instruction set for adding liquidity: validation and scaling
/// first, then the builder, whose empty or failed result is an error.
///
/// The validation errors are exactly those of the command construction; on
/// a valid request the result is either a non-empty instruction set or the
/// builder's own failure, never a silent no-op.
pub fn build_add_liquidity_ix<B: InstructionBuilder>(
    builder: &B,
    pool_id: &[u8; 32],
    pool_info: &AmmPoolInfo,
    amount: u64,
    slippage: Slippage,
) -> (r: Result<Vec<Instruction>, LiquidityError>)
    ensures
        spec_validate_and_scale(amount, slippage, pool_info.sys_decimal_value)
            matches Err(e) ==> (r matches Err(actual) && actual == e),
        spec_validate_and_scale(amount, slippage, pool_info.sys_decimal_value) is Ok ==> (
            match r {
                Ok(instructions) => instructions@.len() > 0,
                Err(e) => e is NoInstructions || e is InternalError,
            }),
{
    let command = match build_add_liquidity_command(
        pool_id,
        amount,
        slippage,
        pool_info.sys_decimal_value,
    ) {
        Ok(command) => command,
        Err(e) => {
            return Err(e);
        },
    };
    require_instructions(builder.build(&command))
}

/// Builds the instruction set for removing liquidity, under the same
/// contract shape as the add side.
pub fn build_remove_liquidity_ix<B: InstructionBuilder>(
    builder: &B,
    pool_id: &[u8; 32],
    pool_info: &AmmPoolInfo,
    input_lp_amount: u64,
    slippage: Slippage,
) -> (r: Result<Vec<Instruction>, LiquidityError>)
    ensures
        spec_validate_and_scale(input_lp_amount, slippage, pool_info.sys_decimal_value)
            matches Err(e) ==> (r matches Err(actual) && actual == e),
        spec_validate_and_scale(input_lp_amount, slippage, pool_info.sys_decimal_value) is Ok ==> (
            match r {
                Ok(instructions) => instructions@.len() > 0,
                Err(e) => e is NoInstructions || e is InternalError,
            }),
{
    let command = match build_remove_liquidity_command(
        pool_id,
        input_lp_amount,
        slippage,
        pool_info.sys_decimal_value,
    ) {
        Ok(command) => command,
        Err(e) => {
            return Err(e);
        },
    };
    require_instructions(builder.build(&command))
}

/// Concatenates two independently built instruction sets into the single
/// ordered sequence of one atomic transaction: the first set's instructions
/// in order, then the second's, nothing else.
pub fn compose_instruction_sets(
    first: Vec<Instruction>,
    second: Vec<Instruction>,
) -> (r: Vec<Instruction>)
    ensures
        r@ == first@ + second@,
{
    let mut combined = first;
    let mut rest = second;
    combined.append(&mut rest);
    combined
}

/// Builds the instruction sequence of a combined add-then-remove operation:
/// both sets are built independently and concatenated in add-then-remove
/// order, and if either build fails the whole composition fails and yields
/// nothing.
pub fn build_add_remove_liquidity_ix<B: InstructionBuilder>(
    builder: &B,
    pool_id: &[u8; 32],
    pool_info: &AmmPoolInfo,
    add_amount: u64,
    remove_amount: u64,
    slippage: Slippage,
) -> (r: Result<Vec<Instruction>, LiquidityError>)
    ensures
        spec_validate_and_scale(add_amount, slippage, pool_info.sys_decimal_value)
            matches Err(e) ==> (r matches Err(actual) && actual == e),
        spec_validate_and_scale(remove_amount, slippage, pool_info.sys_decimal_value)
            matches Err(e) ==> (
                spec_validate_and_scale(add_amount, slippage, pool_info.sys_decimal_value)
                    is Ok ==> (r matches Err(actual) && (actual == e
                    || actual is NoInstructions || actual is InternalError))),
        (spec_validate_and_scale(add_amount, slippage, pool_info.sys_decimal_value) is Ok
            && spec_validate_and_scale(remove_amount, slippage, pool_info.sys_decimal_value)
                is Ok) ==> (
            match r {
                Ok(instructions) => instructions@.len() >= 2,
                Err(e) => e is NoInstructions || e is InternalError,
            }),
{
    let add_instructions = match build_add_liquidity_ix(
        builder,
        pool_id,
        pool_info,
        add_amount,
        slippage,
    ) {
        Ok(instructions) => instructions,
        Err(e) => {
            return Err(e);
        },
    };
    let remove_instructions = match build_remove_liquidity_ix(
        builder,
        pool_id,
        pool_info,
        remove_amount,
        slippage,
    ) {
        Ok(instructions) => instructions,
        Err(e) => {
            return Err(e);
        },
    };
    Ok(compose_instruction_sets(add_instructions, remove_instructions))
}

} // verus!
