//! Pool and token-account state for pre/post comparison.
//!
//! The chain is queried by the surrounding application; this module holds
//! the pool state as plain values, derives which token account to query for
//! a wallet, and decodes a fetched token account into its balance.

use vstd::prelude::*;

use crate::LiquidityError;
use solana_program::program_pack::Pack;
use spl_token::solana_program::pubkey::Pubkey;

verus! {

/// The fields of an AMM pool's on-chain state that the liquidity operations
/// read: the decimal multiplier used to scale raw amounts, the LP mint, the
/// two vault addresses whose balances are inspected, and the pool's own LP
/// amount.
#[derive(Debug, Clone, PartialEq, Eq)]
pub struct AmmPoolInfo {
    /// Multiplier that turns a raw user amount into on-chain units.
    pub sys_decimal_value: u64,
    /// Mint of the pool's LP token.
    pub lp_mint: [u8; 32],
    /// Address of the pool's coin vault.
    pub coin_vault: [u8; 32],
    /// Address of the pool's pc vault.
    pub pc_vault: [u8; 32],
    /// LP amount recorded in the pool state.
    pub lp_amount: u64,
}

/// A pool's state together with the balances of its two vaults, fetched in
/// one pass for before/after comparison.
#[derive(Debug, Clone, PartialEq, Eq)]
pub struct ExtendedAmmInfo {
    pub amm_info: AmmPoolInfo,
    pub lp_amount: u64,
    pub coin_vault_balance: u64,
    pub pc_vault_balance: u64,
}

impl ExtendedAmmInfo {
    /// Collects pool state and the separately fetched vault balances.
    pub fn new(
        amm_info: AmmPoolInfo,
        lp_amount: u64,
        coin_vault_balance: u64,
        pc_vault_balance: u64,
    ) -> (r: Self)
        ensures
            r.amm_info == amm_info,
            r.lp_amount == lp_amount,
            r.coin_vault_balance == coin_vault_balance,
            r.pc_vault_balance == pc_vault_balance,
    {
        ExtendedAmmInfo { amm_info, lp_amount, coin_vault_balance, pc_vault_balance }
    }
}

/// Assembles the extended pool view from the pool state and the two vault
/// balances; the LP amount is the one embedded in the pool state.
pub fn extend_amm_info(
    amm_info: AmmPoolInfo,
    coin_vault_balance: u64,
    pc_vault_balance: u64,
) -> (r: ExtendedAmmInfo)
    ensures
        r.amm_info == amm_info,
        r.lp_amount == amm_info.lp_amount,
        r.coin_vault_balance == coin_vault_balance,
        r.pc_vault_balance == pc_vault_balance,
{
    let lp_amount = amm_info.lp_amount;
    ExtendedAmmInfo::new(amm_info, lp_amount, coin_vault_balance, pc_vault_balance)
}

/// The associated token account that the given wallet owns for the given
/// mint. The derivation is a pure function of the two addresses.
pub uninterp spec fn ata_of(wallet: Seq<u8>, mint: Seq<u8>) -> Seq<u8>;

/// Relies on `spl_associated_token_account::get_associated_token_address`:
/// the derived address is a deterministic function of the wallet and mint
/// addresses alone.
#[verifier::external_body]
fn derive_associated_token_address(wallet: &[u8; 32], mint: &[u8; 32]) -> (r: [u8; 32])
    ensures
        r@ == ata_of(wallet@, mint@),
{
    let wallet_key = Pubkey::new_from_array(*wallet);
    let mint_key = Pubkey::new_from_array(*mint);
    spl_associated_token_account::get_associated_token_address(&wallet_key, &mint_key).to_bytes()
}

/// The associated token account a wallet owns for any mint: the general
/// derivation behind every balance query.
pub fn associated_token_account(wallet: &[u8; 32], mint: &[u8; 32]) -> (r: [u8; 32])
    ensures
        r@ == ata_of(wallet@, mint@),
{
    derive_associated_token_address(wallet, mint)
}

/// The token account that holds a wallet's LP tokens for the given pool:
/// the wallet's associated token account for the pool's LP mint.
pub fn lp_token_account(wallet: &[u8; 32], pool_info: &AmmPoolInfo) -> (r: [u8; 32])
    ensures
        r@ == ata_of(wallet@, pool_info.lp_mint@),
{
    associated_token_account(wallet, &pool_info.lp_mint)
}

/// The unsigned 64-bit number held little-endian in an 8-byte sequence.
pub open spec fn u64_from_le_bytes(s: Seq<u8>) -> int
    recommends
        s.len() == 8,
{
    s[0] + s[1] * 0x100 + s[2] * 0x1_0000 + s[3] * 0x100_0000 + s[4] * 0x1_0000_0000
        + s[5] * 0x100_0000_0000 + s[6] * 0x1_0000_0000_0000 + s[7] * 0x100_0000_0000_0000
}

/// A 4-byte optional-field tag as the token program packs it: all zero for
/// an absent value, a leading one and three zeros for a present one; any
/// other bytes make the account malformed.
pub open spec fn is_packed_option_tag(data: Seq<u8>, offset: int) -> bool {
    &&& (data[offset] == 0 || data[offset] == 1)
    &&& data[offset + 1] == 0
    &&& data[offset + 2] == 0
    &&& data[offset + 3] == 0
}

/// The packed form of a live token account: exactly 165 bytes laid out as
/// mint, owner, amount, delegate, state, native marker, delegated amount
/// and close authority — with well-formed tags on the three optional
/// fields (at bytes 72, 109 and 129) and a state byte (at byte 108) that
/// is initialized or frozen, never uninitialized.
pub open spec fn is_live_token_account(data: Seq<u8>) -> bool {
    &&& data.len() == 165
    &&& is_packed_option_tag(data, 72)
    &&& (data[108] == 1 || data[108] == 2)
    &&& is_packed_option_tag(data, 109)
    &&& is_packed_option_tag(data, 129)
}

/// Relies on `spl_token::state::Account::unpack`: it succeeds exactly on
/// the packed form of a live token account — 165 bytes, valid tags on the
/// delegate, native-marker and close-authority fields, and a state that is
/// initialized or frozen — and the amount it returns is the little-endian
/// word at bytes 64 to 72.
#[verifier::external_body]
fn unpack_token_account_amount(data: &[u8]) -> (r: Option<u64>)
    ensures
        r is Some <==> is_live_token_account(data@),
        r matches Some(amount) ==> amount == u64_from_le_bytes(data@.subrange(64, 72)),
{
    spl_token::state::Account::unpack(data).ok().map(|account| account.amount)
}

/// Decodes a fetched token account into the balance it holds.
///
/// Succeeds exactly on the packed form of a live token account, and the
/// balance returned is exactly the little-endian amount word of that form;
/// anything else — wrong length, malformed optional fields, an
/// uninitialized account — is an error, never a made-up balance.
pub fn token_balance_from_account_data(data: &[u8]) -> (r: Result<u64, LiquidityError>)
    ensures
        r is Ok <==> is_live_token_account(data@),
        r matches Ok(amount) ==> amount == u64_from_le_bytes(data@.subrange(64, 72)),
        r matches Err(e) ==> e is InternalError,
{
    match unpack_token_account_amount(data) {
        Some(amount) => Ok(amount),
        None => Err(LiquidityError::InternalError(
            "account data is not a live token account".to_owned(),
        )),
    }
}

} // verus!
