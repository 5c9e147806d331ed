//! Cached market and pool records, and the consistency rule that pairs them.
//!
//! The records are loaded from local snapshot files by the surrounding
//! application and handed in as plain values; this module owns the one rule
//! that must never be skipped: a pool record may only be used together with
//! the market it was resolved against, so a pool whose embedded market id
//! differs from the expected one is rejected and never returned.

use vstd::prelude::*;

verus! {

/// Failure while resolving a record from the local cache.
#[derive(Debug, Clone, PartialEq, Eq)]
pub enum CacheError {
    /// The snapshot file does not exist; carries the offending path.
    FileNotFound(String),
    /// The snapshot file exists but could not be read; carries the path.
    ReadError(String),
    /// The snapshot was not well-formed JSON or lacked the expected shape;
    /// carries the decoder's message.
    JsonError(String),
    /// The pool record's embedded market id differs from the market it was
    /// resolved against.
    CacheIdMismatch,
}

/// A trading venue, as recorded in the market snapshot. Immutable once
/// loaded.
#[derive(Debug, Clone, PartialEq, Eq)]
pub struct Market {
    pub market_id: String,
    pub request_queue: String,
    pub event_queue: String,
    pub bids: String,
    pub asks: String,
    pub base_vault: String,
    pub quote_vault: String,
    pub base_mint: String,
    pub quote_mint: String,
}

/// An AMM pool, as recorded in the pool snapshot. Immutable once loaded;
/// only valid together with the market named by `market_id`.
#[derive(Debug, Clone, PartialEq, Eq)]
pub struct Pool {
    pub program_id: String,
    pub amm_id: String,
    pub amm_authority: String,
    pub amm_open_orders: String,
    pub lp_mint: String,
    pub coin_mint: String,
    pub pc_mint: String,
    pub coin_vault: String,
    pub pc_vault: String,
    pub withdraw_queue: String,
    pub amm_target_orders: String,
    pub pool_temp_lp: String,
    pub market_program_id: String,
    pub market_id: String,
    pub amm_config_id: String,
    pub fee_destination_id: String,
}

impl Pool {
    /// The record's embedded market id names the given market.
    pub open spec fn matches_market(self, expected_market_id: Seq<char>) -> bool {
        self.market_id@ == expected_market_id
    }
}

/// Guards a freshly loaded pool record against the market it must belong to.
///
/// A load failure is passed through unchanged; a loaded pool whose embedded
/// market id equals the expected one is returned as it was loaded; and a
/// loaded pool naming any other market is rejected with `CacheIdMismatch`,
/// never returned.
pub fn resolve_pool(
    loaded: Result<Pool, CacheError>,
    expected_market_id: &String,
) -> (r: Result<Pool, CacheError>)
    ensures
        loaded matches Err(_) ==> r == loaded,
        (loaded matches Ok(pool) && pool.matches_market(expected_market_id@)) ==> r == loaded,
        (loaded matches Ok(pool) && !pool.matches_market(expected_market_id@)) ==> (
            r matches Err(e) && e is CacheIdMismatch),
{
    match loaded {
        Err(e) => Err(e),
        Ok(pool) => {
            if pool.market_id == *expected_market_id {
                Ok(pool)
            } else {
                Err(CacheError::CacheIdMismatch)
            }
        },
    }
}

} // verus!
