use amm_liquidity::cache::{CacheError, Pool, resolve_pool};

fn pool_with_market(market_id: &str) -> Pool {
    Pool {
        program_id: "program".to_string(),
        amm_id: "amm".to_string(),
        amm_authority: "authority".to_string(),
        amm_open_orders: "open-orders".to_string(),
        lp_mint: "lp-mint".to_string(),
        coin_mint: "coin-mint".to_string(),
        pc_mint: "pc-mint".to_string(),
        coin_vault: "coin-vault".to_string(),
        pc_vault: "pc-vault".to_string(),
        withdraw_queue: "withdraw-queue".to_string(),
        amm_target_orders: "target-orders".to_string(),
        pool_temp_lp: "temp-lp".to_string(),
        market_program_id: "market-program".to_string(),
        market_id: market_id.to_string(),
        amm_config_id: "config".to_string(),
        fee_destination_id: "fee-destination".to_string(),
    }
}

#[test]
fn pool_with_matching_market_id_is_returned() {
    let pool = pool_with_market("market-1");
    let resolved = resolve_pool(Ok(pool.clone()), &"market-1".to_string());
    assert_eq!(resolved, Ok(pool));
}

#[test]
fn pool_with_mismatching_market_id_is_rejected() {
    let pool = pool_with_market("market-1");
    let resolved = resolve_pool(Ok(pool), &"foo".to_string());
    match resolved {
        Err(CacheError::CacheIdMismatch) => {}
        Err(other) => panic!("expected CacheIdMismatch, got {:?}", other),
        Ok(_) => panic!("expected an error, got a pool record"),
    }
}

#[test]
fn load_failures_pass_through_unchanged() {
    let missing = resolve_pool(
        Err(CacheError::FileNotFound("pool.json".to_string())),
        &"market-1".to_string(),
    );
    assert_eq!(missing, Err(CacheError::FileNotFound("pool.json".to_string())));

    let unreadable = resolve_pool(
        Err(CacheError::ReadError("pool.json".to_string())),
        &"market-1".to_string(),
    );
    assert_eq!(unreadable, Err(CacheError::ReadError("pool.json".to_string())));

    let malformed = resolve_pool(
        Err(CacheError::JsonError("address field not found".to_string())),
        &"market-1".to_string(),
    );
    assert_eq!(
        malformed,
        Err(CacheError::JsonError("address field not found".to_string()))
    );
}
