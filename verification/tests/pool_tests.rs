//! End-to-end tests of the pool engine: creation, minting, burning,
//! liquidity, the protocol-ratio guard, history cadence and leverage resets.
use leveraged_pools::addr::Addr;
use leveraged_pools::contract::{
    is_pooled_asset, query_addr_liquidity_position, query_all_pool_info, query_hyperparameters,
    query_pool_state, query_pr, query_price_history,
};
use leveraged_pools::error::ContractError;
use leveraged_pools::leverage_man::{Pool, get_leveraged_position, init};
use leveraged_pools::liquid_man::{execute_withdraw_liquidity, try_execute_provide_liquidity};
use leveraged_pools::mint_man::{execute_burn_leveraged, execute_mint_leveraged};
use leveraged_pools::pool::{Hyperparameters, ProvideLiquidityMsg, TryBurn, TryMint};
use leveraged_pools::swap::{AssetReserve, ts_price_from_reserves};

/// Genesis block time of the scenarios.
const T0: u64 = 1_571_797_419;

/// Spot price derived from a 1,000,000,000,000 : 1,000,000,000 capital:asset
/// reserve pair, i.e. 1000.000000 per asset unit.
fn mtsla_spot_price() -> u128 {
    let reserves = vec![
        AssetReserve { asset_id: Addr::from_text("uusd"), amount: 1_000_000_000_000 },
        AssetReserve { asset_id: Addr::from_text("mTSLA"), amount: 1_000_000_000 },
    ];
    let point = ts_price_from_reserves(&Addr::from_text("mTSLA"), &reserves, T0).unwrap();
    point.u_price
}

/// Create a 2x pool over mTSLA with a minimum protocol ratio of 2.5 and a
/// 0.5% mint premium, priced from the reserve pair above.
fn mtsla_ust_2x_init() -> Pool {
    let msg = Hyperparameters {
        leverage_amount: 2_000_000,
        minimum_protocol_ratio: 2_500_000,
        rebalance_ratio: 2_500_000,
        mint_premium: 0_500_000,
        rebalance_premium: 100_000,
        terraswap_pair_addr: Addr::from_text("mTSLA-UST"),
        leveraged_asset_addr: Addr::from_text("mTSLA"),
    };
    init(msg, mtsla_spot_price(), T0).unwrap()
}

fn provide(pool: &mut Pool, sender: &str, amount: u128, now: u64) {
    let msg = ProvideLiquidityMsg { sender: Addr::from_text(sender), amount };
    try_execute_provide_liquidity(pool, &msg, mtsla_spot_price(), now).unwrap();
}

#[test]
fn proper_init() {
    let pool = mtsla_ust_2x_init();

    /* Query hyperparameters and validate they are as we set them to be */
    let hyper_p = query_hyperparameters(&pool);
    assert_eq!(hyper_p.leverage_amount, 2_000_000);
    assert_eq!(hyper_p.rebalance_ratio, 2_500_000);
    assert_eq!(hyper_p.minimum_protocol_ratio, 2_500_000);
    assert_eq!(hyper_p.mint_premium, 0_500_000);
    assert_eq!(hyper_p.rebalance_premium, 100_000);
    assert!(hyper_p.terraswap_pair_addr == Addr::from_text("mTSLA-UST"));
    assert!(hyper_p.leveraged_asset_addr == Addr::from_text("mTSLA"));

    /* Check that pool state was also initialized correctly */
    let pool_state = query_pool_state(&pool);
    assert_eq!(pool_state.assets_in_reserve, 0);

    /* Assert that the initial price was correctly derived from the pair */
    assert!(pool_state.opening_snapshot.timestamp > 0);
    assert_eq!(pool_state.opening_snapshot.asset_price / 1_000_000, 1_000);

    /* Query asset price history */
    let u_price_history = query_price_history(&pool);
    let genesis_snapshot = u_price_history.price_history;
    assert_eq!(genesis_snapshot.len(), 1);

    let genesis_snapshot = genesis_snapshot[0];
    /* At genesis leveraged price should equal asset price */
    assert_eq!(genesis_snapshot.asset_price, genesis_snapshot.leveraged_price);
    /* Verify genesis snapshot price is correct */
    assert_eq!(genesis_snapshot.asset_price / 1_000_000, 1_000);
}

#[test]
fn fresh_and_used_pools_are_well_formed() {
    let mut pool = mtsla_ust_2x_init();
    assert!(pool.check_wf());
    provide(&mut pool, "provider", 300_000_000, T0);
    let mint = TryMint { sender: Addr::from_text("minter"), amount: 50_000_000 };
    execute_mint_leveraged(&mut pool, &mint, mtsla_spot_price(), T0).unwrap();
    assert!(pool.check_wf());

    // A pool whose aggregates drifted from its ledgers is refused.
    pool.state.total_asset_pool_share += 1;
    assert!(!pool.check_wf());
}

#[test]
fn rejects_invalid_hyperparameters() {
    let msg = Hyperparameters {
        leverage_amount: 500_000,
        minimum_protocol_ratio: 2_500_000,
        rebalance_ratio: 2_500_000,
        mint_premium: 0_500_000,
        rebalance_premium: 100_000,
        terraswap_pair_addr: Addr::from_text("mTSLA-UST"),
        leveraged_asset_addr: Addr::from_text("mTSLA"),
    };
    match init(msg, mtsla_spot_price(), T0) {
        Err(ContractError::InvalidPoolParams) => {},
        _ => panic!("init accepted sub-1x leverage"),
    }
}

#[test]
fn proper_mint() {
    let mut pool = mtsla_ust_2x_init();
    let price = mtsla_spot_price();

    /* Provide 100 mTSLA as liquidity */
    provide(&mut pool, "provider", 100_000_000, T0);

    /*
     * Attempt to mint a leveraged position with 100 mTSLA which should fail
     * as protocol ratio would fall below the minimum
     */
    let mint = TryMint { sender: Addr::from_text("minter"), amount: 100_000_000 };
    match execute_mint_leveraged(&mut pool, &mint, price, T0) {
        Err(ContractError::WouldViolatePoolHealth) => {},
        Err(e) => panic!("Expected WouldViolatePoolHealth but found {:?}", e),
        _ => panic!("Pool did not enforce PR while minting"),
    }

    /*
     * Attempt to mint a leveraged position which would make a PR of 2.499999
     * and therefore should be rejected too
     */
    let mint = TryMint { sender: Addr::from_text("minter"), amount: 66_666_667 };
    match execute_mint_leveraged(&mut pool, &mint, price, T0) {
        Err(ContractError::WouldViolatePoolHealth) => {},
        Err(e) => panic!("Expected WouldViolatePoolHealth but found {:?}", e),
        _ => panic!("Pool did not enforce PR while minting"),
    }

    /*
     * Finally mint a position which creates a legal PR of 2.500000
     */
    let mint = TryMint { sender: Addr::from_text("minter"), amount: 66_666_666 };
    execute_mint_leveraged(&mut pool, &mint, price, T0).unwrap();

    /* Verify legal PR of 2.5 */
    let res = query_pr(&pool, price, T0).unwrap();
    assert_eq!(res.pr, 2_500_000);

    /*
     * Attempt to remove liquidity which should result in an illegal PR
     */
    match execute_withdraw_liquidity(&mut pool, &Addr::from_text("provider"), 100_000_000, price, T0)
    {
        Ok(_) => panic!("LP withdrawal was able to create unhealthy PR"),
        Err(_) => {},
    }

    /* Put more liquidity in */
    provide(&mut pool, "provider", 100_000_000, T0);

    /* Just to take it back out again */
    execute_withdraw_liquidity(&mut pool, &Addr::from_text("provider"), 100_000_000, price, T0)
        .unwrap();

    /* Verify legal PR of 2.5 */
    let res = query_pr(&pool, price, T0).unwrap();
    assert_eq!(res.pr, 2_500_000);

    /*
     * Try to create an illegal PR by taking just a little out
     */
    match execute_withdraw_liquidity(&mut pool, &Addr::from_text("provider"), 100, price, T0) {
        Ok(_) => panic!("LP withdrawal was able to create unhealthy PR"),
        Err(_) => {},
    }
}

#[test]
fn rejected_operations_change_nothing() {
    let mut pool = mtsla_ust_2x_init();
    let price = mtsla_spot_price();
    provide(&mut pool, "provider", 100_000_000, T0);

    let state_before = query_pool_state(&pool);
    let provider_before = query_addr_liquidity_position(&pool, &Addr::from_text("provider"));
    let minter_before = get_leveraged_position(&pool, &Addr::from_text("minter"));
    let history_before = query_price_history(&pool).price_history;

    /* A mint the guard rejects */
    let mint = TryMint { sender: Addr::from_text("minter"), amount: 100_000_000 };
    assert!(execute_mint_leveraged(&mut pool, &mint, price, T0).is_err());

    /* A withdrawal beyond the sender's share */
    assert!(
        execute_withdraw_liquidity(&mut pool, &Addr::from_text("provider"), 200_000_000, price, T0)
            .is_err()
    );

    /* A burn without a position */
    let burn = TryBurn { sender: Addr::from_text("minter"), pool_share: 1 };
    assert!(execute_burn_leveraged(&mut pool, &burn, price, T0).is_err());

    assert_eq!(query_pool_state(&pool), state_before);
    assert_eq!(
        query_addr_liquidity_position(&pool, &Addr::from_text("provider")),
        provider_before
    );
    assert_eq!(get_leveraged_position(&pool, &Addr::from_text("minter")), minter_before);
    assert_eq!(query_price_history(&pool).price_history, history_before);
}

#[test]
fn proper_burn() {
    let mut pool = mtsla_ust_2x_init();
    let price = mtsla_spot_price();
    provide(&mut pool, "provider", 200_000_000, T0);

    /* Open a position: at genesis prices the equivalence is 1:1 */
    let mint = TryMint { sender: Addr::from_text("minter"), amount: 50_000_000 };
    let pos = execute_mint_leveraged(&mut pool, &mint, price, T0).unwrap();
    assert_eq!(pos.leveraged_pool_partial_share, 50_000_000);
    assert_eq!(pos.leveraged_pool_total_share, 50_000_000);

    /* Burn more than held */
    let burn = TryBurn { sender: Addr::from_text("minter"), pool_share: 60_000_000 };
    match execute_burn_leveraged(&mut pool, &burn, price, T0) {
        Err(ContractError::InsufficientFunds) => {},
        _ => panic!("burn beyond the held share was not refused"),
    }

    /* Burn a part of the position and redeem its unleveraged equivalent */
    let burn = TryBurn { sender: Addr::from_text("minter"), pool_share: 20_000_000 };
    let receipt = execute_burn_leveraged(&mut pool, &burn, price, T0).unwrap();
    assert!(receipt.recipient == Addr::from_text("minter"));
    assert_eq!(receipt.amount, 20_000_000);

    let pos = get_leveraged_position(&pool, &Addr::from_text("minter"));
    assert_eq!(pos.leveraged_pool_partial_share, 30_000_000);
    assert_eq!(pos.leveraged_pool_total_share, 30_000_000);

    let state = query_pool_state(&pool);
    assert_eq!(state.assets_in_reserve, 230_000_000);
    assert_eq!(state.total_leveraged_pool_share, 30_000_000);
    assert_eq!(state.total_leveraged_assets, 30_000_000);
}

#[test]
fn minted_shares_sum_to_pool_total() {
    let mut pool = mtsla_ust_2x_init();
    let price = mtsla_spot_price();
    provide(&mut pool, "provider", 500_000_000, T0);

    let mint = TryMint { sender: Addr::from_text("minter_one"), amount: 40_000_000 };
    execute_mint_leveraged(&mut pool, &mint, price, T0).unwrap();
    let mint = TryMint { sender: Addr::from_text("minter_two"), amount: 25_000_000 };
    execute_mint_leveraged(&mut pool, &mint, price, T0).unwrap();

    let one = get_leveraged_position(&pool, &Addr::from_text("minter_one"));
    let two = get_leveraged_position(&pool, &Addr::from_text("minter_two"));
    let state = query_pool_state(&pool);
    assert_eq!(
        one.leveraged_pool_partial_share + two.leveraged_pool_partial_share,
        state.total_leveraged_pool_share
    );

    /* Provider shares likewise sum to the pool total */
    provide(&mut pool, "other_provider", 123_456, T0);
    let a = query_addr_liquidity_position(&pool, &Addr::from_text("provider"));
    let b = query_addr_liquidity_position(&pool, &Addr::from_text("other_provider"));
    let state = query_pool_state(&pool);
    assert_eq!(
        a.position.asset_pool_partial_share + b.position.asset_pool_partial_share,
        state.total_asset_pool_share
    );
}

#[test]
fn proper_lp() {
    let mut pool = mtsla_ust_2x_init();
    let price = mtsla_spot_price();

    /* Provide 100 mTSLA as liquidity */
    provide(&mut pool, "provider", 100_000_000, T0);

    /* Verify 100 mTSLA were recorded as pool liquidity */
    let pool_state = query_pool_state(&pool);
    assert_eq!(pool_state.assets_in_reserve, 100_000_000);
    assert_eq!(pool_state.total_asset_pool_share, 100_000_000);

    /* Verify the pool recorded our position: we own the entire pool */
    let res = query_addr_liquidity_position(&pool, &Addr::from_text("provider"));
    assert_eq!(res.position.asset_pool_total_share, 100_000_000);
    assert_eq!(res.position.asset_pool_partial_share, 100_000_000);

    /* Someone else provides 100 mTSLA as well */
    provide(&mut pool, "someone_else", 100_000_000, T0);

    /* Assert that we now only own half the pool */
    let res = query_addr_liquidity_position(&pool, &Addr::from_text("provider"));
    assert_eq!(res.position.asset_pool_total_share, 200_000_000);
    assert_eq!(res.position.asset_pool_partial_share, 100_000_000);

    /* Attempt to withdraw an excessive amount of liquidity */
    match execute_withdraw_liquidity(
        &mut pool,
        &Addr::from_text("provider"),
        1_000_000_000,
        price,
        T0,
    ) {
        Ok(_) => panic!("LP was able to withdraw more than their share!"),
        Err(_) => {},
    }

    /* Withdraw our liquidity */
    let receipt =
        execute_withdraw_liquidity(&mut pool, &Addr::from_text("provider"), 100_000_000, price, T0)
            .unwrap();

    /* Assert that we are credited the funds we withdrew from the pool */
    assert!(receipt.recipient == Addr::from_text("provider"));
    assert_eq!(receipt.amount, 100_000_000);

    /* Check that our LP share is zero and other funds were not touched */
    let res = query_addr_liquidity_position(&pool, &Addr::from_text("provider"));
    assert_eq!(res.position.asset_pool_partial_share, 0);
    assert_eq!(res.position.asset_pool_total_share, 100_000_000);

    /* Verify pool state was updated after our withdrawal */
    let pool_state = query_pool_state(&pool);
    assert_eq!(pool_state.assets_in_reserve, 100_000_000);
    assert_eq!(pool_state.total_asset_pool_share, 100_000_000);
}

#[test]
fn all_pool_info_in_one_query() {
    let pool = mtsla_ust_2x_init();
    let info = query_all_pool_info(&pool, mtsla_spot_price(), T0).unwrap();
    assert_eq!(info.price_context.opening_snapshot.timestamp, T0);
    assert_eq!(info.price_context.current_snapshot.asset_price, 1_000_000_000);
    assert_eq!(info.price_context.current_snapshot.leveraged_price, 1_000_000_000);
    assert_eq!(info.hyperparameters.leverage_amount, 2_000_000);
    assert_eq!(info.pool_state.total_asset_pool_share, 0);

    /* Only the backing asset is accepted by the pool */
    assert!(is_pooled_asset(&pool, &Addr::from_text("mTSLA")));
    assert!(!is_pooled_asset(&pool, &Addr::from_text("uusd")));
}

#[test]
fn mint_after_price_move() {
    let mut pool = mtsla_ust_2x_init();
    provide(&mut pool, "provider", 400_000_000, T0);

    /* The asset gains 50%: with 2x leverage the leveraged price doubles, so
     * each deposited unit buys only 0.75 leveraged units. */
    let moved_price = 1_500_000_000u128;
    let mint = TryMint { sender: Addr::from_text("minter"), amount: 100_000_000 };
    let pos = execute_mint_leveraged(&mut pool, &mint, moved_price, T0).unwrap();
    assert_eq!(pos.leveraged_pool_partial_share, 75_000_000);

    let res = query_pr(&pool, moved_price, T0).unwrap();
    assert_eq!(res.pr, 5_000_000);
}

#[test]
fn price_history() {
    let mut pool = mtsla_ust_2x_init();
    let mut now = T0;

    /* Triggering event for price history update */
    provide(&mut pool, "provider", 100_000_000, now);

    /* Only history is the opening snapshot */
    let history = query_price_history(&pool).price_history;
    assert_eq!(history.len(), 1);

    /* Check that we don't update too frequently */
    now += 1;
    provide(&mut pool, "provider", 100_000_000, now);

    /* Still only 1 price point - not enough time has elapsed */
    let history = query_price_history(&pool).price_history;
    assert_eq!(history.len(), 1);

    /* Advance 15 minutes s/t price should be updated */
    now += 15 * 60;
    provide(&mut pool, "provider", 100_000_000, now);

    /* 2 price points after sufficient time elapsed */
    let history = query_price_history(&pool).price_history;
    assert_eq!(history.len(), 2);

    /* Price should not have changed */
    assert_eq!(history[0].asset_price, 1_000_000_000);
    assert_eq!(history[0].leveraged_price, 1_000_000_000);
    assert_eq!(history[1].asset_price, 1_000_000_000);
    assert_eq!(history[1].leveraged_price, 1_000_000_000);
}

#[test]
fn reset_leverage() {
    let mut pool = mtsla_ust_2x_init();
    let mut now = T0;

    /* Triggering event for leverage reset */
    provide(&mut pool, "provider", 100_000_000, now);

    let pool_state = query_pool_state(&pool);
    assert_eq!(pool_state.opening_snapshot.timestamp, now);

    /* Ensure we do not reset leverage too often */
    now += 1;
    provide(&mut pool, "provider", 100_000_000, now);

    /* Should not update - too soon */
    let pool_state = query_pool_state(&pool);
    assert_ne!(pool_state.opening_snapshot.timestamp, now);

    /* Wait a day and make sure leverage has reset properly */
    now += 24 * 60 * 60;
    provide(&mut pool, "provider", 100_000_000, now);

    /* Should update - leverage has expired */
    let pool_state = query_pool_state(&pool);
    assert_eq!(pool_state.opening_snapshot.timestamp, now);
}
