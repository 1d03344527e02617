//! Tests of the factory: pool registry and the calendar-gated broadcast of
//! the daily leverage reference.
use leveraged_pools::addr::Addr;
use leveraged_pools::factory::{
    ContractError, instantiate, query_last_reset, query_pools, register_pool,
    try_broadcast_daily_leverage_reference,
};

#[test]
fn proper_initialization() {
    let state = instantiate(Addr::from_text("creator"), 10);

    // it worked, let's query the state
    let pools = query_pools(&state);
    assert_eq!(pools.pool_ids.len(), 0);

    let last_reset = query_last_reset(&state);
    assert_eq!(last_reset.timestamp, 0);
}

#[test]
fn test_broadcast_new_leverage_reference() {
    let mut state = instantiate(Addr::from_text("creator"), 10);
    let env_time: u64 = 1_571_797_419;

    // The record starts at the epoch (day 1); the current day-of-month is
    // later, so the broadcast goes out and the timestamp advances.
    try_broadcast_daily_leverage_reference(&mut state, env_time).unwrap();

    let last_reset = query_last_reset(&state);
    assert_eq!(last_reset.timestamp, env_time);
}

#[test]
fn broadcast_waits_for_a_new_calendar_day() {
    let mut state = instantiate(Addr::from_text("creator"), 10);

    // First pool registration starts the clock on day 2 of January 1970.
    register_pool(&mut state, Addr::from_text("pool_one"), 86_400);
    assert_eq!(query_last_reset(&state).timestamp, 86_400);
    assert_eq!(query_pools(&state).pool_ids.len(), 1);

    // Later the same calendar day: refused, state unchanged.
    match try_broadcast_daily_leverage_reference(&mut state, 129_600) {
        Err(ContractError::NotTimeToUpdate) => {},
        _ => panic!("broadcast went out twice on one calendar day"),
    }
    assert_eq!(query_last_reset(&state).timestamp, 86_400);

    // The next calendar day: accepted.
    try_broadcast_daily_leverage_reference(&mut state, 216_000).unwrap();
    assert_eq!(query_last_reset(&state).timestamp, 216_000);
}

#[test]
fn broadcast_gating_wraps_at_month_boundaries() {
    let mut state = instantiate(Addr::from_text("creator"), 10);

    // Last broadcast on the 31st day of a month (1970-01-31). Because only
    // the day-of-month is compared, every later date fails the comparison
    // and every following broadcast is refused.
    register_pool(&mut state, Addr::from_text("pool_one"), 30 * 86_400);

    for now in [31 * 86_400 + 100, 32 * 86_400, 73 * 86_400] {
        match try_broadcast_daily_leverage_reference(&mut state, now) {
            Err(ContractError::NotTimeToUpdate) => {},
            _ => panic!("gate did not wrap at the month boundary"),
        }
    }
    assert_eq!(query_last_reset(&state).timestamp, 30 * 86_400);
}

#[test]
fn register_pool_keeps_existing_clock() {
    let mut state = instantiate(Addr::from_text("creator"), 7);
    register_pool(&mut state, Addr::from_text("pool_one"), 1_000);
    register_pool(&mut state, Addr::from_text("pool_two"), 2_000);

    // Only the first registration sets the clock.
    assert_eq!(query_last_reset(&state).timestamp, 1_000);

    let pools = query_pools(&state);
    assert_eq!(pools.pool_ids.len(), 2);
    assert!(pools.pool_ids[0] == Addr::from_text("pool_one"));
    assert!(pools.pool_ids[1] == Addr::from_text("pool_two"));
}
