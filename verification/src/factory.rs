//! Pool factory: tracks the pools it created and broadcasts the daily
//! leverage-reference reset to them.
//!
//! The broadcast is gated on the civil calendar: it goes out at most once
//! per day-of-month, once a later day has started (UTC). The calendar
//! conversion itself comes from an outside date library through a trusted
//! wrapper; the gating decision and the state updates are verified.
use vstd::prelude::*;
use crate::addr::Addr;

verus! {

/// Errors of the factory. Authorization failures belong to the boundary
/// layer, which checks the caller before it reaches this engine.
#[derive(Clone, Copy, Debug, PartialEq, Eq, Structural)]
pub enum ContractError {
    /// A new calendar day has not started since the last broadcast.
    NotTimeToUpdate,
}

/// The factory's persistent record: who may administer it, the pools it has
/// created, the code to instantiate new pools from, and when the leverage
/// reference was last broadcast (zero until the first pool registers).
pub struct State {
    pub owner: Addr,
    pub leveraged_pool_addrs: Vec<Addr>,
    pub leveraged_pool_code_id: u64,
    pub timestamp: u64,
}

/// Timestamp of the last broadcast of the daily leverage reference.
#[derive(Clone, Copy, Debug, PartialEq, Eq, Structural)]
pub struct LastResetResponse {
    pub timestamp: u64,
}

/// The pools the factory has created.
pub struct PoolResponse {
    pub pool_ids: Vec<Addr>,
}

/// Largest timestamp the calendar conversion is specified for; far past any
/// realistic block time, and well inside the date library's own range
/// (its calendar runs out in year 262142).
pub const MAX_CIVIL_TIMESTAMP: u64 = 8_000_000_000_000;

/// The UTC day-of-month (1 to 31) of the civil date that `secs` seconds
/// after 1970-01-01T00:00:00Z falls on.
pub uninterp spec fn day_of_month_utc(secs: u64) -> u32;

/// Relies on chrono's `DateTime::from_timestamp` and `Datelike::day`: the
/// UTC day-of-month is a function of the epoch seconds alone (no time zone
/// or locale is involved), documented to range over 1 to 31 and to be
/// defined for every timestamp within the library's calendar range.
#[verifier::external_body]
fn day_of_month(secs: u64) -> (r: u32)
    requires
        secs <= MAX_CIVIL_TIMESTAMP,
    ensures
        r == day_of_month_utc(secs),
        1 <= r <= 31,
{
    match chrono::DateTime::<chrono::Utc>::from_timestamp(secs as i64, 0) {
        Some(dt) => chrono::Datelike::day(&dt),
        None => 1,
    }
}

/// Create the factory record: no pools yet, and no broadcast made.
pub fn instantiate(owner: Addr, leveraged_pool_code_id: u64) -> (r: State)
    ensures
        r.owner == owner,
        r.leveraged_pool_addrs@.len() == 0,
        r.leveraged_pool_code_id == leveraged_pool_code_id,
        r.timestamp == 0,
{
    State { owner, leveraged_pool_addrs: Vec::new(), leveraged_pool_code_id, timestamp: 0 }
}

/// Gate and record the daily broadcast of the leverage reference.
///
/// Succeeds, advancing the recorded broadcast time to `now`, exactly when
/// the current UTC day-of-month is greater than that of the last broadcast;
/// otherwise fails with `NotTimeToUpdate` and changes nothing. (At a month
/// boundary the day-of-month wraps to 1, so the first broadcast of a month
/// waits for the second day; this mirrors the gating rule as deployed.) The
/// caller then sends the reset message to every registered pool.
pub fn try_broadcast_daily_leverage_reference(state: &mut State, now: u64) -> (r: Result<
    (),
    ContractError,
>)
    requires
        old(state).timestamp <= MAX_CIVIL_TIMESTAMP,
        now <= MAX_CIVIL_TIMESTAMP,
    ensures
        (r is Ok) == (day_of_month_utc(old(state).timestamp) < day_of_month_utc(now)),
        r is Err ==> *final(state) == *old(state) && r == Err::<(), ContractError>(
            ContractError::NotTimeToUpdate,
        ),
        r is Ok ==> {
            &&& final(state).timestamp == now
            &&& final(state).owner == old(state).owner
            &&& final(state).leveraged_pool_addrs == old(state).leveraged_pool_addrs
            &&& final(state).leveraged_pool_code_id == old(state).leveraged_pool_code_id
        },
{
    let stale_day = day_of_month(state.timestamp);
    let current_day = day_of_month(now);
    if stale_day >= current_day {
        return Err(ContractError::NotTimeToUpdate);
    }
    state.timestamp = now;
    Ok(())
}

/// Record a pool the factory has just created; the first registration also
/// starts the broadcast clock.
pub fn register_pool(state: &mut State, pool_addr: Addr, now: u64)
    ensures
        final(state).leveraged_pool_addrs@ == old(state).leveraged_pool_addrs@.push(pool_addr),
        final(state).timestamp == if old(state).timestamp == 0 {
            now
        } else {
            old(state).timestamp
        },
        final(state).owner == old(state).owner,
        final(state).leveraged_pool_code_id == old(state).leveraged_pool_code_id,
{
    state.leveraged_pool_addrs.push(pool_addr);
    if state.timestamp == 0 {
        state.timestamp = now;
    }
}

/// When the leverage reference was last broadcast.
pub fn query_last_reset(state: &State) -> (r: LastResetResponse)
    ensures
        r == (LastResetResponse { timestamp: state.timestamp }),
{
    LastResetResponse { timestamp: state.timestamp }
}

/// The pools the factory has created, in creation order.
pub fn query_pools(state: &State) -> (r: PoolResponse)
    ensures
        r.pool_ids@.len() == state.leveraged_pool_addrs@.len(),
        forall|i: int| 0 <= i < r.pool_ids@.len() ==> r.pool_ids@[i]@
            == state.leveraged_pool_addrs@[i]@,
{
    let n = state.leveraged_pool_addrs.len();
    let mut pool_ids: Vec<Addr> = Vec::new();
    let mut i: usize = 0;
    while i < n
        invariant
            n == state.leveraged_pool_addrs@.len(),
            i <= n,
            pool_ids@.len() == i,
            forall|j: int| 0 <= j < i ==> pool_ids@[j]@ == state.leveraged_pool_addrs@[j]@,
        decreases n - i,
    {
        pool_ids.push(state.leveraged_pool_addrs[i].clone());
        i = i + 1;
    }
    PoolResponse { pool_ids }
}

} // verus!
