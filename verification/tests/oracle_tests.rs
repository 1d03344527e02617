//! Tests of the spot-price derivation from AMM reserves and of the share
//! ledger.
use leveraged_pools::addr::Addr;
use leveraged_pools::error::ContractError;
use leveraged_pools::ledger::{Ledger, LedgerEntry};
use leveraged_pools::swap::{AssetReserve, ts_price_from_reserves};

fn reserve(id: &str, amount: u128) -> AssetReserve {
    AssetReserve { asset_id: Addr::from_text(id), amount }
}

#[test]
fn spot_price_from_reserves() {
    let mtsla = Addr::from_text("mTSLA");
    let reserves = vec![reserve("uusd", 1_000_000_000_000), reserve("mTSLA", 1_000_000_000)];
    let point = ts_price_from_reserves(&mtsla, &reserves, 42).unwrap();
    assert_eq!(point.u_price, 1_000_000_000);
    assert_eq!(point.timestamp, 42);

    // The reserve order does not matter.
    let reserves = vec![reserve("mTSLA", 1_000_000_000), reserve("uusd", 1_000_000_000_000)];
    let point = ts_price_from_reserves(&mtsla, &reserves, 42).unwrap();
    assert_eq!(point.u_price, 1_000_000_000);

    // The price is floored.
    let reserves = vec![reserve("uusd", 10), reserve("mTSLA", 3)];
    let point = ts_price_from_reserves(&mtsla, &reserves, 42).unwrap();
    assert_eq!(point.u_price, 3_333_333);
}

#[test]
fn oracle_response_must_hold_two_reserves() {
    let mtsla = Addr::from_text("mTSLA");
    let reserves = vec![reserve("uusd", 1_000_000_000_000)];
    assert!(matches!(
        ts_price_from_reserves(&mtsla, &reserves, 0),
        Err(ContractError::UnexpectedOracleResponse)
    ));
    let reserves = vec![
        reserve("uusd", 1_000_000_000_000),
        reserve("mTSLA", 1_000_000_000),
        reserve("uluna", 5),
    ];
    assert!(matches!(
        ts_price_from_reserves(&mtsla, &reserves, 0),
        Err(ContractError::UnexpectedOracleResponse)
    ));
}

#[test]
fn empty_reserves_have_no_liquidity() {
    let mtsla = Addr::from_text("mTSLA");
    let reserves = vec![reserve("uusd", 0), reserve("mTSLA", 1_000_000_000)];
    assert!(matches!(
        ts_price_from_reserves(&mtsla, &reserves, 0),
        Err(ContractError::NoTokenLiquidity)
    ));
    let reserves = vec![reserve("uusd", 1_000_000_000_000), reserve("mTSLA", 0)];
    assert!(matches!(
        ts_price_from_reserves(&mtsla, &reserves, 0),
        Err(ContractError::NoTokenLiquidity)
    ));
    // A pair that does not contain the leveraged asset at all.
    let reserves = vec![reserve("uusd", 7), reserve("uluna", 9)];
    assert!(matches!(
        ts_price_from_reserves(&mtsla, &reserves, 0),
        Err(ContractError::NoTokenLiquidity)
    ));
}

#[test]
fn huge_capital_reserve_is_arithmetic_error() {
    let mtsla = Addr::from_text("mTSLA");
    let reserves = vec![reserve("uusd", u128::MAX), reserve("mTSLA", 1)];
    assert!(matches!(
        ts_price_from_reserves(&mtsla, &reserves, 0),
        Err(ContractError::ArithmeticError)
    ));
}

#[test]
fn ledger_rebuilds_from_entries() {
    // The boundary layer rebuilds ledgers from persisted records; an address
    // listed twice is refused.
    let entries = vec![
        LedgerEntry { addr: Addr::from_text("alpha"), share: 10 },
        LedgerEntry { addr: Addr::from_text("beta"), share: 20 },
    ];
    let ledger = Ledger::from_entries(entries).unwrap();
    assert_eq!(ledger.get(&Addr::from_text("alpha")), 10);
    assert_eq!(ledger.get(&Addr::from_text("beta")), 20);
    assert_eq!(ledger.entries().len(), 2);
    assert_eq!(ledger.entries()[0].addr.as_bytes(), b"alpha");

    let duplicated = vec![
        LedgerEntry { addr: Addr::from_text("alpha"), share: 10 },
        LedgerEntry { addr: Addr::from_text("alpha"), share: 20 },
    ];
    assert!(Ledger::from_entries(duplicated).is_none());
}

#[test]
fn ledger_tracks_shares_per_address() {
    let mut ledger = Ledger::new();
    let alpha = Addr::from_text("alpha");
    let beta = Addr::from_text("beta");

    assert_eq!(ledger.get(&alpha), 0);

    ledger.credit(&alpha, 100);
    ledger.credit(&beta, 50);
    // Crediting an address again accumulates on its single entry.
    ledger.credit(&alpha, 25);
    assert_eq!(ledger.get(&alpha), 125);
    assert_eq!(ledger.get(&beta), 50);

    ledger.debit(&alpha, 30);
    assert_eq!(ledger.get(&alpha), 95);
    assert_eq!(ledger.get(&beta), 50);
    assert_eq!(ledger.get(&Addr::from_text("unknown")), 0);
}
