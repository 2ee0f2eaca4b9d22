use clearing_house::constants::{
    AMM_RESERVE_PRECISION, MARK_PRICE_PRECISION, PEG_PRECISION, PRICE_PRECISION,
};
use clearing_house::error::ErrorCode;
use clearing_house::market;
use clearing_house::perp_market;

fn clearing_house_amm() -> market::AMM {
    let mut amm = market::AMM::default();
    amm.base_asset_reserve = 10_000_000_000_000;
    amm.quote_asset_reserve = 10_000_000_000_000;
    amm.peg_multiplier = 1_000;
    amm
}

#[test]
fn equal_reserves_unit_peg_mark_is_one_unit() {
    // equal reserves and a unit peg: the mark price is exactly one unit,
    // and with zero spreads bid == ask == mark
    let amm = clearing_house_amm();
    let mark = amm.mark_price().unwrap();
    assert_eq!(mark, MARK_PRICE_PRECISION);
    let (bid, ask) = amm.bid_ask_price(mark).unwrap();
    assert_eq!(bid, mark);
    assert_eq!(ask, mark);
}

#[test]
fn equal_reserves_unit_peg_reserve_price_is_one_unit() {
    let amm = perp_market::AMM::default_test();
    let reserve_price = amm.reserve_price().unwrap();
    assert_eq!(reserve_price as u128, PRICE_PRECISION);
    let (bid, ask) = amm.bid_ask_price(reserve_price).unwrap();
    assert_eq!(bid, reserve_price);
    assert_eq!(ask, reserve_price);
}

#[test]
fn spreads_bracket_the_mark_price() {
    let mut amm = clearing_house_amm();
    amm.short_spread = 25_000; // 2.5%
    amm.long_spread = 10_000; // 1.0%
    let mark = amm.mark_price().unwrap();
    let (bid, ask) = amm.bid_ask_price(mark).unwrap();
    assert_eq!(bid, 9_750_000_000);
    assert_eq!(ask, 10_100_000_000);
    assert!(bid <= mark && mark <= ask);
}

#[test]
fn perp_spreads_bracket_the_reserve_price() {
    let mut amm = perp_market::AMM::default_test();
    amm.short_spread = 20_000;
    amm.long_spread = 5_000;
    let reserve_price = amm.reserve_price().unwrap();
    let (bid, ask) = amm.bid_ask_price(reserve_price).unwrap();
    assert_eq!(bid, 980_000);
    assert_eq!(ask, 1_005_000);
    assert!(bid <= reserve_price && reserve_price <= ask);
}

#[test]
fn wider_spreads_never_narrow_the_band() {
    let mut narrow = perp_market::AMM::default_test();
    narrow.short_spread = 1_000;
    narrow.long_spread = 2_000;
    let mut wide = perp_market::AMM::default_test();
    wide.short_spread = 30_000;
    wide.long_spread = 40_000;
    let reserve_price = narrow.reserve_price().unwrap();
    let (nb, na) = narrow.bid_ask_price(reserve_price).unwrap();
    let (wb, wa) = wide.bid_ask_price(reserve_price).unwrap();
    assert!(na - nb <= wa - wb);
}

#[test]
fn depleted_base_reserve_is_a_math_error() {
    let mut amm = clearing_house_amm();
    amm.base_asset_reserve = 0;
    assert_eq!(amm.mark_price(), Err(ErrorCode::MathError));
}

#[test]
fn excessive_short_spread_is_a_math_error() {
    let mut amm = clearing_house_amm();
    amm.short_spread = 1_000_001; // more than one full unit
    let mark = amm.mark_price().unwrap();
    assert_eq!(amm.bid_price(mark), Err(ErrorCode::MathError));
}

#[test]
fn btc_fixture_prices_near_the_peg() {
    let amm = perp_market::AMM::default_btc_test();
    // 63.015384615e9 * 19_400e6 / 65e9, in price precision
    let reserve_price = amm.reserve_price().unwrap();
    assert_eq!(reserve_price, 18_807_668_638);
    assert_eq!(
        amm.base_asset_reserve,
        65 * AMM_RESERVE_PRECISION
    );
    assert_eq!(amm.peg_multiplier, 19_400 * PEG_PRECISION);
}

#[test]
fn can_lower_k_compares_exposure_to_quarter_sqrt_k() {
    let mut amm = clearing_house_amm();
    amm.sqrt_k = 1_000;
    amm.net_base_asset_amount = 249;
    assert!(amm.can_lower_k().unwrap());
    amm.net_base_asset_amount = -250;
    assert!(!amm.can_lower_k().unwrap());

    let mut perp_amm = perp_market::AMM::default_test();
    perp_amm.sqrt_k = 1_000;
    perp_amm.base_asset_amount_with_amm = -249;
    assert!(perp_amm.can_lower_k().unwrap());
    perp_amm.base_asset_amount_with_amm = 250;
    assert!(!perp_amm.can_lower_k().unwrap());
}

#[test]
fn pool_balance_checked_mutations() {
    let mut pool = market::PoolBalance::default();
    pool.increase_balance(70).unwrap();
    assert_eq!(pool.balance(), 70);
    pool.decrease_balance(20).unwrap();
    assert_eq!(pool.balance(), 50);
    assert_eq!(pool.decrease_balance(51), Err(ErrorCode::MathError));
    assert_eq!(pool.balance(), 50);
    assert_eq!(
        pool.update_balance_type(market::BankBalanceType::Borrow),
        Err(ErrorCode::CantUpdatePoolBalanceType)
    );
    let mut full = market::PoolBalance { balance: u128::MAX };
    assert_eq!(full.increase_balance(1), Err(ErrorCode::MathError));
}
