use clearing_house::margin::MarginRequirementType as ChMarginType;
use clearing_house::market::Market;
use clearing_house::math::{calculate_rolling_sum, isqrt_u128};
use clearing_house::perp_margin::MarginRequirementType as PerpMarginType;
use clearing_house::perp_market::{MarketStatus, PerpMarket};
use clearing_house::error::ErrorCode;
use clearing_house::perp_market::ContractTier;
use clearing_house::position::PositionDirection;
use num_integer::Roots;

fn clearing_house_market() -> Market {
    let mut market = Market::default();
    market.margin_ratio_initial = 1_000;
    market.margin_ratio_partial = 625;
    market.margin_ratio_maintenance = 500;
    market
}

#[test]
fn isqrt_matches_the_reference_root() {
    let samples: [u128; 9] = [
        0,
        1,
        2,
        3,
        4,
        1_000_000,
        1_000_000_000_000,
        u64::MAX as u128,
        u128::MAX,
    ];
    for v in samples {
        assert_eq!(isqrt_u128(v), v.nth_root(2));
    }
}

#[test]
fn zero_size_zero_imf_margin_ratio_is_the_base_ratio() {
    // size = 0, imf factor = 0: the configured base ratio comes back
    let market = clearing_house_market();
    assert_eq!(
        market.get_margin_ratio(0, ChMarginType::Initial).unwrap(),
        1_000
    );
    assert_eq!(
        market.get_margin_ratio(0, ChMarginType::Partial).unwrap(),
        625
    );
    assert_eq!(
        market.get_margin_ratio(0, ChMarginType::Maintenance).unwrap(),
        500
    );
    // the base comes back exactly even where another configured ratio
    // is larger
    let mut lopsided = Market::default();
    lopsided.margin_ratio_initial = 100;
    lopsided.margin_ratio_partial = 200;
    assert_eq!(
        lopsided.get_margin_ratio(0, ChMarginType::Initial).unwrap(),
        100
    );

    let perp = PerpMarket::default_test();
    assert_eq!(
        perp.get_margin_ratio(0, PerpMarginType::Initial).unwrap(),
        1_000
    );
    assert_eq!(
        perp.get_margin_ratio(0, PerpMarginType::Maintenance).unwrap(),
        500
    );
}

#[test]
fn clearing_house_margin_ratio_size_surplus() {
    // divisor = 1e6/2000 = 500, floor = 500 - 500/500 = 499,
    // sqrt(1e13/1000 + 1) = 1e5, surplus = 1e5 * 2000 / 1e7 = 20
    let mut market = clearing_house_market();
    market.imf_factor = 2_000;
    assert_eq!(
        market
            .get_margin_ratio(10_000_000_000_000, ChMarginType::Maintenance)
            .unwrap(),
        519
    );
    // for the initial type: floor = 1000 - 1000/500 = 998, + 20 = 1018
    assert_eq!(
        market
            .get_margin_ratio(10_000_000_000_000, ChMarginType::Initial)
            .unwrap(),
        1_018
    );
    // a tiny position adds no surplus beyond the base
    assert_eq!(
        market.get_margin_ratio(0, ChMarginType::Initial).unwrap(),
        1_000
    );
}

#[test]
fn clearing_house_margin_surplus_is_clamped_at_the_leverage_cap() {
    // an enormous position: the size-adjusted requirement stops at the
    // 1x leverage ceiling rather than growing without bound
    let mut market = clearing_house_market();
    market.imf_factor = 1_000_000;
    assert_eq!(
        market
            .get_margin_ratio(u128::MAX / 2, ChMarginType::Initial)
            .unwrap(),
        10_000
    );
}

#[test]
fn perp_margin_ratio_size_premium() {
    // floor = 1000 - 1000/5 = 800, sqrt(1e13/1000 + 1) = 1e5,
    // premium = 800 + 1e5 * 50_000 / 1e7 = 1300
    let mut perp = PerpMarket::default_test();
    perp.imf_factor = 50_000;
    assert_eq!(
        perp.get_margin_ratio(10_000_000_000_000, PerpMarginType::Initial)
            .unwrap(),
        1_300
    );
}

#[test]
fn margin_ratio_is_non_decreasing_in_size() {
    let mut perp = PerpMarket::default_test();
    perp.imf_factor = 50_000;
    let small = perp
        .get_margin_ratio(1_000_000_000_000, PerpMarginType::Initial)
        .unwrap();
    let large = perp
        .get_margin_ratio(10_000_000_000_000, PerpMarginType::Initial)
        .unwrap();
    assert!(small <= large);

    let mut market = clearing_house_market();
    market.imf_factor = 2_000;
    let small_ch = market
        .get_margin_ratio(1_000_000_000_000, ChMarginType::Maintenance)
        .unwrap();
    let large_ch = market
        .get_margin_ratio(10_000_000_000_000, ChMarginType::Maintenance)
        .unwrap();
    assert!(small_ch <= large_ch);
}

#[test]
fn settlement_market_weighs_no_size() {
    let mut perp = PerpMarket::default_test();
    perp.status = MarketStatus::Settlement;
    assert_eq!(
        perp.get_margin_ratio(10_000_000_000_000, PerpMarginType::Initial)
            .unwrap(),
        0
    );
}

#[test]
fn non_positive_pnl_always_carries_full_weight() {
    // liabilities are never discounted, whatever the configuration
    let mut market = clearing_house_market();
    market.unsettled_initial_asset_weight = 80;
    market.unsettled_maintenance_asset_weight = 90;
    market.imf_factor = 1_000_000;
    for pnl in [0i128, -1, -1_000_000_000] {
        for t in [
            ChMarginType::Initial,
            ChMarginType::Partial,
            ChMarginType::Maintenance,
        ] {
            assert_eq!(market.get_unsettled_asset_weight(pnl, t).unwrap(), 100);
        }
    }

    let mut perp = PerpMarket::default_test();
    perp.unrealized_pnl_initial_asset_weight = 8_000;
    perp.unrealized_pnl_maintenance_asset_weight = 9_000;
    perp.unrealized_pnl_imf_factor = 1_000_000;
    for pnl in [0i128, -1, -1_000_000_000] {
        for t in [PerpMarginType::Initial, PerpMarginType::Maintenance] {
            assert_eq!(
                perp.get_unrealized_asset_weight(pnl, t).unwrap(),
                10_000
            );
        }
    }
}

#[test]
fn clearing_house_positive_pnl_weight_discount() {
    let mut market = clearing_house_market();
    market.unsettled_initial_asset_weight = 80;
    market.unsettled_maintenance_asset_weight = 90;
    market.amm.last_oracle_price = 2 * 10_000_000_000;
    // imf = 0: the configured weight stands
    assert_eq!(
        market
            .get_unsettled_asset_weight(5_000, ChMarginType::Initial)
            .unwrap(),
        80
    );
    // maintenance: the maintenance weight, capped at one unit
    assert_eq!(
        market
            .get_unsettled_asset_weight(5_000, ChMarginType::Maintenance)
            .unwrap(),
        90
    );
    // imf = 1e7: size = 2500, sqrt(2501) = 50,
    // denom = 1e6 + 50 * 1e7 / 1000 = 1.5e6, discount = 1.1e8/1.5e6 = 73
    market.imf_factor = 10_000_000;
    assert_eq!(
        market
            .get_unsettled_asset_weight(5_000, ChMarginType::Initial)
            .unwrap(),
        73
    );
}

#[test]
fn perp_positive_pnl_weight_and_imbalance_scaling() {
    let mut perp = PerpMarket::default_test();
    perp.unrealized_pnl_initial_asset_weight = 8_000;
    perp.unrealized_pnl_maintenance_asset_weight = 9_000;
    assert_eq!(
        perp.get_unrealized_asset_weight(100, PerpMarginType::Initial)
            .unwrap(),
        8_000
    );
    assert_eq!(
        perp.get_unrealized_asset_weight(100, PerpMarginType::Maintenance)
            .unwrap(),
        9_000
    );
    // aggregate net user pnl of 100 against a ceiling of 10 scales the
    // initial weight down by 10/100
    perp.unrealized_pnl_max_imbalance = 10;
    perp.amm.quote_asset_amount_long = 100;
    assert_eq!(
        perp.get_unrealized_asset_weight(100, PerpMarginType::Initial)
            .unwrap(),
        800
    );
}

#[test]
fn initial_leverage_ratio_inverts_the_margin_ratio() {
    let perp = PerpMarket::default_test();
    assert_eq!(
        perp.get_initial_leverage_ratio(PerpMarginType::Initial),
        100_000
    );
    assert_eq!(
        perp.get_initial_leverage_ratio(PerpMarginType::Maintenance),
        200_000
    );
}

#[test]
fn open_interest_is_the_larger_side() {
    let mut perp = PerpMarket::default_test();
    perp.amm.base_asset_amount_long = 5;
    perp.amm.base_asset_amount_short = -7;
    assert_eq!(perp.get_open_interest(), 7);
}

#[test]
fn net_user_pnl_values_exposure_in_quote_units() {
    // the btc fixture is short one base unit at a $19400 oracle with
    // $19000 of net quote: -19400 + 19000 = -$400 in 1e6 quote units
    let amm = clearing_house::perp_market::AMM::default_btc_test();
    assert_eq!(
        clearing_house::perp_market::calculate_net_user_pnl(
            &amm,
            amm.historical_oracle_data.last_oracle_price
        ),
        Ok(-400_000_000)
    );
    // a non-positive oracle price is a fatal configuration error
    assert_eq!(
        clearing_house::perp_market::calculate_net_user_pnl(&amm, 0),
        Err(ErrorCode::MathError)
    );
}

#[test]
fn rolling_sum_half_window_decay() {
    // old = 1000, delta = 500, elapsed = 12h of a 24h window:
    // 1000 * (1 - 12/24) + 500 = 1000
    assert_eq!(calculate_rolling_sum(1_000, 500, 43_200, 86_400), Ok(1_000));
    // at or past the window's edge only the delta remains
    assert_eq!(calculate_rolling_sum(1_000, 500, 86_400, 86_400), Ok(500));
    assert_eq!(calculate_rolling_sum(1_000, 500, 200_000, 86_400), Ok(500));
}

#[test]
fn update_volume_24h_decays_and_records_the_trade() {
    let mut amm = clearing_house::perp_market::AMM::default_test();
    amm.volume_24h = 1_000;
    amm.last_trade_ts = 0;
    amm.update_volume_24h(500, PositionDirection::Long, 43_200)
        .unwrap();
    assert_eq!(amm.volume_24h, 1_000);
    assert_eq!(amm.long_intensity_volume, 500);
    assert_eq!(amm.short_intensity_volume, 0);
    assert_eq!(amm.long_intensity_count, 1);
    assert_eq!(amm.short_intensity_count, 0);
    assert_eq!(amm.last_trade_ts, 43_200);

    amm.update_volume_24h(200, PositionDirection::Short, 64_800)
        .unwrap();
    // half of the remaining window elapsed: 1000 * (1 - 21600/86400) + 200
    assert_eq!(amm.volume_24h, 950);
    assert_eq!(amm.short_intensity_volume, 200);
    assert_eq!(amm.short_intensity_count, 1);
    assert_eq!(amm.last_trade_ts, 64_800);
}

#[test]
fn market_lifecycle_checks() {
    let mut perp = PerpMarket::default_test();
    assert!(perp.is_active(100).unwrap());
    assert!(!perp.is_reduce_only().unwrap());
    perp.status = MarketStatus::ReduceOnly;
    assert!(perp.is_reduce_only().unwrap());
    perp.status = MarketStatus::Settlement;
    assert!(!perp.is_active(100).unwrap());
    perp.status = MarketStatus::Active;
    perp.expiry_ts = 50;
    assert!(!perp.is_active(100).unwrap());
    assert!(perp.is_active(49).unwrap());
}

#[test]
fn sanitize_clamp_denominator_by_tier() {
    let mut perp = PerpMarket::default_test();
    perp.contract_tier = ContractTier::A;
    assert_eq!(perp.get_sanitize_clamp_denominator().unwrap(), Some(10));
    perp.contract_tier = ContractTier::B;
    assert_eq!(perp.get_sanitize_clamp_denominator().unwrap(), Some(5));
    perp.contract_tier = ContractTier::C;
    assert_eq!(perp.get_sanitize_clamp_denominator().unwrap(), Some(2));
    perp.contract_tier = ContractTier::Speculative;
    assert_eq!(perp.get_sanitize_clamp_denominator().unwrap(), None);
    perp.contract_tier = ContractTier::Isolated;
    assert_eq!(perp.get_sanitize_clamp_denominator().unwrap(), None);
}
