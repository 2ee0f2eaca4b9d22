use clearing_house::error::ErrorCode;
use clearing_house::market::AMM;
use clearing_house::oracle::{
    block_operation, calculate_oracle_mark_spread_pct, get_oracle_status, is_oracle_mark_too_divergent,
    is_oracle_valid, OracleGuardRails, OraclePriceData, PriceDivergenceGuardRails,
    ValidityGuardRails,
};

fn one_unit_amm() -> AMM {
    let mut amm = AMM::default();
    amm.base_asset_reserve = 10_000_000_000_000;
    amm.quote_asset_reserve = 10_000_000_000_000;
    amm.peg_multiplier = 1_000;
    amm
}

fn guard_rails() -> OracleGuardRails {
    OracleGuardRails {
        validity: ValidityGuardRails {
            slots_before_stale: 10,
            // the price must be at least 50x its confidence interval (2%)
            confidence_interval_max_size: 50,
        },
        price_divergence: PriceDivergenceGuardRails {
            // 10% in spread precision units
            mark_oracle_divergence: 100_000,
        },
    }
}

fn fresh_reading(price: i128, confidence: u128) -> OraclePriceData {
    OraclePriceData {
        price,
        confidence,
        delay: 1,
        has_sufficient_number_of_data_points: true,
    }
}

#[test]
fn wide_confidence_invalidates_and_blocks() {
    // confidence is 3% of the price while the guard allows 2%: the
    // reading is invalid and the operation is blocked at zero divergence
    let amm = one_unit_amm();
    let rails = guard_rails();
    let reading = fresh_reading(10_000_000_000, 300_000_000);
    assert!(!is_oracle_valid(&reading, &rails.validity));
    let status = get_oracle_status(&amm, &reading, &rails, None).unwrap();
    assert_eq!(status.oracle_mark_spread_pct, 0);
    assert!(!status.is_valid);
    assert!(!status.mark_too_divergent);
    assert!(block_operation(&amm, &reading, &rails, None).unwrap());
}

#[test]
fn tight_confidence_passes_the_gate() {
    let amm = one_unit_amm();
    let rails = guard_rails();
    let reading = fresh_reading(10_000_000_000, 100_000_000);
    assert!(is_oracle_valid(&reading, &rails.validity));
    assert!(!block_operation(&amm, &reading, &rails, None).unwrap());
}

#[test]
fn stale_nonpositive_or_thin_readings_are_invalid() {
    let rails = guard_rails();
    let mut stale = fresh_reading(10_000_000_000, 1);
    stale.delay = 11;
    assert!(!is_oracle_valid(&stale, &rails.validity));

    let nonpositive = fresh_reading(0, 1);
    assert!(!is_oracle_valid(&nonpositive, &rails.validity));

    let mut thin = fresh_reading(10_000_000_000, 1);
    thin.has_sufficient_number_of_data_points = false;
    assert!(!is_oracle_valid(&thin, &rails.validity));
}

#[test]
fn spread_pct_is_signed_and_relative_to_the_mark() {
    let amm = one_unit_amm();
    // oracle 5% above the mark
    let above = fresh_reading(10_500_000_000, 1);
    assert_eq!(
        calculate_oracle_mark_spread_pct(&amm, &above, None).unwrap(),
        50_000
    );
    // oracle 20% below the mark, against a precomputed mark price
    let below = fresh_reading(8_000_000_000, 1);
    assert_eq!(
        calculate_oracle_mark_spread_pct(&amm, &below, Some(10_000_000_000)).unwrap(),
        -200_000
    );
}

#[test]
fn divergence_blocks_a_valid_reading() {
    let amm = one_unit_amm();
    let rails = guard_rails();
    // valid but 20% below the mark: the divergence rule blocks it
    let reading = fresh_reading(8_000_000_000, 1);
    let status = get_oracle_status(&amm, &reading, &rails, None).unwrap();
    assert!(status.is_valid);
    assert!(status.mark_too_divergent);
    assert!(block_operation(&amm, &reading, &rails, None).unwrap());
    assert!(is_oracle_mark_too_divergent(-200_000, &rails.price_divergence));
    assert!(!is_oracle_mark_too_divergent(-100_000, &rails.price_divergence));
}

#[test]
fn depleted_mark_makes_the_guard_fail() {
    let mut amm = one_unit_amm();
    amm.base_asset_reserve = 0;
    let rails = guard_rails();
    let reading = fresh_reading(10_000_000_000, 1);
    assert_eq!(
        block_operation(&amm, &reading, &rails, None),
        Err(ErrorCode::MathError)
    );
}
