use anchor_lang::Discriminator;
use clearing_house::error::ErrorCode;
use clearing_house::feeds::{
    convert_switchboard_decimal, pow10_u128, PYTH_PRICE_ACCOUNT_LEN,
    SWITCHBOARD_AGGREGATOR_ACCOUNT_LEN,
};
use clearing_house::market::AMM;
use clearing_house::oracle::OracleSource;
use switchboard_v2::{AggregatorAccountData, SwitchboardDecimal};

#[test]
fn account_length_floors_match_the_layouts() {
    assert_eq!(
        std::mem::size_of::<pyth_client::Price>() + 8,
        PYTH_PRICE_ACCOUNT_LEN
    );
    assert_eq!(
        std::mem::size_of::<AggregatorAccountData>() + 8,
        SWITCHBOARD_AGGREGATOR_ACCOUNT_LEN
    );
}

#[test]
fn pow10_small_exponents_and_overflow() {
    assert_eq!(pow10_u128(0), Ok(1));
    assert_eq!(pow10_u128(3), Ok(1_000));
    assert_eq!(
        pow10_u128(38),
        Ok(100_000_000_000_000_000_000_000_000_000_000_000_000)
    );
    assert_eq!(pow10_u128(39), Err(ErrorCode::MathError));
}

#[test]
fn switchboard_decimal_rescaling() {
    // 12.34 at two decimals becomes 12.34 in 1e10 mark units
    assert_eq!(convert_switchboard_decimal(1_234, 2), Ok(123_400_000_000));
    // finer than mark precision: truncated toward zero
    assert_eq!(convert_switchboard_decimal(5, 12), Ok(0));
    assert_eq!(convert_switchboard_decimal(-5, 12), Ok(0));
    assert_eq!(convert_switchboard_decimal(-1_234, 2), Ok(-123_400_000_000));
    // an overflowing rescale is a math error
    assert_eq!(
        convert_switchboard_decimal(i128::MAX, 0),
        Err(ErrorCode::MathError)
    );
}

/// A pyth price account buffer with the given aggregate fields, laid
/// out as the exponent-style price record expects them.
fn pyth_price_account(price: i64, conf: u64, expo: i32, valid_slot: u64, twap: i64) -> Vec<u8> {
    let mut data = vec![0u8; PYTH_PRICE_ACCOUNT_LEN];
    data[20..24].copy_from_slice(&expo.to_le_bytes());
    data[40..48].copy_from_slice(&valid_slot.to_le_bytes());
    data[48..56].copy_from_slice(&twap.to_le_bytes());
    data[208..216].copy_from_slice(&price.to_le_bytes());
    data[216..224].copy_from_slice(&conf.to_le_bytes());
    data
}

#[test]
fn pyth_price_bytes_decode_and_rescale() {
    let mut amm = AMM::default();
    amm.oracle_source = OracleSource::Pyth;
    // price 123.45 at exponent -8: scaled by 100 into 1e10 mark units
    let data = pyth_price_account(12_345, 10, -8, 95, 1_300);
    let reading = amm.get_oracle_price(&data, 100).unwrap();
    assert_eq!(reading.price, 1_234_500);
    assert_eq!(reading.confidence, 1_000);
    assert_eq!(reading.delay, 5);
    assert!(reading.has_sufficient_number_of_data_points);
}

#[test]
fn pyth_twap_bytes_decode_on_both_sides() {
    let mut amm = AMM::default();
    amm.oracle_source = OracleSource::Pyth;
    let data = pyth_price_account(12_345, 10, -8, 95, 1_300);
    // clearing-house side: 1e10 mark units
    assert_eq!(amm.get_oracle_twap(&data).unwrap(), Some(130_000));

    // perp-market side: 1e6 price units (exponent 1e8 is finer)
    let mut perp_amm = clearing_house::perp_market::AMM::default_test();
    perp_amm.oracle_source = OracleSource::Pyth;
    assert_eq!(perp_amm.get_oracle_twap(&data).unwrap(), Some(13));

    // a twap at or below a tenth of the price is an implausible reading
    let implausible = pyth_price_account(12_345, 10, -8, 95, 1_000);
    assert_eq!(
        perp_amm.get_oracle_twap(&implausible),
        Err(ErrorCode::InvalidOracle)
    );
}

/// A switchboard aggregator account buffer: the account discriminator
/// followed by the packed aggregator record.
fn switchboard_account(agg: &AggregatorAccountData) -> Vec<u8> {
    let mut data = AggregatorAccountData::discriminator().to_vec();
    data.extend_from_slice(bytemuck::bytes_of(agg));
    data
}

#[test]
fn switchboard_bytes_decode_and_rescale() {
    let mut agg: AggregatorAccountData = bytemuck::Zeroable::zeroed();
    agg.min_oracle_results = 2;
    agg.latest_confirmed_round.num_success = 3;
    agg.latest_confirmed_round.round_open_slot = 90;
    // 19400.0 at nine decimals
    agg.latest_confirmed_round.result = SwitchboardDecimal::new(19_400_000_000_000, 9);
    agg.latest_confirmed_round.std_deviation = SwitchboardDecimal::new(5, 1);
    let data = switchboard_account(&agg);
    assert_eq!(data.len(), SWITCHBOARD_AGGREGATOR_ACCOUNT_LEN);

    let mut amm = AMM::default();
    amm.oracle_source = OracleSource::Switchboard;
    let reading = amm.get_oracle_price(&data, 100).unwrap();
    assert_eq!(reading.price, 194_000_000_000_000);
    // the 0.5 std deviation is below a thousandth of the price, so the
    // confidence is floored there
    assert_eq!(reading.confidence, 194_000_000_000);
    assert_eq!(reading.delay, 10);
    assert!(reading.has_sufficient_number_of_data_points);

    // the mantissa-style feed publishes no twap
    assert_eq!(amm.get_oracle_twap(&data).unwrap(), None);
}

#[test]
fn switchboard_negative_deviation_is_flagged_worst_case() {
    let mut agg: AggregatorAccountData = bytemuck::Zeroable::zeroed();
    agg.min_oracle_results = 1;
    agg.latest_confirmed_round.num_success = 1;
    agg.latest_confirmed_round.round_open_slot = 100;
    agg.latest_confirmed_round.result = SwitchboardDecimal::new(5, 0);
    agg.latest_confirmed_round.std_deviation = SwitchboardDecimal::new(-1, 0);
    let data = switchboard_account(&agg);

    let mut amm = AMM::default();
    amm.oracle_source = OracleSource::Switchboard;
    let reading = amm.get_oracle_price(&data, 100).unwrap();
    assert_eq!(reading.confidence, u128::MAX);
}

#[test]
fn switchboard_thin_round_is_reported() {
    let mut agg: AggregatorAccountData = bytemuck::Zeroable::zeroed();
    agg.min_oracle_results = 3;
    agg.latest_confirmed_round.num_success = 2;
    agg.latest_confirmed_round.round_open_slot = 100;
    agg.latest_confirmed_round.result = SwitchboardDecimal::new(5, 0);
    let data = switchboard_account(&agg);

    let mut amm = AMM::default();
    amm.oracle_source = OracleSource::Switchboard;
    let reading = amm.get_oracle_price(&data, 100).unwrap();
    assert!(!reading.has_sufficient_number_of_data_points);
}

#[test]
fn switchboard_wrong_discriminator_fails_to_load() {
    let mut agg: AggregatorAccountData = bytemuck::Zeroable::zeroed();
    agg.latest_confirmed_round.result = SwitchboardDecimal::new(5, 0);
    let mut data = switchboard_account(&agg);
    data[0] ^= 0xff;

    let mut amm = AMM::default();
    amm.oracle_source = OracleSource::Switchboard;
    assert_eq!(
        amm.get_oracle_price(&data, 100),
        Err(ErrorCode::UnableToLoadOracle)
    );
}

#[test]
fn quote_asset_source_is_unsupported() {
    let mut amm = AMM::default();
    amm.oracle_source = OracleSource::QuoteAsset;
    assert_eq!(
        amm.get_oracle_price(&[], 100),
        Err(ErrorCode::UnsupportedOracleSource)
    );
    assert_eq!(
        amm.get_oracle_twap(&[]),
        Err(ErrorCode::UnsupportedOracleSource)
    );
    assert!(ErrorCode::UnsupportedOracleSource.label().len() > 0);
}
