//! Oracle feed decoding: the account-byte readers for the two external
//! feed layouts (one with an explicit decimal exponent, one with an
//! explicit mantissa plus scale) and the verified rescaling of their
//! readings into the core's price precisions.

use vstd::prelude::*;

use crate::constants::{MARK_PRICE_PRECISION, PRICE_PRECISION};
use crate::error::{ClearingHouseResult, ErrorCode};
use crate::oracle::OraclePriceData;

verus! {

/// `10^e`.
pub open spec fn spec_pow10(e: nat) -> nat
    decreases e,
{
    if e == 0 {
        1
    } else {
        10 * spec_pow10((e - 1) as nat)
    }
}

/// Powers of ten are positive.
pub proof fn lemma_pow10_pos(e: nat)
    ensures
        spec_pow10(e) >= 1,
    decreases e,
{
    if e > 0 {
        lemma_pow10_pos((e - 1) as nat);
    }
}

/// Powers of ten are non-decreasing in the exponent.
pub proof fn lemma_pow10_monotonic(a: nat, b: nat)
    requires
        a <= b,
    ensures
        spec_pow10(a) <= spec_pow10(b),
    decreases b,
{
    if a < b {
        lemma_pow10_monotonic(a, (b - 1) as nat);
        lemma_pow10_pos((b - 1) as nat);
    }
}

/// `10^e` for the decimal exponents that fit a u128; a larger exponent
/// is a fatal arithmetic error.
pub fn pow10_u128(e: u32) -> (r: ClearingHouseResult<u128>)
    ensures
        r is Ok <==> e <= 38,
        r is Ok ==> r->Ok_0 == spec_pow10(e as nat) && r->Ok_0 >= 1,
        r is Err ==> r->Err_0 == ErrorCode::MathError,
{
    if e > 38 {
        return Err(ErrorCode::MathError);
    }
    proof {
        reveal_with_fuel(spec_pow10, 40);
        assert(spec_pow10(38nat) == 100_000_000_000_000_000_000_000_000_000_000_000_000);
    }
    let mut acc: u128 = 1;
    let mut k: u32 = 0;
    while k < e
        invariant
            k <= e <= 38,
            acc == spec_pow10(k as nat),
            spec_pow10(38nat) == 100_000_000_000_000_000_000_000_000_000_000_000_000,
        decreases e - k,
    {
        proof {
            lemma_pow10_monotonic((k + 1) as nat, 38nat);
            lemma_pow10_pos(k as nat);
        }
        acc = acc * 10;
        k = k + 1;
    }
    proof {
        lemma_pow10_pos(e as nat);
    }
    Ok(acc)
}

/// The magnitude of a 32-bit exponent.
pub open spec fn abs_i32(x: i32) -> u32 {
    if x >= 0 {
        x as u32
    } else {
        (-(x as int)) as u32
    }
}

/// One decoded reading of the exponent-style feed: the aggregate price
/// and confidence, the decimal exponent, the slot the aggregate was
/// valid at, and the time-weighted average price.
#[derive(Clone, Copy, Debug, PartialEq, Eq, Structural)]
pub struct PythPriceRecord {
    pub agg_price: i64,
    pub agg_conf: u64,
    pub expo: i32,
    pub valid_slot: u64,
    pub twap: i64,
}

/// The fewest account bytes the exponent-style reader accepts: the
/// price record's size plus alignment slack.
pub const PYTH_PRICE_ACCOUNT_LEN: usize = 3320;

/// Relies on pyth_client::cast::<pyth_client::Price>: reinterprets the
/// account buffer as a price record and copies the aggregate price and
/// confidence, the exponent, the valid slot and the twap out of it. The
/// reinterpretation starts at the buffer's first 8-aligned offset, so
/// nothing is promised of the values; the length floor keeps the
/// reinterpretation in bounds.
#[verifier::external_body]
fn read_pyth_price_record(data: &[u8]) -> (r: PythPriceRecord)
    requires
        data@.len() >= PYTH_PRICE_ACCOUNT_LEN,
{
    let price_data = pyth_client::cast::<pyth_client::Price>(data);
    PythPriceRecord {
        agg_price: price_data.agg.price,
        agg_conf: price_data.agg.conf,
        expo: price_data.expo,
        valid_slot: price_data.valid_slot,
        twap: price_data.twap.val,
    }
}

/// One decoded round of the mantissa-plus-scale feed.
#[derive(Clone, Copy, Debug, PartialEq, Eq, Structural)]
pub struct SwitchboardRound {
    pub result_mantissa: i128,
    pub result_scale: u32,
    pub std_deviation_mantissa: i128,
    pub std_deviation_scale: u32,
    pub round_open_slot: u64,
    pub num_success: u32,
    pub min_oracle_results: u32,
}

/// The fewest account bytes the mantissa-style reader accepts: the
/// 8-byte account discriminator plus the packed aggregator record.
pub const SWITCHBOARD_AGGREGATOR_ACCOUNT_LEN: usize = 3851;

/// What the mantissa-style aggregator bytes decode to: the latest
/// confirmed round's result and standard deviation (mantissa and scale
/// each), its open slot and success count, and the configured minimum
/// oracle results — or nothing where the discriminator does not match.
pub uninterp spec fn switchboard_aggregator_of(data: Seq<u8>) -> Option<
    (i128, u32, i128, u32, u64, u32, u32),
>;

/// Relies on switchboard_v2::AggregatorAccountData::new_from_bytes: it
/// checks the 8-byte account discriminator and reinterprets the packed
/// (align-1) record in place, so its outcome is a function of the bytes
/// alone; the length floor keeps the reinterpretation in bounds.
#[verifier::external_body]
fn read_switchboard_aggregator(data: &[u8]) -> (r: Option<SwitchboardRound>)
    requires
        data@.len() >= SWITCHBOARD_AGGREGATOR_ACCOUNT_LEN,
    ensures
        r is Some <==> switchboard_aggregator_of(data@) is Some,
        r is Some ==> {
            let f = switchboard_aggregator_of(data@)->Some_0;
            r->Some_0 == (SwitchboardRound {
                result_mantissa: f.0,
                result_scale: f.1,
                std_deviation_mantissa: f.2,
                std_deviation_scale: f.3,
                round_open_slot: f.4,
                num_success: f.5,
                min_oracle_results: f.6,
            })
        },
{
    match switchboard_v2::AggregatorAccountData::new_from_bytes(data) {
        Ok(a) => Some(SwitchboardRound {
            result_mantissa: a.latest_confirmed_round.result.mantissa,
            result_scale: a.latest_confirmed_round.result.scale,
            std_deviation_mantissa: a.latest_confirmed_round.std_deviation.mantissa,
            std_deviation_scale: a.latest_confirmed_round.std_deviation.scale,
            round_open_slot: a.latest_confirmed_round.round_open_slot,
            num_success: a.latest_confirmed_round.num_success,
            min_oracle_results: a.min_oracle_results,
        }),
        Err(_) => None,
    }
}

/// A mantissa at `10^scale` precision rescaled to mark-price precision,
/// where it is defined.
pub open spec fn spec_convert_switchboard_decimal(mantissa: i128, scale: u32) -> Option<i128> {
    if scale > 38 {
        None
    } else {
        let precision = spec_pow10(scale as nat);
        if precision > MARK_PRICE_PRECISION {
            mantissa.checked_div((precision / (MARK_PRICE_PRECISION as nat)) as i128)
        } else {
            mantissa.checked_mul(((MARK_PRICE_PRECISION as nat) / precision) as i128)
        }
    }
}

/// Scale a decimal given as mantissa and number-of-decimals into
/// mark-price precision units.
pub fn convert_switchboard_decimal(mantissa: i128, scale: u32) -> (r: ClearingHouseResult<i128>)
    ensures
        r is Ok <==> spec_convert_switchboard_decimal(mantissa, scale) is Some,
        r is Ok ==> r->Ok_0 == spec_convert_switchboard_decimal(mantissa, scale)->Some_0,
        r is Err ==> r->Err_0 == ErrorCode::MathError,
{
    let switchboard_precision = pow10_u128(scale)?;
    proof {
        lemma_pow10_monotonic(scale as nat, 38nat);
        reveal_with_fuel(spec_pow10, 40);
        assert(spec_pow10(38nat) == 100_000_000_000_000_000_000_000_000_000_000_000_000);
    }
    if switchboard_precision > MARK_PRICE_PRECISION {
        let divisor = switchboard_precision / MARK_PRICE_PRECISION;
        match mantissa.checked_div(divisor as i128) {
            Some(q) => Ok(q),
            None => Err(ErrorCode::MathError),
        }
    } else {
        let mult = MARK_PRICE_PRECISION / switchboard_precision;
        match mantissa.checked_mul(mult as i128) {
            Some(p) => Ok(p),
            None => Err(ErrorCode::MathError),
        }
    }
}

/// The scale factors that bring a reading at `10^expo_abs` precision to
/// `target` precision: a multiplier when the feed is coarser, a divisor
/// when it is finer.
pub open spec fn spec_feed_scale(expo_abs: u32, target: u128) -> (u128, u128) {
    let precision = spec_pow10(expo_abs as nat);
    if precision > target {
        (1u128, (precision / (target as nat)) as u128)
    } else {
        (((target as nat) / precision) as u128, 1u128)
    }
}

/// An exponent-style reading rescaled to mark-price precision, where
/// every checked step is defined: the aggregate price and confidence in
/// mark-price units, the staleness delay against `clock_slot`, and the
/// sufficient-data flag (this feed always has it).
pub open spec fn spec_scale_pyth_price(rec: PythPriceRecord, clock_slot: u64) -> Option<
    OraclePriceData,
> {
    if abs_i32(rec.expo) > 38 {
        None
    } else {
        let scale = spec_feed_scale(abs_i32(rec.expo), MARK_PRICE_PRECISION);
        match (rec.agg_price as i128).checked_mul(scale.0 as i128) {
            None => None,
            Some(p1) => match p1.checked_div(scale.1 as i128) {
                None => None,
                Some(price) => match (rec.agg_conf as u128).checked_mul(scale.0) {
                    None => None,
                    Some(c1) => match c1.checked_div(scale.1) {
                        None => None,
                        Some(confidence) => if clock_slot > i64::MAX || rec.valid_slot > i64::MAX {
                            None
                        } else {
                            match (clock_slot as i64).checked_sub(rec.valid_slot as i64) {
                                None => None,
                                Some(delay) => Some(
                                    OraclePriceData {
                                        price,
                                        confidence,
                                        delay,
                                        has_sufficient_number_of_data_points: true,
                                    },
                                ),
                            }
                        },
                    },
                },
            },
        }
    }
}

/// Rescale an exponent-style reading into an `OraclePriceData` at
/// mark-price precision: price and confidence are rebased by the ratio
/// of the two precisions, the delay is `clock_slot` minus the slot the
/// aggregate was valid at.
pub fn scale_pyth_price(rec: &PythPriceRecord, clock_slot: u64) -> (r: ClearingHouseResult<
    OraclePriceData,
>)
    ensures
        r is Ok <==> spec_scale_pyth_price(*rec, clock_slot) is Some,
        r is Ok ==> r->Ok_0 == spec_scale_pyth_price(*rec, clock_slot)->Some_0,
        r is Ok ==> r->Ok_0.has_sufficient_number_of_data_points,
        r is Err ==> r->Err_0 == ErrorCode::MathError,
{
    let expo_abs: u32 = if rec.expo >= 0 {
        rec.expo as u32
    } else if rec.expo == i32::MIN {
        2147483648u32
    } else {
        (-rec.expo) as u32
    };
    let oracle_precision = pow10_u128(expo_abs)?;

    let mut oracle_scale_mult: u128 = 1;
    let mut oracle_scale_div: u128 = 1;
    if oracle_precision > MARK_PRICE_PRECISION {
        oracle_scale_div = oracle_precision / MARK_PRICE_PRECISION;
    } else {
        oracle_scale_mult = MARK_PRICE_PRECISION / oracle_precision;
    }

    let p1 = match (rec.agg_price as i128).checked_mul(oracle_scale_mult as i128) {
        Some(p) => p,
        None => {
            return Err(ErrorCode::MathError);
        },
    };
    let oracle_price_scaled = match p1.checked_div(oracle_scale_div as i128) {
        Some(p) => p,
        None => {
            return Err(ErrorCode::MathError);
        },
    };
    let c1 = match (rec.agg_conf as u128).checked_mul(oracle_scale_mult) {
        Some(c) => c,
        None => {
            return Err(ErrorCode::MathError);
        },
    };
    let oracle_conf_scaled = match c1.checked_div(oracle_scale_div) {
        Some(c) => c,
        None => {
            return Err(ErrorCode::MathError);
        },
    };
    if clock_slot > i64::MAX as u64 || rec.valid_slot > i64::MAX as u64 {
        return Err(ErrorCode::MathError);
    }
    let oracle_delay = match (clock_slot as i64).checked_sub(rec.valid_slot as i64) {
        Some(d) => d,
        None => {
            return Err(ErrorCode::MathError);
        },
    };

    Ok(
        OraclePriceData {
            price: oracle_price_scaled,
            confidence: oracle_conf_scaled,
            delay: oracle_delay,
            has_sufficient_number_of_data_points: true,
        },
    )
}

/// An exponent-style twap rescaled to mark-price precision, where every
/// checked step is defined.
pub open spec fn spec_scale_pyth_twap_to_mark(rec: PythPriceRecord) -> Option<i128> {
    if abs_i32(rec.expo) > 38 {
        None
    } else {
        let scale = spec_feed_scale(abs_i32(rec.expo), MARK_PRICE_PRECISION);
        match (rec.twap as i128).checked_mul(scale.0 as i128) {
            None => None,
            Some(t1) => t1.checked_div(scale.1 as i128),
        }
    }
}

/// Rescale an exponent-style time-weighted average price into
/// mark-price precision units.
pub fn scale_pyth_twap_to_mark(rec: &PythPriceRecord) -> (r: ClearingHouseResult<i128>)
    ensures
        r is Ok <==> spec_scale_pyth_twap_to_mark(*rec) is Some,
        r is Ok ==> r->Ok_0 == spec_scale_pyth_twap_to_mark(*rec)->Some_0,
        r is Err ==> r->Err_0 == ErrorCode::MathError,
{
    let expo_abs: u32 = if rec.expo >= 0 {
        rec.expo as u32
    } else if rec.expo == i32::MIN {
        2147483648u32
    } else {
        (-rec.expo) as u32
    };
    let oracle_precision = pow10_u128(expo_abs)?;

    let mut oracle_scale_mult: u128 = 1;
    let mut oracle_scale_div: u128 = 1;
    if oracle_precision > MARK_PRICE_PRECISION {
        oracle_scale_div = oracle_precision / MARK_PRICE_PRECISION;
    } else {
        oracle_scale_mult = MARK_PRICE_PRECISION / oracle_precision;
    }

    let t1 = match (rec.twap as i128).checked_mul(oracle_scale_mult as i128) {
        Some(t) => t,
        None => {
            return Err(ErrorCode::MathError);
        },
    };
    match t1.checked_div(oracle_scale_div as i128) {
        Some(t) => Ok(t),
        None => Err(ErrorCode::MathError),
    }
}

/// An exponent-style twap rescaled to price precision for the
/// perp-market side, where it is defined: the twap must exceed a tenth
/// of the aggregate price (else the reading is implausible), and the
/// rescaled value must fit an i64.
pub open spec fn spec_scale_pyth_twap_to_price(rec: PythPriceRecord) -> Result<i64, ErrorCode> {
    match rec.agg_price.checked_div(10) {
        None => Err(ErrorCode::MathError),
        Some(tenth) => {
            if !(rec.twap > tenth) {
                Err(ErrorCode::InvalidOracle)
            } else if abs_i32(rec.expo) > 38 {
                Err(ErrorCode::MathError)
            } else {
                let scale = spec_feed_scale(abs_i32(rec.expo), PRICE_PRECISION);
                match (rec.twap as i128).checked_mul(scale.0 as i128) {
                    None => Err(ErrorCode::MathError),
                    Some(t1) => match t1.checked_div(scale.1 as i128) {
                        None => Err(ErrorCode::MathError),
                        Some(t) => if t > i64::MAX || t < i64::MIN {
                            Err(ErrorCode::MathError)
                        } else {
                            Ok(t as i64)
                        },
                    },
                }
            }
        },
    }
}

/// Rescale an exponent-style time-weighted average price into price
/// precision units, rejecting a twap at or below a tenth of the
/// aggregate price as an implausible reading.
pub fn scale_pyth_twap_to_price(rec: &PythPriceRecord) -> (r: ClearingHouseResult<i64>)
    ensures
        r == spec_scale_pyth_twap_to_price(*rec),
{
    let tenth = match rec.agg_price.checked_div(10) {
        Some(t) => t,
        None => {
            return Err(ErrorCode::MathError);
        },
    };
    if !(rec.twap > tenth) {
        return Err(ErrorCode::InvalidOracle);
    }

    let expo_abs: u32 = if rec.expo >= 0 {
        rec.expo as u32
    } else if rec.expo == i32::MIN {
        2147483648u32
    } else {
        (-rec.expo) as u32
    };
    let oracle_precision = pow10_u128(expo_abs)?;

    let mut oracle_scale_mult: u128 = 1;
    let mut oracle_scale_div: u128 = 1;
    if oracle_precision > PRICE_PRECISION {
        oracle_scale_div = oracle_precision / PRICE_PRECISION;
    } else {
        oracle_scale_mult = PRICE_PRECISION / oracle_precision;
    }

    let t1 = match (rec.twap as i128).checked_mul(oracle_scale_mult as i128) {
        Some(t) => t,
        None => {
            return Err(ErrorCode::MathError);
        },
    };
    let t = match t1.checked_div(oracle_scale_div as i128) {
        Some(t) => t,
        None => {
            return Err(ErrorCode::MathError);
        },
    };
    if t > i64::MAX as i128 || t < i64::MIN as i128 {
        return Err(ErrorCode::MathError);
    }
    Ok(t as i64)
}

/// A mantissa-style round assembled into an `OraclePriceData`, where
/// every checked step is defined: a negative standard deviation is
/// flagged by a worst-case confidence, an implausibly small one is
/// floored at a thousandth of the price.
pub open spec fn spec_build_switchboard_price(round: SwitchboardRound, clock_slot: u64) -> Option<
    OraclePriceData,
> {
    match spec_convert_switchboard_decimal(round.result_mantissa, round.result_scale) {
        None => None,
        Some(price) => match spec_convert_switchboard_decimal(
            round.std_deviation_mantissa,
            round.std_deviation_scale,
        ) {
            None => None,
            Some(confidence) => {
                let confidence_u: u128 = if confidence < 0 {
                    u128::MAX
                } else {
                    let price_10bps = crate::math::abs_i128(price) / 1000;
                    if (confidence as u128) >= price_10bps {
                        confidence as u128
                    } else {
                        price_10bps
                    }
                };
                if clock_slot > i64::MAX || round.round_open_slot > i64::MAX {
                    None
                } else {
                    match (clock_slot as i64).checked_sub(round.round_open_slot as i64) {
                        None => None,
                        Some(delay) => Some(
                            OraclePriceData {
                                price,
                                confidence: confidence_u,
                                delay,
                                has_sufficient_number_of_data_points: round.num_success
                                    >= round.min_oracle_results,
                            },
                        ),
                    }
                }
            },
        },
    }
}

/// Assemble a mantissa-style round into an `OraclePriceData` at
/// mark-price precision. A negative standard deviation is mapped to the
/// worst possible confidence so the validity guard flags it; the
/// confidence is floored at a thousandth of the price.
pub fn build_switchboard_price(round: &SwitchboardRound, clock_slot: u64) -> (r:
    ClearingHouseResult<OraclePriceData>)
    ensures
        r is Ok <==> spec_build_switchboard_price(*round, clock_slot) is Some,
        r is Ok ==> r->Ok_0 == spec_build_switchboard_price(*round, clock_slot)->Some_0,
        r is Err ==> r->Err_0 == ErrorCode::MathError,
{
    let price = convert_switchboard_decimal(round.result_mantissa, round.result_scale)?;
    let confidence = convert_switchboard_decimal(
        round.std_deviation_mantissa,
        round.std_deviation_scale,
    )?;

    let confidence_u: u128 = if confidence < 0 {
        u128::MAX
    } else {
        let price_abs: u128 = if price >= 0 {
            price as u128
        } else if price == i128::MIN {
            0x8000_0000_0000_0000_0000_0000_0000_0000
        } else {
            (-price) as u128
        };
        let price_10bps = price_abs / 1000;
        if (confidence as u128) >= price_10bps {
            confidence as u128
        } else {
            price_10bps
        }
    };

    if clock_slot > i64::MAX as u64 || round.round_open_slot > i64::MAX as u64 {
        return Err(ErrorCode::MathError);
    }
    let delay = match (clock_slot as i64).checked_sub(round.round_open_slot as i64) {
        Some(d) => d,
        None => {
            return Err(ErrorCode::MathError);
        },
    };

    Ok(
        OraclePriceData {
            price,
            confidence: confidence_u,
            delay,
            has_sufficient_number_of_data_points: round.num_success >= round.min_oracle_results,
        },
    )
}

/// Decode an exponent-style price account and rescale it to mark-price
/// precision. Which record the bytes decode to is not promised (it
/// depends on the buffer's alignment); the rescaling itself is exact in
/// `scale_pyth_price`.
pub fn load_pyth_price(data: &[u8], clock_slot: u64) -> (r: ClearingHouseResult<OraclePriceData>)
    requires
        data@.len() >= PYTH_PRICE_ACCOUNT_LEN,
    ensures
        r is Ok ==> r->Ok_0.has_sufficient_number_of_data_points,
        r is Err ==> r->Err_0 == ErrorCode::MathError,
{
    let record = read_pyth_price_record(data);
    scale_pyth_price(&record, clock_slot)
}

/// Decode an exponent-style price account and rescale its twap to
/// mark-price precision.
pub fn load_pyth_twap_mark(data: &[u8]) -> (r: ClearingHouseResult<i128>)
    requires
        data@.len() >= PYTH_PRICE_ACCOUNT_LEN,
    ensures
        r is Err ==> r->Err_0 == ErrorCode::MathError,
{
    let record = read_pyth_price_record(data);
    scale_pyth_twap_to_mark(&record)
}

/// Decode an exponent-style price account and rescale its twap to
/// price precision.
pub fn load_pyth_twap_price(data: &[u8]) -> (r: ClearingHouseResult<i64>)
    requires
        data@.len() >= PYTH_PRICE_ACCOUNT_LEN,
    ensures
        r is Err ==> r->Err_0 == ErrorCode::MathError || r->Err_0 == ErrorCode::InvalidOracle,
{
    let record = read_pyth_price_record(data);
    scale_pyth_twap_to_price(&record)
}

/// What `load_switchboard_price` returns for given bytes: the round the
/// bytes decode to, assembled and rescaled, or the load error where the
/// discriminator does not match.
pub open spec fn spec_load_switchboard_price(data: Seq<u8>, clock_slot: u64) -> Result<
    OraclePriceData,
    ErrorCode,
> {
    match switchboard_aggregator_of(data) {
        None => Err(ErrorCode::UnableToLoadOracle),
        Some(f) => {
            let round = SwitchboardRound {
                result_mantissa: f.0,
                result_scale: f.1,
                std_deviation_mantissa: f.2,
                std_deviation_scale: f.3,
                round_open_slot: f.4,
                num_success: f.5,
                min_oracle_results: f.6,
            };
            match spec_build_switchboard_price(round, clock_slot) {
                None => Err(ErrorCode::MathError),
                Some(data) => Ok(data),
            }
        },
    }
}

/// Decode a mantissa-style aggregator account and assemble its latest
/// confirmed round into an `OraclePriceData` at mark-price precision.
pub fn load_switchboard_price(data: &[u8], clock_slot: u64) -> (r: ClearingHouseResult<
    OraclePriceData,
>)
    requires
        data@.len() >= SWITCHBOARD_AGGREGATOR_ACCOUNT_LEN,
    ensures
        r == spec_load_switchboard_price(data@, clock_slot),
{
    match read_switchboard_aggregator(data) {
        Some(round) => match build_switchboard_price(&round, clock_slot) {
            Ok(price_data) => Ok(price_data),
            Err(_) => Err(ErrorCode::MathError),
        },
        None => Err(ErrorCode::UnableToLoadOracle),
    }
}

} // verus!
