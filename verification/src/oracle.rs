//! Oracle data model and the oracle guard: validity of a reading,
//! oracle/mark divergence, and the single gate every oracle-consuming
//! path must check before trusting the oracle price.

use vstd::prelude::*;

use crate::constants::BID_ASK_SPREAD_PRECISION_I128;
use crate::error::{ClearingHouseResult, ErrorCode};
use crate::market::AMM;
use crate::math::abs_i128;

verus! {

/// Which kind of external price feed a market reads.
///
/// `Pyth` publishes an explicit decimal exponent; `Switchboard` publishes
/// an explicit mantissa plus scale; `QuoteAsset` is the pass-through kind
/// for assets pegged 1:1 to the settlement asset (no external oracle is
/// consulted).
#[derive(Clone, Copy, Debug, PartialEq, Eq, Structural)]
pub enum OracleSource {
    Pyth,
    Switchboard,
    QuoteAsset,
}

impl Default for OracleSource {
    fn default() -> (r: Self)
        ensures
            r == OracleSource::Pyth,
    {
        OracleSource::Pyth
    }
}

/// One oracle reading, scaled to mark-price precision. Produced fresh by
/// the oracle adapter each evaluation; read-only to the rest of the core.
#[derive(Clone, Copy, Debug, PartialEq, Eq, Structural)]
pub struct OraclePriceData {
    pub price: i128,
    pub confidence: u128,
    pub delay: i64,
    pub has_sufficient_number_of_data_points: bool,
}

impl Default for OraclePriceData {
    fn default() -> (r: Self)
        ensures
            r.price == 0,
            r.confidence == 0,
            r.delay == 0,
            r.has_sufficient_number_of_data_points == false,
    {
        OraclePriceData { price: 0, confidence: 0, delay: 0, has_sufficient_number_of_data_points: false }
    }
}

/// The most recent oracle readings a market keeps for reference.
#[derive(Clone, Copy, Debug, PartialEq, Eq, Structural)]
pub struct HistoricalOracleData {
    pub last_oracle_price: i64,
    pub last_oracle_conf: u64,
    pub last_oracle_delay: i64,
    pub last_oracle_price_twap: i64,
    pub last_oracle_price_twap_5min: i64,
    pub last_oracle_price_twap_ts: i64,
}

impl Default for HistoricalOracleData {
    fn default() -> (r: Self)
        ensures
            r == (HistoricalOracleData {
                last_oracle_price: 0,
                last_oracle_conf: 0,
                last_oracle_delay: 0,
                last_oracle_price_twap: 0,
                last_oracle_price_twap_5min: 0,
                last_oracle_price_twap_ts: 0,
            }),
    {
        HistoricalOracleData {
            last_oracle_price: 0,
            last_oracle_conf: 0,
            last_oracle_delay: 0,
            last_oracle_price_twap: 0,
            last_oracle_price_twap_5min: 0,
            last_oracle_price_twap_ts: 0,
        }
    }
}

/// Validity rules for a single oracle reading.
///
/// A reading is valid when its staleness delay is at most
/// `slots_before_stale`, its price is positive, it has sufficient data
/// points, and its price-to-confidence ratio is at least
/// `confidence_interval_max_size` (i.e. the confidence interval is a
/// small enough fraction of the price).
#[derive(Clone, Copy, Debug, PartialEq, Eq, Structural)]
pub struct ValidityGuardRails {
    pub slots_before_stale: i64,
    pub confidence_interval_max_size: u128,
}

/// Divergence rule: the largest tolerated |oracle - mark| / mark, in
/// bid/ask-spread precision units.
#[derive(Clone, Copy, Debug, PartialEq, Eq, Structural)]
pub struct PriceDivergenceGuardRails {
    pub mark_oracle_divergence: u128,
}

/// Process-wide oracle guard configuration, immutable per evaluation.
#[derive(Clone, Copy, Debug, PartialEq, Eq, Structural)]
pub struct OracleGuardRails {
    pub validity: ValidityGuardRails,
    pub price_divergence: PriceDivergenceGuardRails,
}

/// Whether `data` passes the validity rules.
pub open spec fn spec_is_oracle_valid(data: OraclePriceData, rails: ValidityGuardRails) -> bool {
    let conf_divisor: u128 = if data.confidence > 1 {
        data.confidence
    } else {
        1
    };
    &&& data.has_sufficient_number_of_data_points
    &&& data.delay <= rails.slots_before_stale
    &&& data.price > 0
    &&& (data.price as u128) / conf_divisor >= rails.confidence_interval_max_size
}

/// A reading is invalid when it is stale, lacks data points, is
/// non-positive, or its confidence interval is too wide relative to its
/// price.
pub fn is_oracle_valid(data: &OraclePriceData, rails: &ValidityGuardRails) -> (r: bool)
    ensures
        r == spec_is_oracle_valid(*data, *rails),
{
    if !data.has_sufficient_number_of_data_points {
        return false;
    }
    if data.delay > rails.slots_before_stale {
        return false;
    }
    if data.price <= 0 {
        return false;
    }
    let conf_divisor: u128 = if data.confidence > 1 {
        data.confidence
    } else {
        1
    };
    let conf_denom_of_price: u128 = (data.price as u128) / conf_divisor;
    conf_denom_of_price >= rails.confidence_interval_max_size
}

/// `(oracle_price - mark_price) / mark_price` in bid/ask-spread precision
/// units, or nothing where a checked step fails (mark of zero, or a value
/// out of signed range).
pub open spec fn spec_oracle_mark_spread_pct(oracle_price: i128, mark_price: u128) -> Option<
    i128,
> {
    if mark_price > i128::MAX {
        None
    } else {
        let mark: i128 = mark_price as i128;
        match oracle_price.checked_sub(mark) {
            None => None,
            Some(spread) => match spread.checked_mul(BID_ASK_SPREAD_PRECISION_I128) {
                None => None,
                Some(num) => num.checked_div(mark),
            },
        }
    }
}

/// The mark price used by the spread computation: the precomputed one
/// where the caller supplies it, else the curve's own.
pub open spec fn spec_resolved_mark_price(amm: AMM, precomputed_mark_price: Option<u128>) -> Option<
    u128,
> {
    match precomputed_mark_price {
        Some(mark) => Some(mark),
        None => amm.spec_mark_price(),
    }
}

/// Signed oracle-to-mark divergence in spread precision units; the mark
/// price is taken from the curve when not precomputed.
pub fn calculate_oracle_mark_spread_pct(
    amm: &AMM,
    oracle_price_data: &OraclePriceData,
    precomputed_mark_price: Option<u128>,
) -> (r: ClearingHouseResult<i128>)
    ensures
        r is Ok <==> (spec_resolved_mark_price(*amm, precomputed_mark_price) is Some
            && spec_oracle_mark_spread_pct(
            oracle_price_data.price,
            spec_resolved_mark_price(*amm, precomputed_mark_price)->Some_0,
        ) is Some),
        r is Ok ==> r->Ok_0 == spec_oracle_mark_spread_pct(
            oracle_price_data.price,
            spec_resolved_mark_price(*amm, precomputed_mark_price)->Some_0,
        )->Some_0,
        r is Err ==> r->Err_0 == ErrorCode::MathError,
{
    let mark_price_u128: u128 = match precomputed_mark_price {
        Some(mark_price) => mark_price,
        None => amm.mark_price()?,
    };
    if mark_price_u128 > i128::MAX as u128 {
        return Err(ErrorCode::MathError);
    }
    let mark_price: i128 = mark_price_u128 as i128;
    let price_spread = match oracle_price_data.price.checked_sub(mark_price) {
        Some(s) => s,
        None => {
            return Err(ErrorCode::MathError);
        },
    };
    let num = match price_spread.checked_mul(BID_ASK_SPREAD_PRECISION_I128) {
        Some(n) => n,
        None => {
            return Err(ErrorCode::MathError);
        },
    };
    match num.checked_div(mark_price) {
        Some(q) => Ok(q),
        None => Err(ErrorCode::MathError),
    }
}

/// |spread_pct| exceeds the configured maximum divergence.
pub open spec fn spec_is_mark_too_divergent(
    price_spread_pct: i128,
    rails: PriceDivergenceGuardRails,
) -> bool {
    abs_i128(price_spread_pct) > rails.mark_oracle_divergence
}

/// True when the oracle and the mark have drifted further apart than the
/// divergence rules tolerate.
pub fn is_oracle_mark_too_divergent(
    price_spread_pct: i128,
    rails: &PriceDivergenceGuardRails,
) -> (r: bool)
    ensures
        r == spec_is_mark_too_divergent(price_spread_pct, *rails),
{
    let magnitude: u128 = if price_spread_pct >= 0 {
        price_spread_pct as u128
    } else if price_spread_pct == i128::MIN {
        0x8000_0000_0000_0000_0000_0000_0000_0000
    } else {
        (-price_spread_pct) as u128
    };
    magnitude > rails.mark_oracle_divergence
}

/// The oracle guard's verdict for one evaluation.
#[derive(Clone, Copy, Debug, PartialEq, Eq, Structural)]
pub struct OracleStatus {
    pub price_data: OraclePriceData,
    pub oracle_mark_spread_pct: i128,
    pub is_valid: bool,
    pub mark_too_divergent: bool,
}

/// Evaluate the full oracle guard: validity of the reading, oracle/mark
/// divergence, and both verdicts, in one snapshot.
pub fn get_oracle_status(
    amm: &AMM,
    oracle_price_data: &OraclePriceData,
    guard_rails: &OracleGuardRails,
    precomputed_mark_price: Option<u128>,
) -> (r: ClearingHouseResult<OracleStatus>)
    ensures
        r is Ok <==> (spec_resolved_mark_price(*amm, precomputed_mark_price) is Some
            && spec_oracle_mark_spread_pct(
            oracle_price_data.price,
            spec_resolved_mark_price(*amm, precomputed_mark_price)->Some_0,
        ) is Some),
        r is Ok ==> {
            let status = r->Ok_0;
            &&& status.price_data == *oracle_price_data
            &&& status.oracle_mark_spread_pct == spec_oracle_mark_spread_pct(
                oracle_price_data.price,
                spec_resolved_mark_price(*amm, precomputed_mark_price)->Some_0,
            )->Some_0
            &&& status.is_valid == spec_is_oracle_valid(*oracle_price_data, guard_rails.validity)
            &&& status.mark_too_divergent == spec_is_mark_too_divergent(
                status.oracle_mark_spread_pct,
                guard_rails.price_divergence,
            )
        },
        r is Err ==> r->Err_0 == ErrorCode::MathError,
{
    let oracle_is_valid = is_oracle_valid(oracle_price_data, &guard_rails.validity);
    let oracle_mark_spread_pct = calculate_oracle_mark_spread_pct(
        amm,
        oracle_price_data,
        precomputed_mark_price,
    )?;
    let is_oracle_mark_too_divergent = is_oracle_mark_too_divergent(
        oracle_mark_spread_pct,
        &guard_rails.price_divergence,
    );

    Ok(
        OracleStatus {
            price_data: *oracle_price_data,
            oracle_mark_spread_pct,
            is_valid: oracle_is_valid,
            mark_too_divergent: is_oracle_mark_too_divergent,
        },
    )
}

/// The single safety gate for all oracle-dependent logic: block iff the
/// oracle reading is invalid or the oracle and mark have diverged too far.
pub fn block_operation(
    amm: &AMM,
    oracle_price_data: &OraclePriceData,
    guard_rails: &OracleGuardRails,
    precomputed_mark_price: Option<u128>,
) -> (r: ClearingHouseResult<bool>)
    ensures
        r is Ok <==> (spec_resolved_mark_price(*amm, precomputed_mark_price) is Some
            && spec_oracle_mark_spread_pct(
            oracle_price_data.price,
            spec_resolved_mark_price(*amm, precomputed_mark_price)->Some_0,
        ) is Some),
        r is Ok ==> r->Ok_0 == {
            let spread = spec_oracle_mark_spread_pct(
                oracle_price_data.price,
                spec_resolved_mark_price(*amm, precomputed_mark_price)->Some_0,
            )->Some_0;
            !spec_is_oracle_valid(*oracle_price_data, guard_rails.validity)
                || spec_is_mark_too_divergent(spread, guard_rails.price_divergence)
        },
        r is Err ==> r->Err_0 == ErrorCode::MathError,
{
    let status = get_oracle_status(amm, oracle_price_data, guard_rails, precomputed_mark_price)?;
    let block = !status.is_valid || status.mark_too_divergent;
    Ok(block)
}

} // verus!
