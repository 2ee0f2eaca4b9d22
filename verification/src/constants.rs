//! Fixed-point precision constants.
//!
//! The clearing-house side (mark price in 1e10 units, peg in 1e3 units)
//! and the perp-market side (price in 1e6 units, peg in 1e6 units,
//! reserves in 1e9 units) use different precisions; the constants of each
//! side are grouped below.

use vstd::prelude::*;

verus! {

// --- clearing-house precisions (u128 prices) ---

/// One unit of mark price.
pub const MARK_PRICE_PRECISION: u128 = 10_000_000_000;

/// One unit of mark price, signed.
pub const MARK_PRICE_PRECISION_I128: i128 = 10_000_000_000;

/// One unit of bid/ask spread.
pub const BID_ASK_SPREAD_PRECISION: u128 = 1_000_000;

/// One unit of bid/ask spread, signed.
pub const BID_ASK_SPREAD_PRECISION_I128: i128 = 1_000_000;

/// One unit of margin ratio (1x leverage).
pub const MARGIN_PRECISION: u128 = 10_000;

/// One unit of imf factor.
pub const BANK_IMF_PRECISION: u128 = 1_000_000;

/// One unit of asset weight.
pub const BANK_WEIGHT_PRECISION: u128 = 100;

/// Mark-price units per peg unit: the peg multiplier is in 1e3 units.
pub const PRICE_TO_PEG_PRECISION_RATIO: u128 = 10_000_000;

// --- perp-market precisions (u64 prices) ---

/// One unit of oracle/reserve price.
pub const PRICE_PRECISION: u128 = 1_000_000;

/// One unit of oracle price, signed 64-bit.
pub const PRICE_PRECISION_I64: i64 = 1_000_000;

/// One unit of peg multiplier.
pub const PEG_PRECISION: u128 = 1_000_000;

/// One unit of base-asset reserve.
pub const AMM_RESERVE_PRECISION: u128 = 1_000_000_000;

/// One unit of bid/ask spread.
pub const BID_ASK_SPREAD_PRECISION_U128: u128 = 1_000_000;

/// One unit of margin ratio.
pub const MARGIN_PRECISION_U128: u128 = 10_000;

/// One unit of spot asset weight.
pub const SPOT_WEIGHT_PRECISION: u32 = 10_000;

/// One unit of spot imf factor.
pub const SPOT_IMF_PRECISION: u128 = 1_000_000;

/// Base-asset reserve units per quote unit.
pub const AMM_TO_QUOTE_PRECISION_RATIO: u128 = 1_000;

/// Largest allowed concentration coefficient (sqrt(2) in 1e6 units).
pub const MAX_CONCENTRATION_COEFFICIENT: u128 = 1_414_200;

/// The rolling-volume window, in seconds.
pub const TWENTY_FOUR_HOUR: i64 = 86_400;

} // verus!
