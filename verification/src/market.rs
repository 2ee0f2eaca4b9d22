//! Clearing-house market state: the constant-product AMM curve with its
//! asymmetric bid/ask spread, and size-dependent margin and asset-weight
//! risk curves.

use vstd::arithmetic::div_mod::{lemma_div_by_multiple, lemma_div_is_ordered, lemma_div_is_ordered_by_denominator};
use vstd::prelude::*;

use crate::constants::{
    BANK_IMF_PRECISION, BANK_WEIGHT_PRECISION, BID_ASK_SPREAD_PRECISION, MARGIN_PRECISION,
    MARK_PRICE_PRECISION_I128, PRICE_TO_PEG_PRECISION_RATIO,
};
use crate::error::{ClearingHouseResult, ErrorCode};
use crate::ids::AccountKey;
use crate::margin::MarginRequirementType;
use crate::feeds::{
    load_pyth_price, load_pyth_twap_mark, load_switchboard_price, spec_load_switchboard_price,
    PYTH_PRICE_ACCOUNT_LEN, SWITCHBOARD_AGGREGATOR_ACCOUNT_LEN,
};
use crate::math::{abs_i128, isqrt_u128, lemma_isqrt_le, lemma_isqrt_monotonic, spec_isqrt, spec_max_u32, spec_min_u128};
use crate::oracle::{OraclePriceData, OracleSource};

verus! {

/// Whether a pool balance counts as a deposit or a borrow. A pool's
/// balance is permanently a deposit.
#[derive(Clone, Copy, Debug, PartialEq, Eq, Structural)]
pub enum BankBalanceType {
    Deposit,
    Borrow,
}

/// A fee or pnl pool owned by a market.
#[derive(Clone, Copy, Debug, PartialEq, Eq, Structural)]
pub struct PoolBalance {
    pub balance: u128,
}

impl PoolBalance {
    /// A pool balance is always of deposit type.
    pub fn balance_type(&self) -> (r: BankBalanceType)
        ensures
            r == BankBalanceType::Deposit,
    {
        BankBalanceType::Deposit
    }

    /// The current balance.
    pub fn balance(&self) -> (r: u128)
        ensures
            r == self.balance,
    {
        self.balance
    }

    /// Add `delta` to the balance; overflow is a fatal arithmetic error.
    pub fn increase_balance(&mut self, delta: u128) -> (r: ClearingHouseResult<()>)
        ensures
            r is Ok <==> old(self).balance + delta <= u128::MAX,
            r is Ok ==> final(self).balance == old(self).balance + delta,
            r is Err ==> *final(self) == *old(self) && r->Err_0 == ErrorCode::MathError,
    {
        match self.balance.checked_add(delta) {
            Some(b) => {
                self.balance = b;
                Ok(())
            },
            None => Err(ErrorCode::MathError),
        }
    }

    /// Subtract `delta` from the balance; underflow is a fatal
    /// arithmetic error.
    pub fn decrease_balance(&mut self, delta: u128) -> (r: ClearingHouseResult<()>)
        ensures
            r is Ok <==> delta <= old(self).balance,
            r is Ok ==> final(self).balance == old(self).balance - delta,
            r is Err ==> *final(self) == *old(self) && r->Err_0 == ErrorCode::MathError,
    {
        match self.balance.checked_sub(delta) {
            Some(b) => {
                self.balance = b;
                Ok(())
            },
            None => Err(ErrorCode::MathError),
        }
    }

    /// A pool balance's type is fixed: asking to change it is a
    /// caller-side defect.
    pub fn update_balance_type(&mut self, _balance_type: BankBalanceType) -> (r:
        ClearingHouseResult<()>)
        ensures
            r is Err && r->Err_0 == ErrorCode::CantUpdatePoolBalanceType,
            *final(self) == *old(self),
    {
        Err(ErrorCode::CantUpdatePoolBalanceType)
    }
}

impl Default for PoolBalance {
    fn default() -> (r: Self)
        ensures
            r == (PoolBalance { balance: 0 }),
    {
        PoolBalance { balance: 0 }
    }
}

/// The virtual constant-product curve and its market-making state.
#[derive(Clone, Copy, Debug, PartialEq, Eq, Structural)]
pub struct AMM {
    // oracle
    pub oracle: AccountKey,
    pub oracle_source: OracleSource,
    pub last_oracle_price: i128,
    pub last_oracle_conf_pct: u64,
    pub last_oracle_delay: i64,
    pub last_oracle_normalised_price: i128,
    pub last_oracle_price_twap: i128,
    pub last_oracle_price_twap_ts: i64,
    pub last_oracle_mark_spread_pct: i128,
    // reserves
    pub base_asset_reserve: u128,
    pub quote_asset_reserve: u128,
    pub sqrt_k: u128,
    pub peg_multiplier: u128,
    pub terminal_quote_asset_reserve: u128,
    pub net_base_asset_amount: i128,
    pub quote_asset_amount_long: u128,
    pub quote_asset_amount_short: u128,
    // funding
    pub last_funding_rate: i128,
    pub last_funding_rate_ts: i64,
    pub funding_period: i64,
    pub cumulative_funding_rate_long: i128,
    pub cumulative_funding_rate_short: i128,
    pub cumulative_funding_rate_lp: i128,
    pub cumulative_repeg_rebate_long: u128,
    pub cumulative_repeg_rebate_short: u128,
    pub mark_std: u64,
    pub last_mark_price_twap: u128,
    pub last_mark_price_twap_ts: i64,
    // trade constraints
    pub minimum_quote_asset_trade_size: u128,
    pub base_asset_amount_step_size: u128,
    // market making
    pub base_spread: u16,
    pub long_spread: u128,
    pub short_spread: u128,
    pub max_spread: u32,
    pub ask_base_asset_reserve: u128,
    pub ask_quote_asset_reserve: u128,
    pub bid_base_asset_reserve: u128,
    pub bid_quote_asset_reserve: u128,
    pub last_bid_price_twap: u128,
    pub last_ask_price_twap: u128,
    pub long_intensity_count: u16,
    pub long_intensity_volume: u64,
    pub short_intensity_count: u16,
    pub short_intensity_volume: u64,
    pub curve_update_intensity: u8,
    // fee tracking
    pub total_fee: u128,
    pub total_mm_fee: u128,
    pub total_exchange_fee: u128,
    pub total_fee_minus_distributions: i128,
    pub total_fee_withdrawn: u128,
    pub net_revenue_since_last_funding: i64,
    pub fee_pool: PoolBalance,
    pub last_update_slot: u64,
}

/// `quote_reserve * peg_multiplier`, rebased into mark-price units and
/// divided by `base_reserve`; nothing where a checked step fails (an
/// overflow, or a depleted base reserve).
pub open spec fn spec_calculate_price(
    quote_asset_reserve: u128,
    base_asset_reserve: u128,
    peg_multiplier: u128,
) -> Option<u128> {
    match quote_asset_reserve.checked_mul(peg_multiplier) {
        None => None,
        Some(peg_quote) => match peg_quote.checked_mul(PRICE_TO_PEG_PRECISION_RATIO) {
            None => None,
            Some(scaled) => scaled.checked_div(base_asset_reserve),
        },
    }
}

/// The synthetic price implied by the reserve curve:
/// `quote_reserve * peg_multiplier / base_reserve` in mark-price units.
/// Division by a depleted base reserve is a fatal market-state error.
pub fn calculate_price(
    quote_asset_reserve: u128,
    base_asset_reserve: u128,
    peg_multiplier: u128,
) -> (r: ClearingHouseResult<u128>)
    ensures
        r is Ok <==> spec_calculate_price(quote_asset_reserve, base_asset_reserve, peg_multiplier)
            is Some,
        r is Ok ==> r->Ok_0 == spec_calculate_price(
            quote_asset_reserve,
            base_asset_reserve,
            peg_multiplier,
        )->Some_0,
        r is Err ==> r->Err_0 == ErrorCode::MathError,
{
    let peg_quote = match quote_asset_reserve.checked_mul(peg_multiplier) {
        Some(p) => p,
        None => {
            return Err(ErrorCode::MathError);
        },
    };
    let scaled = match peg_quote.checked_mul(PRICE_TO_PEG_PRECISION_RATIO) {
        Some(s) => s,
        None => {
            return Err(ErrorCode::MathError);
        },
    };
    match scaled.checked_div(base_asset_reserve) {
        Some(price) => Ok(price),
        None => Err(ErrorCode::MathError),
    }
}

impl Default for AMM {
    fn default() -> (r: Self)
        ensures
            r == AMM::spec_default(),
    {
        AMM {
            oracle: AccountKey { hi: 0, lo: 0 },
            oracle_source: OracleSource::Pyth,
            last_oracle_price: 0,
            last_oracle_conf_pct: 0,
            last_oracle_delay: 0,
            last_oracle_normalised_price: 0,
            last_oracle_price_twap: 0,
            last_oracle_price_twap_ts: 0,
            last_oracle_mark_spread_pct: 0,
            base_asset_reserve: 0,
            quote_asset_reserve: 0,
            sqrt_k: 0,
            peg_multiplier: 0,
            terminal_quote_asset_reserve: 0,
            net_base_asset_amount: 0,
            quote_asset_amount_long: 0,
            quote_asset_amount_short: 0,
            last_funding_rate: 0,
            last_funding_rate_ts: 0,
            funding_period: 0,
            cumulative_funding_rate_long: 0,
            cumulative_funding_rate_short: 0,
            cumulative_funding_rate_lp: 0,
            cumulative_repeg_rebate_long: 0,
            cumulative_repeg_rebate_short: 0,
            mark_std: 0,
            last_mark_price_twap: 0,
            last_mark_price_twap_ts: 0,
            minimum_quote_asset_trade_size: 0,
            base_asset_amount_step_size: 0,
            base_spread: 0,
            long_spread: 0,
            short_spread: 0,
            max_spread: 0,
            ask_base_asset_reserve: 0,
            ask_quote_asset_reserve: 0,
            bid_base_asset_reserve: 0,
            bid_quote_asset_reserve: 0,
            last_bid_price_twap: 0,
            last_ask_price_twap: 0,
            long_intensity_count: 0,
            long_intensity_volume: 0,
            short_intensity_count: 0,
            short_intensity_volume: 0,
            curve_update_intensity: 0,
            total_fee: 0,
            total_mm_fee: 0,
            total_exchange_fee: 0,
            total_fee_minus_distributions: 0,
            total_fee_withdrawn: 0,
            net_revenue_since_last_funding: 0,
            fee_pool: PoolBalance { balance: 0 },
            last_update_slot: 0,
        }
    }
}

impl AMM {
    /// The all-zero curve (every counter cleared, source `Pyth`).
    pub open spec fn spec_default() -> AMM {
        AMM {
            oracle: AccountKey { hi: 0, lo: 0 },
            oracle_source: OracleSource::Pyth,
            last_oracle_price: 0,
            last_oracle_conf_pct: 0,
            last_oracle_delay: 0,
            last_oracle_normalised_price: 0,
            last_oracle_price_twap: 0,
            last_oracle_price_twap_ts: 0,
            last_oracle_mark_spread_pct: 0,
            base_asset_reserve: 0,
            quote_asset_reserve: 0,
            sqrt_k: 0,
            peg_multiplier: 0,
            terminal_quote_asset_reserve: 0,
            net_base_asset_amount: 0,
            quote_asset_amount_long: 0,
            quote_asset_amount_short: 0,
            last_funding_rate: 0,
            last_funding_rate_ts: 0,
            funding_period: 0,
            cumulative_funding_rate_long: 0,
            cumulative_funding_rate_short: 0,
            cumulative_funding_rate_lp: 0,
            cumulative_repeg_rebate_long: 0,
            cumulative_repeg_rebate_short: 0,
            mark_std: 0,
            last_mark_price_twap: 0,
            last_mark_price_twap_ts: 0,
            minimum_quote_asset_trade_size: 0,
            base_asset_amount_step_size: 0,
            base_spread: 0,
            long_spread: 0,
            short_spread: 0,
            max_spread: 0,
            ask_base_asset_reserve: 0,
            ask_quote_asset_reserve: 0,
            bid_base_asset_reserve: 0,
            bid_quote_asset_reserve: 0,
            last_bid_price_twap: 0,
            last_ask_price_twap: 0,
            long_intensity_count: 0,
            long_intensity_volume: 0,
            short_intensity_count: 0,
            short_intensity_volume: 0,
            curve_update_intensity: 0,
            total_fee: 0,
            total_mm_fee: 0,
            total_exchange_fee: 0,
            total_fee_minus_distributions: 0,
            total_fee_withdrawn: 0,
            net_revenue_since_last_funding: 0,
            fee_pool: PoolBalance { balance: 0 },
            last_update_slot: 0,
        }
    }

    /// The mark price of this curve, where it is defined.
    pub open spec fn spec_mark_price(self) -> Option<u128> {
        spec_calculate_price(self.quote_asset_reserve, self.base_asset_reserve, self.peg_multiplier)
    }

    /// The synthetic mark price implied by the current reserves and peg.
    pub fn mark_price(&self) -> (r: ClearingHouseResult<u128>)
        ensures
            r is Ok <==> self.spec_mark_price() is Some,
            r is Ok ==> r->Ok_0 == self.spec_mark_price()->Some_0,
            r is Err ==> r->Err_0 == ErrorCode::MathError,
    {
        calculate_price(self.quote_asset_reserve, self.base_asset_reserve, self.peg_multiplier)
    }

    /// Mark price scaled down by the short spread:
    /// `mark * (1 - short_spread)` in spread-precision units. Never above
    /// the mark price.
    pub fn bid_price(&self, mark_price: u128) -> (r: ClearingHouseResult<u128>)
        ensures
            r is Ok <==> (self.short_spread <= BID_ASK_SPREAD_PRECISION && mark_price * (
            BID_ASK_SPREAD_PRECISION - self.short_spread) <= u128::MAX),
            r is Ok ==> r->Ok_0 == mark_price * (BID_ASK_SPREAD_PRECISION - self.short_spread)
                / (BID_ASK_SPREAD_PRECISION as int),
            r is Ok ==> r->Ok_0 <= mark_price,
            r is Err ==> r->Err_0 == ErrorCode::MathError,
    {
        let factor = match BID_ASK_SPREAD_PRECISION.checked_sub(self.short_spread) {
            Some(f) => f,
            None => {
                return Err(ErrorCode::MathError);
            },
        };
        let num = match mark_price.checked_mul(factor) {
            Some(n) => n,
            None => {
                return Err(ErrorCode::MathError);
            },
        };
        let bid = num / BID_ASK_SPREAD_PRECISION;
        proof {
            assert(mark_price * factor <= mark_price * BID_ASK_SPREAD_PRECISION)
                by (nonlinear_arith)
                requires
                    factor <= BID_ASK_SPREAD_PRECISION,
                    mark_price >= 0,
            ;
            lemma_div_is_ordered(
                mark_price * factor,
                mark_price * (BID_ASK_SPREAD_PRECISION as int),
                BID_ASK_SPREAD_PRECISION as int,
            );
            lemma_div_by_multiple(mark_price as int, BID_ASK_SPREAD_PRECISION as int);
        }
        Ok(bid)
    }

    /// Mark price scaled up by the long spread:
    /// `mark * (1 + long_spread)` in spread-precision units. Never below
    /// the mark price.
    pub fn ask_price(&self, mark_price: u128) -> (r: ClearingHouseResult<u128>)
        ensures
            r is Ok <==> (BID_ASK_SPREAD_PRECISION + self.long_spread <= u128::MAX && mark_price * (
            BID_ASK_SPREAD_PRECISION + self.long_spread) <= u128::MAX),
            r is Ok ==> r->Ok_0 == mark_price * (BID_ASK_SPREAD_PRECISION + self.long_spread)
                / (BID_ASK_SPREAD_PRECISION as int),
            r is Ok ==> r->Ok_0 >= mark_price,
            r is Err ==> r->Err_0 == ErrorCode::MathError,
    {
        let factor = match BID_ASK_SPREAD_PRECISION.checked_add(self.long_spread) {
            Some(f) => f,
            None => {
                return Err(ErrorCode::MathError);
            },
        };
        let num = match mark_price.checked_mul(factor) {
            Some(n) => n,
            None => {
                return Err(ErrorCode::MathError);
            },
        };
        let ask = num / BID_ASK_SPREAD_PRECISION;
        proof {
            assert(mark_price * (BID_ASK_SPREAD_PRECISION as int) <= mark_price * factor)
                by (nonlinear_arith)
                requires
                    factor >= BID_ASK_SPREAD_PRECISION,
                    mark_price >= 0,
            ;
            lemma_div_is_ordered(
                mark_price * (BID_ASK_SPREAD_PRECISION as int),
                mark_price * factor,
                BID_ASK_SPREAD_PRECISION as int,
            );
            lemma_div_by_multiple(mark_price as int, BID_ASK_SPREAD_PRECISION as int);
        }
        Ok(ask)
    }

    /// Bid and ask in one call; when both are defined the pair brackets
    /// the mark price: `bid <= mark <= ask`.
    pub fn bid_ask_price(&self, mark_price: u128) -> (r: ClearingHouseResult<(u128, u128)>)
        ensures
            r is Ok <==> (self.short_spread <= BID_ASK_SPREAD_PRECISION && mark_price * (
            BID_ASK_SPREAD_PRECISION - self.short_spread) <= u128::MAX && BID_ASK_SPREAD_PRECISION
                + self.long_spread <= u128::MAX && mark_price * (BID_ASK_SPREAD_PRECISION
                + self.long_spread) <= u128::MAX),
            r is Ok ==> r->Ok_0.0 == mark_price * (BID_ASK_SPREAD_PRECISION - self.short_spread)
                / (BID_ASK_SPREAD_PRECISION as int),
            r is Ok ==> r->Ok_0.1 == mark_price * (BID_ASK_SPREAD_PRECISION + self.long_spread)
                / (BID_ASK_SPREAD_PRECISION as int),
            r is Ok ==> r->Ok_0.0 <= mark_price <= r->Ok_0.1,
            r is Err ==> r->Err_0 == ErrorCode::MathError,
    {
        let bid_price = self.bid_price(mark_price)?;
        let ask_price = self.ask_price(mark_price)?;
        Ok((bid_price, ask_price))
    }

    /// The spread band grows monotonically with the spread
    /// configuration: against the same mark price, a curve with wider
    /// configured long and short spreads never shows a narrower
    /// bid/ask band. Prices here are the exact quotients the bid and
    /// ask computations return.
    pub proof fn lemma_spread_width_monotonic(self, other: AMM, mark_price: u128)
        requires
            self.long_spread <= other.long_spread,
            self.short_spread <= other.short_spread,
            other.short_spread <= BID_ASK_SPREAD_PRECISION,
        ensures
            mark_price * (BID_ASK_SPREAD_PRECISION + self.long_spread) / (
            BID_ASK_SPREAD_PRECISION as int) - mark_price * (BID_ASK_SPREAD_PRECISION
                - self.short_spread) / (BID_ASK_SPREAD_PRECISION as int) <= mark_price * (
            BID_ASK_SPREAD_PRECISION + other.long_spread) / (BID_ASK_SPREAD_PRECISION as int)
                - mark_price * (BID_ASK_SPREAD_PRECISION - other.short_spread) / (
            BID_ASK_SPREAD_PRECISION as int),
    {
        let p = BID_ASK_SPREAD_PRECISION as int;
        let mark = mark_price as int;
        assert(mark * (p + self.long_spread) <= mark * (p + other.long_spread))
            by (nonlinear_arith)
            requires
                mark >= 0,
                self.long_spread <= other.long_spread,
        ;
        lemma_div_is_ordered(mark * (p + self.long_spread), mark * (p + other.long_spread), p);
        assert(mark * (p - other.short_spread) <= mark * (p - self.short_spread))
            by (nonlinear_arith)
            requires
                mark >= 0,
                self.short_spread <= other.short_spread,
        ;
        lemma_div_is_ordered(mark * (p - other.short_spread), mark * (p - self.short_spread), p);
    }

    /// Read the market's oracle account bytes through the adapter for
    /// its configured source kind. An unrecognized source is a fatal
    /// configuration error, never a silent fallback.
    pub fn get_oracle_price(&self, data: &[u8], clock_slot: u64) -> (r: ClearingHouseResult<
        OraclePriceData,
    >)
        requires
            self.oracle_source == OracleSource::Pyth ==> data@.len() >= PYTH_PRICE_ACCOUNT_LEN,
            self.oracle_source == OracleSource::Switchboard ==> data@.len()
                >= SWITCHBOARD_AGGREGATOR_ACCOUNT_LEN,
        ensures
            self.oracle_source == OracleSource::Switchboard ==> r == spec_load_switchboard_price(
                data@,
                clock_slot,
            ),
            self.oracle_source == OracleSource::QuoteAsset ==> r is Err && r->Err_0
                == ErrorCode::UnsupportedOracleSource,
            self.oracle_source == OracleSource::Pyth && r is Ok
                ==> r->Ok_0.has_sufficient_number_of_data_points,
            self.oracle_source == OracleSource::Pyth && r is Err ==> r->Err_0
                == ErrorCode::MathError,
    {
        match self.oracle_source {
            OracleSource::Pyth => self.get_pyth_price(data, clock_slot),
            OracleSource::Switchboard => self.get_switchboard_price(data, clock_slot),
            OracleSource::QuoteAsset => Err(ErrorCode::UnsupportedOracleSource),
        }
    }

    /// Decode and rescale an exponent-style oracle account.
    pub fn get_pyth_price(&self, data: &[u8], clock_slot: u64) -> (r: ClearingHouseResult<
        OraclePriceData,
    >)
        requires
            data@.len() >= PYTH_PRICE_ACCOUNT_LEN,
        ensures
            r is Ok ==> r->Ok_0.has_sufficient_number_of_data_points,
            r is Err ==> r->Err_0 == ErrorCode::MathError,
    {
        load_pyth_price(data, clock_slot)
    }

    /// Decode and rescale a mantissa-style oracle account.
    pub fn get_switchboard_price(&self, data: &[u8], clock_slot: u64) -> (r: ClearingHouseResult<
        OraclePriceData,
    >)
        requires
            data@.len() >= SWITCHBOARD_AGGREGATOR_ACCOUNT_LEN,
        ensures
            r == spec_load_switchboard_price(data@, clock_slot),
    {
        load_switchboard_price(data, clock_slot)
    }

    /// The oracle's time-weighted average price, where the source
    /// publishes one: the exponent-style feed does, the mantissa-style
    /// feed does not, and the pass-through kind is a configuration
    /// error.
    pub fn get_oracle_twap(&self, data: &[u8]) -> (r: ClearingHouseResult<Option<i128>>)
        requires
            self.oracle_source == OracleSource::Pyth ==> data@.len() >= PYTH_PRICE_ACCOUNT_LEN,
        ensures
            self.oracle_source == OracleSource::Switchboard ==> r is Ok && r->Ok_0 is None,
            self.oracle_source == OracleSource::QuoteAsset ==> r is Err && r->Err_0
                == ErrorCode::UnsupportedOracleSource,
            self.oracle_source == OracleSource::Pyth && r is Ok ==> r->Ok_0 is Some,
            self.oracle_source == OracleSource::Pyth && r is Err ==> r->Err_0
                == ErrorCode::MathError,
    {
        match self.oracle_source {
            OracleSource::Pyth => Ok(Some(self.get_pyth_twap(data)?)),
            OracleSource::Switchboard => Ok(None),
            OracleSource::QuoteAsset => Err(ErrorCode::UnsupportedOracleSource),
        }
    }

    /// Decode an exponent-style oracle account and rescale its twap to
    /// mark-price precision.
    pub fn get_pyth_twap(&self, data: &[u8]) -> (r: ClearingHouseResult<i128>)
        requires
            data@.len() >= PYTH_PRICE_ACCOUNT_LEN,
        ensures
            r is Err ==> r->Err_0 == ErrorCode::MathError,
    {
        load_pyth_twap_mark(data)
    }

    /// Whether the curve may shrink `k` without starving one side:
    /// true when `|net_directional_exposure| < sqrt_k / 4`.
    pub fn can_lower_k(&self) -> (r: ClearingHouseResult<bool>)
        ensures
            r is Ok,
            r->Ok_0 == (abs_i128(self.net_base_asset_amount) < self.sqrt_k / 4),
    {
        let magnitude: u128 = if self.net_base_asset_amount >= 0 {
            self.net_base_asset_amount as u128
        } else if self.net_base_asset_amount == i128::MIN {
            0x8000_0000_0000_0000_0000_0000_0000_0000
        } else {
            (-self.net_base_asset_amount) as u128
        };
        let can_lower = magnitude < self.sqrt_k / 4;
        Ok(can_lower)
    }
}

/// A perpetual market: the curve plus its risk configuration and
/// open-interest counters.
#[derive(Clone, Copy, Debug, PartialEq, Eq, Structural)]
pub struct Market {
    pub market_index: u64,
    pub pubkey: AccountKey,
    pub initialized: bool,
    pub amm: AMM,
    pub base_asset_amount_long: i128,
    pub base_asset_amount_short: i128,
    /// number of users in a position
    pub open_interest: u128,
    pub margin_ratio_initial: u32,
    pub margin_ratio_partial: u32,
    pub margin_ratio_maintenance: u32,
    pub next_fill_record_id: u64,
    pub next_funding_rate_record_id: u64,
    pub next_curve_record_id: u64,
    pub pnl_pool: PoolBalance,
    pub unsettled_profit: u128,
    pub unsettled_loss: u128,
    pub imf_factor: u128,
    pub unsettled_initial_asset_weight: u8,
    pub unsettled_maintenance_asset_weight: u8,
}

impl Default for Market {
    fn default() -> (r: Self)
        ensures
            r == Market::spec_default(),
    {
        Market {
            market_index: 0,
            pubkey: AccountKey { hi: 0, lo: 0 },
            initialized: false,
            amm: AMM::default(),
            base_asset_amount_long: 0,
            base_asset_amount_short: 0,
            open_interest: 0,
            margin_ratio_initial: 0,
            margin_ratio_partial: 0,
            margin_ratio_maintenance: 0,
            next_fill_record_id: 0,
            next_funding_rate_record_id: 0,
            next_curve_record_id: 0,
            pnl_pool: PoolBalance { balance: 0 },
            unsettled_profit: 0,
            unsettled_loss: 0,
            imf_factor: 0,
            unsettled_initial_asset_weight: 0,
            unsettled_maintenance_asset_weight: 0,
        }
    }
}

impl Market {
    /// The all-zero market.
    pub open spec fn spec_default() -> Market {
        Market {
            market_index: 0,
            pubkey: AccountKey { hi: 0, lo: 0 },
            initialized: false,
            amm: AMM::spec_default(),
            base_asset_amount_long: 0,
            base_asset_amount_short: 0,
            open_interest: 0,
            margin_ratio_initial: 0,
            margin_ratio_partial: 0,
            margin_ratio_maintenance: 0,
            next_fill_record_id: 0,
            next_funding_rate_record_id: 0,
            next_curve_record_id: 0,
            pnl_pool: PoolBalance { balance: 0 },
            unsettled_profit: 0,
            unsettled_loss: 0,
            imf_factor: 0,
            unsettled_initial_asset_weight: 0,
            unsettled_maintenance_asset_weight: 0,
        }
    }

    /// The size-adjusted margin ratio, where it is defined: exactly the
    /// base ratio for the requested margin type when the imf factor is
    /// zero; otherwise a reduced floor of the base plus a
    /// `sqrt(size)`-proportional surplus, clamped into
    /// `[base, margin_ratio_max]`, and the larger of that and the base.
    pub open spec fn spec_margin_ratio(self, size: u128, margin_type: MarginRequirementType) -> Option<
        u32,
    > {
        let margin_ratio = match margin_type {
            MarginRequirementType::Initial => self.margin_ratio_initial,
            MarginRequirementType::Partial => self.margin_ratio_partial,
            MarginRequirementType::Maintenance => self.margin_ratio_maintenance,
        };
        let margin_ratio_max: u128 = match margin_type {
            MarginRequirementType::Initial => MARGIN_PRECISION,
            MarginRequirementType::Partial => MARGIN_PRECISION,
            MarginRequirementType::Maintenance => (MARGIN_PRECISION + MARGIN_PRECISION / 10) as u128,
        };
        let base: u128 = margin_ratio as u128;
        if self.imf_factor == 0 {
            Some(margin_ratio)
        } else {
            let divisor = BANK_IMF_PRECISION / self.imf_factor;
            if divisor == 0 {
                None
            } else {
                let reduced_floor: u128 = (base - base / divisor) as u128;
                let size_sqrt: u128 = spec_isqrt((size / 1000 + 1) as nat) as u128;
                match size_sqrt.checked_mul(self.imf_factor) {
                    None => None,
                    Some(prod) => {
                        let size_surplus: u128 = (reduced_floor + prod / 10_000_000) as u128;
                        let raised: u128 = if size_surplus >= base {
                            size_surplus
                        } else {
                            base
                        };
                        let adjusted: u128 = spec_min_u128(raised, margin_ratio_max);
                        Some(spec_max_u32(margin_ratio, adjusted as u32))
                    },
                }
            }
        }
    }

    /// The margin ratio demanded for a position of `size`, in margin
    /// precision units. With a zero imf factor it is exactly the
    /// configured base ratio; with a positive one the size-adjusted
    /// requirement is clamped into `[base, margin_ratio_max]`, so the
    /// result never drops below the base and never exceeds the larger of
    /// the base and the leverage ceiling. Non-decreasing in `size`.
    pub fn get_margin_ratio(&self, size: u128, margin_type: MarginRequirementType) -> (r:
        ClearingHouseResult<u32>)
        ensures
            r is Ok <==> self.spec_margin_ratio(size, margin_type) is Some,
            r is Ok ==> r->Ok_0 == self.spec_margin_ratio(size, margin_type)->Some_0,
            r is Err ==> r->Err_0 == ErrorCode::MathError,
            self.imf_factor == 0 ==> r is Ok && r->Ok_0 == (match margin_type {
                MarginRequirementType::Initial => self.margin_ratio_initial,
                MarginRequirementType::Partial => self.margin_ratio_partial,
                MarginRequirementType::Maintenance => self.margin_ratio_maintenance,
            }),
            r is Ok ==> r->Ok_0 >= (match margin_type {
                MarginRequirementType::Initial => self.margin_ratio_initial,
                MarginRequirementType::Partial => self.margin_ratio_partial,
                MarginRequirementType::Maintenance => self.margin_ratio_maintenance,
            }),
            r is Ok ==> r->Ok_0 <= spec_max_u32(
                match margin_type {
                    MarginRequirementType::Initial => self.margin_ratio_initial,
                    MarginRequirementType::Partial => self.margin_ratio_partial,
                    MarginRequirementType::Maintenance => self.margin_ratio_maintenance,
                },
                (match margin_type {
                    MarginRequirementType::Initial => MARGIN_PRECISION,
                    MarginRequirementType::Partial => MARGIN_PRECISION,
                    MarginRequirementType::Maintenance => (MARGIN_PRECISION + MARGIN_PRECISION
                        / 10) as u128,
                }) as u32,
            ),
    {
        let margin_ratio = match margin_type {
            MarginRequirementType::Initial => self.margin_ratio_initial,
            MarginRequirementType::Partial => self.margin_ratio_partial,
            MarginRequirementType::Maintenance => self.margin_ratio_maintenance,
        };

        if self.imf_factor == 0 {
            return Ok(margin_ratio);
        }

        let margin_ratio_max: u128 = match margin_type {
            MarginRequirementType::Initial => MARGIN_PRECISION,
            MarginRequirementType::Partial => MARGIN_PRECISION,
            MarginRequirementType::Maintenance => MARGIN_PRECISION + MARGIN_PRECISION / 10,
        };
        let base: u128 = margin_ratio as u128;

        let size_sqrt = isqrt_u128(size / 1000 + 1);

        let divisor = BANK_IMF_PRECISION / self.imf_factor;
        if divisor == 0 {
            return Err(ErrorCode::MathError);
        }
        proof {
            lemma_div_is_ordered_by_denominator(base as int, 1, divisor as int);
        }
        let reduced_floor = base - base / divisor;

        let prod = match size_sqrt.checked_mul(self.imf_factor) {
            Some(p) => p,
            None => {
                return Err(ErrorCode::MathError);
            },
        };
        let surplus = prod / 10_000_000;
        proof {
            lemma_div_is_ordered(prod as int, u128::MAX as int, 10_000_000);
        }
        let size_surplus = reduced_floor + surplus;

        let raised = if size_surplus >= base {
            size_surplus
        } else {
            base
        };
        let adjusted = if raised <= margin_ratio_max {
            raised
        } else {
            margin_ratio_max
        };

        assert(adjusted <= u32::MAX);
        let adjusted_u32 = adjusted as u32;
        Ok(
            if margin_ratio >= adjusted_u32 {
                margin_ratio
            } else {
                adjusted_u32
            },
        )
    }

    /// The margin ratio is non-decreasing in position size: for the
    /// same market and margin type, a larger position is never asked
    /// for a smaller margin ratio.
    pub proof fn lemma_margin_ratio_monotonic_in_size(
        self,
        size1: u128,
        size2: u128,
        margin_type: MarginRequirementType,
    )
        requires
            size1 <= size2,
            self.spec_margin_ratio(size1, margin_type) is Some,
            self.spec_margin_ratio(size2, margin_type) is Some,
        ensures
            self.spec_margin_ratio(size1, margin_type)->Some_0 <= self.spec_margin_ratio(
                size2,
                margin_type,
            )->Some_0,
    {
        if self.imf_factor > 0 {
            let n1 = (size1 / 1000 + 1) as nat;
            let n2 = (size2 / 1000 + 1) as nat;
            lemma_div_is_ordered(size1 as int, size2 as int, 1000);
            lemma_isqrt_monotonic(n1, n2);
            lemma_isqrt_le(n1);
            lemma_isqrt_le(n2);
            let s1 = spec_isqrt(n1) as u128;
            let s2 = spec_isqrt(n2) as u128;
            assert(s1 * self.imf_factor <= s2 * self.imf_factor) by (nonlinear_arith)
                requires
                    s1 <= s2,
                    self.imf_factor >= 0,
            ;
            let p1 = (s1 * self.imf_factor) as u128;
            let p2 = (s2 * self.imf_factor) as u128;
            lemma_div_is_ordered(p1 as int, p2 as int, 10_000_000);
        }
    }

    /// The asset weight applied to unsettled pnl, where it is defined:
    /// the full unit weight for non-positive pnl; for positive pnl under
    /// the initial margin type, the configured initial weight discounted
    /// by a `sqrt(size)`-proportional factor; for positive pnl otherwise,
    /// the configured maintenance weight; always capped at one unit.
    pub open spec fn spec_unsettled_asset_weight(
        self,
        unsettled_pnl: i128,
        margin_type: MarginRequirementType,
    ) -> Option<u128> {
        if unsettled_pnl <= 0 {
            Some(BANK_WEIGHT_PRECISION)
        } else if margin_type == MarginRequirementType::Initial {
            match unsettled_pnl.checked_mul(MARK_PRICE_PRECISION_I128) {
                None => None,
                Some(scaled) => {
                    let divisor: i128 = if self.amm.last_oracle_price >= MARK_PRICE_PRECISION_I128 {
                        self.amm.last_oracle_price
                    } else {
                        MARK_PRICE_PRECISION_I128
                    };
                    match scaled.checked_div(divisor) {
                        None => None,
                        Some(q) => {
                            let size: u128 = abs_i128(q);
                            let size_sqrt: u128 = spec_isqrt((size + 1) as nat) as u128;
                            match size_sqrt.checked_mul(self.imf_factor) {
                                None => None,
                                Some(p) => {
                                    let denom: u128 = (BANK_IMF_PRECISION + p / 1000) as u128;
                                    let discounted: u128 = 110_000_000u128 / denom;
                                    let weight: u128 = spec_min_u128(
                                        self.unsettled_initial_asset_weight as u128,
                                        discounted,
                                    );
                                    Some(spec_min_u128(BANK_WEIGHT_PRECISION, weight))
                                },
                            }
                        },
                    }
                },
            }
        } else {
            Some(
                spec_min_u128(
                    BANK_WEIGHT_PRECISION,
                    self.unsettled_maintenance_asset_weight as u128,
                ),
            )
        }
    }

    /// The asset weight for a position's unsettled pnl in the margin
    /// system, in bank-weight precision units. Liabilities are never
    /// discounted: non-positive pnl always carries the full unit weight.
    pub fn get_unsettled_asset_weight(
        &self,
        unsettled_pnl: i128,
        margin_type: MarginRequirementType,
    ) -> (r: ClearingHouseResult<u128>)
        ensures
            r is Ok <==> self.spec_unsettled_asset_weight(unsettled_pnl, margin_type) is Some,
            r is Ok ==> r->Ok_0 == self.spec_unsettled_asset_weight(
                unsettled_pnl,
                margin_type,
            )->Some_0,
            r is Ok ==> r->Ok_0 <= BANK_WEIGHT_PRECISION,
            r is Err ==> r->Err_0 == ErrorCode::MathError,
            unsettled_pnl <= 0 ==> r is Ok && r->Ok_0 == BANK_WEIGHT_PRECISION,
    {
        if unsettled_pnl <= 0 {
            return Ok(BANK_WEIGHT_PRECISION);
        }
        let asset_weight: u128 = if margin_type == MarginRequirementType::Initial {
            let scaled = match unsettled_pnl.checked_mul(MARK_PRICE_PRECISION_I128) {
                Some(s) => s,
                None => {
                    return Err(ErrorCode::MathError);
                },
            };
            let divisor: i128 = if self.amm.last_oracle_price >= MARK_PRICE_PRECISION_I128 {
                self.amm.last_oracle_price
            } else {
                MARK_PRICE_PRECISION_I128
            };
            let q = match scaled.checked_div(divisor) {
                Some(q) => q,
                None => {
                    return Err(ErrorCode::MathError);
                },
            };
            proof {
                assert(scaled as int == unsettled_pnl * MARK_PRICE_PRECISION_I128);
                assert(scaled > 0) by (nonlinear_arith)
                    requires
                        scaled as int == unsettled_pnl * MARK_PRICE_PRECISION_I128,
                        unsettled_pnl >= 1,
                ;
                assert(q as int == scaled as int / divisor as int);
                vstd::arithmetic::div_mod::lemma_div_pos_is_pos(scaled as int, divisor as int);
            }
            let size: u128 = q as u128;
            let size_sqrt = isqrt_u128(size + 1);
            let p = match size_sqrt.checked_mul(self.imf_factor) {
                Some(p) => p,
                None => {
                    return Err(ErrorCode::MathError);
                },
            };
            proof {
                lemma_div_is_ordered(p as int, u128::MAX as int, 1000);
            }
            let denom: u128 = BANK_IMF_PRECISION + p / 1000;
            let discounted: u128 = 110_000_000u128 / denom;
            if (self.unsettled_initial_asset_weight as u128) <= discounted {
                self.unsettled_initial_asset_weight as u128
            } else {
                discounted
            }
        } else {
            self.unsettled_maintenance_asset_weight as u128
        };

        if BANK_WEIGHT_PRECISION <= asset_weight {
            Ok(BANK_WEIGHT_PRECISION)
        } else {
            Ok(asset_weight)
        }
    }
}

} // verus!
