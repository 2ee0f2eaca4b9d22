//! Perp-market state: lifecycle status, contract classification, the
//! second-generation AMM curve (u64 prices), and the size-dependent risk
//! weights read from it.

use vstd::arithmetic::div_mod::{lemma_div_by_multiple, lemma_div_is_ordered};
use vstd::prelude::*;

use crate::constants::{
    AMM_RESERVE_PRECISION, AMM_TO_QUOTE_PRECISION_RATIO, BID_ASK_SPREAD_PRECISION_U128,
    MARGIN_PRECISION_U128, MAX_CONCENTRATION_COEFFICIENT, PEG_PRECISION,
    PRICE_PRECISION, PRICE_PRECISION_I64, SPOT_WEIGHT_PRECISION, TWENTY_FOUR_HOUR,
};
use crate::error::{ClearingHouseResult, DriftResult, ErrorCode};
use crate::feeds::{load_pyth_twap_price, PYTH_PRICE_ACCOUNT_LEN};
use crate::ids::AccountKey;
use crate::math::{abs_i128, calculate_rolling_sum, spec_rolling_sum};
use crate::oracle::{HistoricalOracleData, OracleSource};
use crate::perp_margin::{
    calculate_size_discount_asset_weight, calculate_size_premium_liability_weight,
    spec_size_discount_asset_weight, spec_size_premium_liability_weight, MarginRequirementType,
};
use crate::position::PositionDirection;

verus! {

/// Lifecycle status of a market. `Settlement` and `Delisted` are
/// terminal; a market is never deleted.
#[derive(Clone, Copy, Debug, PartialEq, Eq, Structural)]
pub enum MarketStatus {
    /// warm-up period after initialization; fills are paused
    Initialized,
    /// all operations allowed
    Active,
    /// funding-rate updates are paused
    FundingPaused,
    /// amm fills are blocked
    AmmPaused,
    /// all fills are blocked
    FillPaused,
    /// settling positive pnl / withdrawing is paused
    WithdrawPaused,
    /// fills may only reduce liability
    ReduceOnly,
    /// settlement price fixed; positions must be settled
    Settlement,
    /// market has no remaining participants
    Delisted,
}

impl Default for MarketStatus {
    fn default() -> (r: Self)
        ensures
            r == MarketStatus::Initialized,
    {
        MarketStatus::Initialized
    }
}

/// Whether the instrument is a perpetual or a dated future.
#[derive(Clone, Copy, Debug, PartialEq, Eq, Structural)]
pub enum ContractType {
    Perpetual,
    Future,
}

impl Default for ContractType {
    fn default() -> (r: Self)
        ensures
            r == ContractType::Perpetual,
    {
        ContractType::Perpetual
    }
}

/// Insurance tier of the contract.
#[derive(Clone, Copy, Debug, PartialEq, Eq, Structural)]
pub enum ContractTier {
    /// max insurance capped at A level
    A,
    /// max insurance capped at B level
    B,
    /// max insurance capped at C level
    C,
    /// no insurance
    Speculative,
    /// no insurance, only single position allowed
    Isolated,
}

impl Default for ContractTier {
    fn default() -> (r: Self)
        ensures
            r == ContractTier::Speculative,
    {
        ContractTier::Speculative
    }
}

/// Whether a spot balance counts as a deposit or a borrow.
#[derive(Clone, Copy, Debug, PartialEq, Eq, Structural)]
pub enum SpotBalanceType {
    Deposit,
    Borrow,
}

/// Insurance-fund claim bookkeeping for one market.
#[derive(Clone, Copy, Debug, PartialEq, Eq, Structural)]
pub struct InsuranceClaim {
    pub revenue_withdraw_since_last_settle: u64,
    pub max_revenue_withdraw_per_period: u64,
    pub quote_max_insurance: u64,
    pub quote_settled_insurance: u64,
    pub last_revenue_withdraw_ts: i64,
}

impl Default for InsuranceClaim {
    fn default() -> (r: Self)
        ensures
            r == (InsuranceClaim {
                revenue_withdraw_since_last_settle: 0,
                max_revenue_withdraw_per_period: 0,
                quote_max_insurance: 0,
                quote_settled_insurance: 0,
                last_revenue_withdraw_ts: 0,
            }),
    {
        InsuranceClaim {
            revenue_withdraw_since_last_settle: 0,
            max_revenue_withdraw_per_period: 0,
            quote_max_insurance: 0,
            quote_settled_insurance: 0,
            last_revenue_withdraw_ts: 0,
        }
    }
}

/// A fee or pnl pool owned by a perp market.
#[derive(Clone, Copy, Debug, PartialEq, Eq, Structural)]
pub struct PoolBalance {
    pub scaled_balance: u128,
    pub market_index: u16,
}

impl Default for PoolBalance {
    fn default() -> (r: Self)
        ensures
            r == (PoolBalance { scaled_balance: 0, market_index: 0 }),
    {
        PoolBalance { scaled_balance: 0, market_index: 0 }
    }
}

impl PoolBalance {
    /// Which market the pool belongs to.
    pub fn market_index(&self) -> (r: u16)
        ensures
            r == self.market_index,
    {
        self.market_index
    }

    /// A pool balance is always of deposit type.
    pub fn balance_type(&self) -> (r: SpotBalanceType)
        ensures
            r == SpotBalanceType::Deposit,
    {
        SpotBalanceType::Deposit
    }

    /// The current scaled balance.
    pub fn balance(&self) -> (r: u128)
        ensures
            r == self.scaled_balance,
    {
        self.scaled_balance
    }

    /// Add `delta` to the balance; overflow is a fatal arithmetic error.
    pub fn increase_balance(&mut self, delta: u128) -> (r: ClearingHouseResult<()>)
        ensures
            r is Ok <==> old(self).scaled_balance + delta <= u128::MAX,
            r is Ok ==> *final(self) == (PoolBalance {
                scaled_balance: (old(self).scaled_balance + delta) as u128,
                ..*old(self)
            }),
            r is Err ==> *final(self) == *old(self) && r->Err_0 == ErrorCode::MathError,
    {
        match self.scaled_balance.checked_add(delta) {
            Some(b) => {
                self.scaled_balance = b;
                Ok(())
            },
            None => Err(ErrorCode::MathError),
        }
    }

    /// Subtract `delta` from the balance; underflow is a fatal
    /// arithmetic error.
    pub fn decrease_balance(&mut self, delta: u128) -> (r: ClearingHouseResult<()>)
        ensures
            r is Ok <==> delta <= old(self).scaled_balance,
            r is Ok ==> *final(self) == (PoolBalance {
                scaled_balance: (old(self).scaled_balance - delta) as u128,
                ..*old(self)
            }),
            r is Err ==> *final(self) == *old(self) && r->Err_0 == ErrorCode::MathError,
    {
        match self.scaled_balance.checked_sub(delta) {
            Some(b) => {
                self.scaled_balance = b;
                Ok(())
            },
            None => Err(ErrorCode::MathError),
        }
    }

    /// A pool balance's type is fixed: asking to change it is a
    /// caller-side defect.
    pub fn update_balance_type(&mut self, _balance_type: SpotBalanceType) -> (r:
        ClearingHouseResult<()>)
        ensures
            r is Err && r->Err_0 == ErrorCode::CantUpdatePoolBalanceType,
            *final(self) == *old(self),
    {
        Err(ErrorCode::CantUpdatePoolBalanceType)
    }
}

/// The second-generation virtual constant-product curve.
#[derive(Clone, Copy, Debug, PartialEq, Eq, Structural)]
pub struct AMM {
    pub oracle: AccountKey,
    pub historical_oracle_data: HistoricalOracleData,
    pub base_asset_amount_per_lp: i128,
    pub quote_asset_amount_per_lp: i128,
    pub fee_pool: PoolBalance,
    pub base_asset_reserve: u128,
    pub quote_asset_reserve: u128,
    pub concentration_coef: u128,
    pub min_base_asset_reserve: u128,
    pub max_base_asset_reserve: u128,
    pub sqrt_k: u128,
    pub peg_multiplier: u128,
    pub terminal_quote_asset_reserve: u128,
    pub base_asset_amount_long: i128,
    pub base_asset_amount_short: i128,
    pub base_asset_amount_with_amm: i128,
    pub base_asset_amount_with_unsettled_lp: i128,
    pub max_open_interest: u128,
    pub quote_asset_amount_long: i128,
    pub quote_asset_amount_short: i128,
    pub quote_entry_amount_long: i128,
    pub quote_entry_amount_short: i128,
    pub user_lp_shares: u128,
    pub last_funding_rate: i64,
    pub last_funding_rate_long: i64,
    pub last_funding_rate_short: i64,
    pub last_24h_avg_funding_rate: i64,
    pub total_fee: i128,
    pub total_mm_fee: i128,
    pub total_exchange_fee: u128,
    pub total_fee_minus_distributions: i128,
    pub total_fee_withdrawn: u128,
    pub total_liquidation_fee: u128,
    pub cumulative_funding_rate_long: i128,
    pub cumulative_funding_rate_short: i128,
    pub cumulative_social_loss: i128,
    pub ask_base_asset_reserve: u128,
    pub ask_quote_asset_reserve: u128,
    pub bid_base_asset_reserve: u128,
    pub bid_quote_asset_reserve: u128,
    pub last_oracle_normalised_price: i64,
    pub last_oracle_reserve_price_spread_pct: i64,
    pub last_bid_price_twap: u64,
    pub last_ask_price_twap: u64,
    pub last_mark_price_twap: u64,
    pub last_mark_price_twap_5min: u64,
    pub last_update_slot: u64,
    pub last_oracle_conf_pct: u64,
    pub net_revenue_since_last_funding: i64,
    pub last_funding_rate_ts: i64,
    pub funding_period: i64,
    pub order_step_size: u64,
    pub order_tick_size: u64,
    pub min_order_size: u64,
    pub max_position_size: u64,
    pub volume_24h: u64,
    pub long_intensity_volume: u64,
    pub short_intensity_volume: u64,
    pub last_trade_ts: i64,
    pub mark_std: u64,
    pub last_mark_price_twap_ts: i64,
    pub base_spread: u32,
    pub max_spread: u32,
    pub long_spread: u32,
    pub short_spread: u32,
    pub long_intensity_count: u32,
    pub short_intensity_count: u32,
    pub max_fill_reserve_fraction: u16,
    pub max_slippage_ratio: u16,
    pub curve_update_intensity: u8,
    pub amm_jit_intensity: u8,
    pub oracle_source: OracleSource,
    pub last_oracle_valid: bool,
}

/// `quote_reserve * peg_multiplier / base_reserve` in price-precision
/// units, where it is defined and fits a u64.
pub open spec fn spec_calculate_price(
    quote_asset_reserve: u128,
    base_asset_reserve: u128,
    peg_multiplier: u128,
) -> Option<u64> {
    match quote_asset_reserve.checked_mul(peg_multiplier) {
        None => None,
        Some(peg_quote) => match peg_quote.checked_div(base_asset_reserve) {
            None => None,
            Some(price) => if price > u64::MAX {
                None
            } else {
                Some(price as u64)
            },
        },
    }
}

/// The synthetic price implied by the reserve curve:
/// `quote_reserve * peg_multiplier / base_reserve` in price-precision
/// units. Division by a depleted base reserve is a fatal market-state
/// error.
pub fn calculate_price(
    quote_asset_reserve: u128,
    base_asset_reserve: u128,
    peg_multiplier: u128,
) -> (r: DriftResult<u64>)
    ensures
        r is Ok <==> spec_calculate_price(quote_asset_reserve, base_asset_reserve, peg_multiplier)
            is Some,
        r is Ok ==> r->Ok_0 == spec_calculate_price(
            quote_asset_reserve,
            base_asset_reserve,
            peg_multiplier,
        )->Some_0,
        r is Err ==> r->Err_0 == ErrorCode::MathError,
{
    let peg_quote = match quote_asset_reserve.checked_mul(peg_multiplier) {
        Some(p) => p,
        None => {
            return Err(ErrorCode::MathError);
        },
    };
    let price = match peg_quote.checked_div(base_asset_reserve) {
        Some(p) => p,
        None => {
            return Err(ErrorCode::MathError);
        },
    };
    if price > u64::MAX as u128 {
        return Err(ErrorCode::MathError);
    }
    Ok(price as u64)
}

/// The net pnl of all users against the AMM at the given oracle price,
/// where it is defined: the net base exposure (in reserve precision)
/// valued at the oracle price, brought into quote units by dividing by
/// the reserve precision, plus the net quote amounts.
pub open spec fn spec_net_user_pnl(amm: AMM, oracle_price: i64) -> Option<i128> {
    if oracle_price <= 0 {
        None
    } else {
        match amm.base_asset_amount_with_amm.checked_mul(oracle_price as i128) {
            None => None,
            Some(scaled) => match scaled.checked_div(AMM_RESERVE_PRECISION as i128) {
                None => None,
                Some(base_value) => match base_value.checked_add(amm.quote_asset_amount_long) {
                    None => None,
                    Some(acc) => acc.checked_add(amm.quote_asset_amount_short),
                },
            },
        }
    }
}

/// Aggregate net unsettled user pnl against the AMM, valuing the net
/// base exposure at `oracle_price`. A non-positive oracle price is a
/// fatal configuration error.
pub fn calculate_net_user_pnl(amm: &AMM, oracle_price: i64) -> (r: DriftResult<i128>)
    ensures
        r is Ok <==> spec_net_user_pnl(*amm, oracle_price) is Some,
        r is Ok ==> r->Ok_0 == spec_net_user_pnl(*amm, oracle_price)->Some_0,
        r is Err ==> r->Err_0 == ErrorCode::MathError,
{
    if oracle_price <= 0 {
        return Err(ErrorCode::MathError);
    }
    let scaled = match amm.base_asset_amount_with_amm.checked_mul(oracle_price as i128) {
        Some(s) => s,
        None => {
            return Err(ErrorCode::MathError);
        },
    };
    let base_value = match scaled.checked_div(AMM_RESERVE_PRECISION as i128) {
        Some(b) => b,
        None => {
            return Err(ErrorCode::MathError);
        },
    };
    let acc = match base_value.checked_add(amm.quote_asset_amount_long) {
        Some(a) => a,
        None => {
            return Err(ErrorCode::MathError);
        },
    };
    match acc.checked_add(amm.quote_asset_amount_short) {
        Some(n) => Ok(n),
        None => Err(ErrorCode::MathError),
    }
}

/// `max(1, now - last)` as the elapsed weight for the rolling counters,
/// where the subtraction is defined.
pub open spec fn spec_since_last(now: i64, last: i64) -> Option<i128> {
    match now.checked_sub(last) {
        None => None,
        Some(d) => Some(
            (if d >= 1 {
                d
            } else {
                1
            }) as i128,
        ),
    }
}

impl AMM {
    /// The all-zero curve (every counter cleared, source `Pyth`).
    pub open spec fn spec_default() -> AMM {
        AMM {
            oracle: AccountKey { hi: 0, lo: 0 },
            historical_oracle_data: HistoricalOracleData {
                last_oracle_price: 0,
                last_oracle_conf: 0,
                last_oracle_delay: 0,
                last_oracle_price_twap: 0,
                last_oracle_price_twap_5min: 0,
                last_oracle_price_twap_ts: 0,
            },
            base_asset_amount_per_lp: 0,
            quote_asset_amount_per_lp: 0,
            fee_pool: PoolBalance { scaled_balance: 0, market_index: 0 },
            base_asset_reserve: 0,
            quote_asset_reserve: 0,
            concentration_coef: 0,
            min_base_asset_reserve: 0,
            max_base_asset_reserve: 0,
            sqrt_k: 0,
            peg_multiplier: 0,
            terminal_quote_asset_reserve: 0,
            base_asset_amount_long: 0,
            base_asset_amount_short: 0,
            base_asset_amount_with_amm: 0,
            base_asset_amount_with_unsettled_lp: 0,
            max_open_interest: 0,
            quote_asset_amount_long: 0,
            quote_asset_amount_short: 0,
            quote_entry_amount_long: 0,
            quote_entry_amount_short: 0,
            user_lp_shares: 0,
            last_funding_rate: 0,
            last_funding_rate_long: 0,
            last_funding_rate_short: 0,
            last_24h_avg_funding_rate: 0,
            total_fee: 0,
            total_mm_fee: 0,
            total_exchange_fee: 0,
            total_fee_minus_distributions: 0,
            total_fee_withdrawn: 0,
            total_liquidation_fee: 0,
            cumulative_funding_rate_long: 0,
            cumulative_funding_rate_short: 0,
            cumulative_social_loss: 0,
            ask_base_asset_reserve: 0,
            ask_quote_asset_reserve: 0,
            bid_base_asset_reserve: 0,
            bid_quote_asset_reserve: 0,
            last_oracle_normalised_price: 0,
            last_oracle_reserve_price_spread_pct: 0,
            last_bid_price_twap: 0,
            last_ask_price_twap: 0,
            last_mark_price_twap: 0,
            last_mark_price_twap_5min: 0,
            last_update_slot: 0,
            last_oracle_conf_pct: 0,
            net_revenue_since_last_funding: 0,
            last_funding_rate_ts: 0,
            funding_period: 0,
            order_step_size: 0,
            order_tick_size: 0,
            min_order_size: 0,
            max_position_size: 0,
            volume_24h: 0,
            long_intensity_volume: 0,
            short_intensity_volume: 0,
            last_trade_ts: 0,
            mark_std: 0,
            last_mark_price_twap_ts: 0,
            base_spread: 0,
            max_spread: 0,
            long_spread: 0,
            short_spread: 0,
            long_intensity_count: 0,
            short_intensity_count: 0,
            max_fill_reserve_fraction: 0,
            max_slippage_ratio: 0,
            curve_update_intensity: 0,
            amm_jit_intensity: 0,
            oracle_source: OracleSource::Pyth,
            last_oracle_valid: false,
        }
    }

    /// What `default_test` returns: equal 100-unit reserves, unit peg.
    pub open spec fn spec_default_test() -> AMM {
        AMM {
            base_asset_reserve: (100 * AMM_RESERVE_PRECISION) as u128,
            quote_asset_reserve: (100 * AMM_RESERVE_PRECISION) as u128,
            sqrt_k: (100 * AMM_RESERVE_PRECISION) as u128,
            concentration_coef: MAX_CONCENTRATION_COEFFICIENT,
            order_step_size: 1,
            order_tick_size: 1,
            max_base_asset_reserve: u64::MAX as u128,
            min_base_asset_reserve: 0,
            terminal_quote_asset_reserve: (100 * AMM_RESERVE_PRECISION) as u128,
            peg_multiplier: PEG_PRECISION,
            max_spread: 1000,
            historical_oracle_data: HistoricalOracleData {
                last_oracle_price: PRICE_PRECISION_I64,
                last_oracle_conf: 0,
                last_oracle_delay: 0,
                last_oracle_price_twap: 0,
                last_oracle_price_twap_5min: 0,
                last_oracle_price_twap_ts: 0,
            },
            last_oracle_valid: true,
            ..AMM::spec_default()
        }
    }

    /// A small liquid curve for tests: equal reserves and a unit peg, so
    /// the reserve price is one price unit.
    pub fn default_test() -> (r: Self)
        ensures
            r == AMM::spec_default_test(),
    {
        let default_reserves: u128 = 100 * AMM_RESERVE_PRECISION;
        let mut amm = AMM::default();
        amm.base_asset_reserve = default_reserves;
        amm.quote_asset_reserve = default_reserves;
        amm.sqrt_k = default_reserves;
        amm.concentration_coef = MAX_CONCENTRATION_COEFFICIENT;
        amm.order_step_size = 1;
        amm.order_tick_size = 1;
        amm.max_base_asset_reserve = u64::MAX as u128;
        amm.min_base_asset_reserve = 0;
        amm.terminal_quote_asset_reserve = default_reserves;
        amm.peg_multiplier = PEG_PRECISION;
        amm.max_spread = 1000;
        amm.historical_oracle_data.last_oracle_price = PRICE_PRECISION_I64;
        amm.last_oracle_valid = true;
        amm
    }

    /// What `default_btc_test` returns.
    pub open spec fn spec_default_btc_test() -> AMM {
        AMM {
            base_asset_reserve: (65 * AMM_RESERVE_PRECISION) as u128,
            quote_asset_reserve: 63015384615,
            terminal_quote_asset_reserve: (64 * AMM_RESERVE_PRECISION) as u128,
            sqrt_k: (64 * AMM_RESERVE_PRECISION) as u128,
            peg_multiplier: 19_400_000_000,
            concentration_coef: MAX_CONCENTRATION_COEFFICIENT,
            max_base_asset_reserve: (90 * AMM_RESERVE_PRECISION) as u128,
            min_base_asset_reserve: (45 * AMM_RESERVE_PRECISION) as u128,
            base_asset_amount_with_amm: (-(AMM_RESERVE_PRECISION as int)) as i128,
            mark_std: PRICE_PRECISION as u64,
            quote_asset_amount_long: 0,
            quote_asset_amount_short: 19_000_000_000,
            historical_oracle_data: HistoricalOracleData {
                last_oracle_price: (19_400 * PRICE_PRECISION_I64) as i64,
                last_oracle_conf: 0,
                last_oracle_delay: 0,
                last_oracle_price_twap: (19_400 * PRICE_PRECISION_I64) as i64,
                last_oracle_price_twap_5min: 0,
                last_oracle_price_twap_ts: 1662800000i64,
            },
            last_mark_price_twap_ts: 1662800000,
            curve_update_intensity: 100,
            base_spread: 250,
            max_spread: 975,
            last_oracle_valid: true,
            ..AMM::spec_default()
        }
    }

    /// A curve fixture shaped like a btc market: uneven reserves, a
    /// large peg, a one-unit short net exposure.
    pub fn default_btc_test() -> (r: Self)
        ensures
            r == AMM::spec_default_btc_test(),
    {
        let mut amm = AMM::default();
        amm.base_asset_reserve = 65 * AMM_RESERVE_PRECISION;
        amm.quote_asset_reserve = 63015384615;
        amm.terminal_quote_asset_reserve = 64 * AMM_RESERVE_PRECISION;
        amm.sqrt_k = 64 * AMM_RESERVE_PRECISION;
        amm.peg_multiplier = 19_400_000_000;
        amm.concentration_coef = MAX_CONCENTRATION_COEFFICIENT;
        amm.max_base_asset_reserve = 90 * AMM_RESERVE_PRECISION;
        amm.min_base_asset_reserve = 45 * AMM_RESERVE_PRECISION;
        amm.base_asset_amount_with_amm = -(AMM_RESERVE_PRECISION as i128);
        amm.mark_std = PRICE_PRECISION as u64;
        amm.quote_asset_amount_long = 0;
        amm.quote_asset_amount_short = 19_000_000_000;
        amm.historical_oracle_data.last_oracle_price = 19_400 * PRICE_PRECISION_I64;
        amm.historical_oracle_data.last_oracle_price_twap = 19_400 * PRICE_PRECISION_I64;
        amm.historical_oracle_data.last_oracle_price_twap_ts = 1662800000;
        amm.last_mark_price_twap_ts = 1662800000;
        amm.curve_update_intensity = 100;
        amm.base_spread = 250;
        amm.max_spread = 975;
        amm.last_oracle_valid = true;
        amm
    }

    /// Whether just-in-time AMM liquidity is enabled for this market.
    pub fn amm_jit_is_active(&self) -> (r: bool)
        ensures
            r == (self.amm_jit_intensity > 0),
    {
        self.amm_jit_intensity > 0
    }

    /// The reserve price of this curve, where it is defined.
    pub open spec fn spec_reserve_price(self) -> Option<u64> {
        spec_calculate_price(self.quote_asset_reserve, self.base_asset_reserve, self.peg_multiplier)
    }

    /// The synthetic price implied by the current reserves and peg.
    pub fn reserve_price(&self) -> (r: DriftResult<u64>)
        ensures
            r is Ok <==> self.spec_reserve_price() is Some,
            r is Ok ==> r->Ok_0 == self.spec_reserve_price()->Some_0,
            r is Err ==> r->Err_0 == ErrorCode::MathError,
    {
        calculate_price(self.quote_asset_reserve, self.base_asset_reserve, self.peg_multiplier)
    }

    /// The value of the bid: the reserve price scaled down by the short
    /// spread.
    pub open spec fn spec_bid_value(self, reserve_price: u64) -> u64 {
        (reserve_price * (BID_ASK_SPREAD_PRECISION_U128 - self.short_spread) / (
        BID_ASK_SPREAD_PRECISION_U128 as int)) as u64
    }

    /// The value of the ask: the reserve price scaled up by the long
    /// spread.
    pub open spec fn spec_ask_value(self, reserve_price: u64) -> u64 {
        (reserve_price * (BID_ASK_SPREAD_PRECISION_U128 + self.long_spread) / (
        BID_ASK_SPREAD_PRECISION_U128 as int)) as u64
    }

    /// Both spread-adjusted prices are defined: the short spread leaves
    /// the bid non-negative and the ask fits a u64.
    pub open spec fn spec_bid_ask_ok(self, reserve_price: u64) -> bool {
        self.short_spread <= BID_ASK_SPREAD_PRECISION_U128 && reserve_price * (
        BID_ASK_SPREAD_PRECISION_U128 + self.long_spread) / (BID_ASK_SPREAD_PRECISION_U128 as int)
            <= u64::MAX
    }

    /// Reserve price scaled down by the short spread. Never above the
    /// reserve price.
    pub fn bid_price(&self, reserve_price: u64) -> (r: DriftResult<u64>)
        ensures
            r is Ok <==> self.short_spread <= BID_ASK_SPREAD_PRECISION_U128,
            r is Ok ==> r->Ok_0 == self.spec_bid_value(reserve_price),
            r is Ok ==> r->Ok_0 <= reserve_price,
            r is Err ==> r->Err_0 == ErrorCode::MathError,
    {
        let factor = match BID_ASK_SPREAD_PRECISION_U128.checked_sub(self.short_spread as u128) {
            Some(f) => f,
            None => {
                return Err(ErrorCode::MathError);
            },
        };
        proof {
            assert((reserve_price as int) * factor <= u128::MAX) by (nonlinear_arith)
                requires
                    factor <= BID_ASK_SPREAD_PRECISION_U128,
                    reserve_price <= u64::MAX,
            ;
        }
        let num = (reserve_price as u128) * factor;
        let bid = num / BID_ASK_SPREAD_PRECISION_U128;
        proof {
            assert(reserve_price * factor <= reserve_price * BID_ASK_SPREAD_PRECISION_U128)
                by (nonlinear_arith)
                requires
                    factor <= BID_ASK_SPREAD_PRECISION_U128,
                    reserve_price >= 0,
            ;
            lemma_div_is_ordered(
                reserve_price * factor,
                reserve_price * (BID_ASK_SPREAD_PRECISION_U128 as int),
                BID_ASK_SPREAD_PRECISION_U128 as int,
            );
            lemma_div_by_multiple(reserve_price as int, BID_ASK_SPREAD_PRECISION_U128 as int);
        }
        Ok(bid as u64)
    }

    /// Reserve price scaled up by the long spread. Never below the
    /// reserve price.
    pub fn ask_price(&self, reserve_price: u64) -> (r: DriftResult<u64>)
        ensures
            r is Ok <==> reserve_price * (BID_ASK_SPREAD_PRECISION_U128 + self.long_spread) / (
            BID_ASK_SPREAD_PRECISION_U128 as int) <= u64::MAX,
            r is Ok ==> r->Ok_0 == self.spec_ask_value(reserve_price),
            r is Ok ==> r->Ok_0 >= reserve_price,
            r is Err ==> r->Err_0 == ErrorCode::MathError,
    {
        let factor = BID_ASK_SPREAD_PRECISION_U128 + (self.long_spread as u128);
        proof {
            assert((reserve_price as int) * factor <= u128::MAX) by (nonlinear_arith)
                requires
                    factor <= BID_ASK_SPREAD_PRECISION_U128 + u32::MAX,
                    reserve_price <= u64::MAX,
            ;
        }
        let num = (reserve_price as u128) * factor;
        let ask = num / BID_ASK_SPREAD_PRECISION_U128;
        proof {
            assert(reserve_price * (BID_ASK_SPREAD_PRECISION_U128 as int) <= reserve_price * factor)
                by (nonlinear_arith)
                requires
                    factor >= BID_ASK_SPREAD_PRECISION_U128,
                    reserve_price >= 0,
            ;
            lemma_div_is_ordered(
                reserve_price * (BID_ASK_SPREAD_PRECISION_U128 as int),
                reserve_price * factor,
                BID_ASK_SPREAD_PRECISION_U128 as int,
            );
            lemma_div_by_multiple(reserve_price as int, BID_ASK_SPREAD_PRECISION_U128 as int);
        }
        if ask > u64::MAX as u128 {
            return Err(ErrorCode::MathError);
        }
        Ok(ask as u64)
    }

    /// Bid and ask in one call; when both are defined the pair brackets
    /// the reserve price: `bid <= reserve_price <= ask`.
    pub fn bid_ask_price(&self, reserve_price: u64) -> (r: DriftResult<(u64, u64)>)
        ensures
            r is Ok <==> self.spec_bid_ask_ok(reserve_price),
            r is Ok ==> r->Ok_0.0 == self.spec_bid_value(reserve_price),
            r is Ok ==> r->Ok_0.1 == self.spec_ask_value(reserve_price),
            r is Ok ==> r->Ok_0.0 <= reserve_price <= r->Ok_0.1,
            r is Err ==> r->Err_0 == ErrorCode::MathError,
    {
        let bid_price = self.bid_price(reserve_price)?;
        let ask_price = self.ask_price(reserve_price)?;
        Ok((bid_price, ask_price))
    }

    /// The spread band grows monotonically with the spread
    /// configuration: against the same reserve price, a curve with
    /// wider configured long and short spreads never shows a narrower
    /// bid/ask band.
    pub proof fn lemma_spread_width_monotonic(self, other: AMM, reserve_price: u64)
        requires
            self.long_spread <= other.long_spread,
            self.short_spread <= other.short_spread,
            self.spec_bid_ask_ok(reserve_price),
            other.spec_bid_ask_ok(reserve_price),
        ensures
            self.spec_ask_value(reserve_price) - self.spec_bid_value(reserve_price)
                <= other.spec_ask_value(reserve_price) - other.spec_bid_value(reserve_price),
    {
        let p = BID_ASK_SPREAD_PRECISION_U128 as int;
        let rp = reserve_price as int;
        assert(rp * (p + self.long_spread) <= rp * (p + other.long_spread)) by (nonlinear_arith)
            requires
                rp >= 0,
                self.long_spread <= other.long_spread,
        ;
        lemma_div_is_ordered(rp * (p + self.long_spread), rp * (p + other.long_spread), p);
        assert(rp * (p - other.short_spread) <= rp * (p - self.short_spread)) by (nonlinear_arith)
            requires
                rp >= 0,
                self.short_spread <= other.short_spread,
        ;
        lemma_div_is_ordered(rp * (p - other.short_spread), rp * (p - self.short_spread), p);
        assert(rp * (p - self.short_spread) <= rp * p) by (nonlinear_arith)
            requires
                rp >= 0,
                self.short_spread >= 0,
        ;
        lemma_div_is_ordered(rp * (p - self.short_spread), rp * p, p);
        lemma_div_by_multiple(rp, p);
    }

    /// Whether the curve may shrink `k` without starving one side:
    /// true when `|net exposure with the amm| < sqrt_k / 4`.
    pub fn can_lower_k(&self) -> (r: DriftResult<bool>)
        ensures
            r is Ok,
            r->Ok_0 == (abs_i128(self.base_asset_amount_with_amm) < self.sqrt_k / 4),
    {
        let magnitude: u128 = if self.base_asset_amount_with_amm >= 0 {
            self.base_asset_amount_with_amm as u128
        } else if self.base_asset_amount_with_amm == i128::MIN {
            0x8000_0000_0000_0000_0000_0000_0000_0000
        } else {
            (-self.base_asset_amount_with_amm) as u128
        };
        let can_lower = magnitude < self.sqrt_k / 4;
        Ok(can_lower)
    }

    /// The oracle's time-weighted average price, where the source
    /// publishes one: the exponent-style feed does, the mantissa-style
    /// feed does not, and the pass-through kind is a configuration
    /// error.
    pub fn get_oracle_twap(&self, data: &[u8]) -> (r: DriftResult<Option<i64>>)
        requires
            self.oracle_source == OracleSource::Pyth ==> data@.len() >= PYTH_PRICE_ACCOUNT_LEN,
        ensures
            self.oracle_source == OracleSource::Switchboard ==> r is Ok && r->Ok_0 is None,
            self.oracle_source == OracleSource::QuoteAsset ==> r is Err && r->Err_0
                == ErrorCode::UnsupportedOracleSource,
            self.oracle_source == OracleSource::Pyth && r is Ok ==> r->Ok_0 is Some,
            self.oracle_source == OracleSource::Pyth && r is Err ==> r->Err_0
                == ErrorCode::MathError || r->Err_0 == ErrorCode::InvalidOracle,
    {
        match self.oracle_source {
            OracleSource::Pyth => Ok(Some(self.get_pyth_twap(data)?)),
            OracleSource::Switchboard => Ok(None),
            OracleSource::QuoteAsset => Err(ErrorCode::UnsupportedOracleSource),
        }
    }

    /// Decode an exponent-style oracle account and rescale its twap to
    /// price precision, rejecting an implausible reading.
    pub fn get_pyth_twap(&self, data: &[u8]) -> (r: DriftResult<i64>)
        requires
            data@.len() >= PYTH_PRICE_ACCOUNT_LEN,
        ensures
            r is Err ==> r->Err_0 == ErrorCode::MathError || r->Err_0 == ErrorCode::InvalidOracle,
    {
        load_pyth_twap_price(data)
    }

    /// The state this AMM reaches after recording a trade of
    /// `quote_asset_amount` in `direction` at time `now`, where every
    /// checked step succeeds: the 24h volume and the per-direction
    /// intensity counters decay over the window and absorb the trade,
    /// and the trade time is remembered.
    pub open spec fn spec_update_volume_24h(
        self,
        quote_asset_amount: u64,
        direction: PositionDirection,
        now: i64,
    ) -> Option<AMM> {
        match spec_since_last(now, self.last_trade_ts) {
            None => None,
            Some(since) => {
                let long_amount: u64 = if direction == PositionDirection::Long {
                    quote_asset_amount
                } else {
                    0
                };
                let short_amount: u64 = if direction == PositionDirection::Long {
                    0
                } else {
                    quote_asset_amount
                };
                let long_inc: u64 = if direction == PositionDirection::Long {
                    1
                } else {
                    0
                };
                let short_inc: u64 = if direction == PositionDirection::Long {
                    0
                } else {
                    1
                };
                match spec_rolling_sum(self.volume_24h, quote_asset_amount, since, TWENTY_FOUR_HOUR as i128) {
                    None => None,
                    Some(volume) => match spec_rolling_sum(
                        self.long_intensity_volume,
                        long_amount,
                        since,
                        TWENTY_FOUR_HOUR as i128,
                    ) {
                        None => None,
                        Some(long_volume) => match spec_rolling_sum(
                            self.short_intensity_volume,
                            short_amount,
                            since,
                            TWENTY_FOUR_HOUR as i128,
                        ) {
                            None => None,
                            Some(short_volume) => match spec_rolling_sum(
                                self.long_intensity_count as u64,
                                long_inc,
                                since,
                                TWENTY_FOUR_HOUR as i128,
                            ) {
                                None => None,
                                Some(long_count) => match spec_rolling_sum(
                                    self.short_intensity_count as u64,
                                    short_inc,
                                    since,
                                    TWENTY_FOUR_HOUR as i128,
                                ) {
                                    None => None,
                                    Some(short_count) => if long_count > u32::MAX || short_count
                                        > u32::MAX {
                                        None
                                    } else {
                                        Some(
                                            AMM {
                                                volume_24h: volume,
                                                long_intensity_volume: long_volume,
                                                short_intensity_volume: short_volume,
                                                long_intensity_count: long_count as u32,
                                                short_intensity_count: short_count as u32,
                                                last_trade_ts: now,
                                                ..self
                                            },
                                        )
                                    },
                                },
                            },
                        },
                    },
                }
            },
        }
    }

    /// Record a trade in the rolling 24h volume and the per-direction
    /// intensity counters. The state is updated only when every checked
    /// step succeeds; on an arithmetic error nothing changes.
    pub fn update_volume_24h(
        &mut self,
        quote_asset_amount: u64,
        position_direction: PositionDirection,
        now: i64,
    ) -> (r: DriftResult<()>)
        ensures
            r is Ok <==> old(self).spec_update_volume_24h(quote_asset_amount, position_direction, now)
                is Some,
            r is Ok ==> *final(self) == old(self).spec_update_volume_24h(
                quote_asset_amount,
                position_direction,
                now,
            )->Some_0,
            r is Err ==> *final(self) == *old(self) && r->Err_0 == ErrorCode::MathError,
    {
        let diff = match now.checked_sub(self.last_trade_ts) {
            Some(d) => d,
            None => {
                return Err(ErrorCode::MathError);
            },
        };
        let since_last: i128 = (if diff >= 1 {
            diff
        } else {
            1
        }) as i128;

        let is_long = matches!(position_direction, PositionDirection::Long);
        let long_amount: u64 = if is_long {
            quote_asset_amount
        } else {
            0
        };
        let short_amount: u64 = if is_long {
            0
        } else {
            quote_asset_amount
        };
        let long_inc: u64 = if is_long {
            1
        } else {
            0
        };
        let short_inc: u64 = if is_long {
            0
        } else {
            1
        };

        let volume = calculate_rolling_sum(
            self.volume_24h,
            quote_asset_amount,
            since_last,
            TWENTY_FOUR_HOUR as i128,
        )?;
        let long_volume = calculate_rolling_sum(
            self.long_intensity_volume,
            long_amount,
            since_last,
            TWENTY_FOUR_HOUR as i128,
        )?;
        let short_volume = calculate_rolling_sum(
            self.short_intensity_volume,
            short_amount,
            since_last,
            TWENTY_FOUR_HOUR as i128,
        )?;
        let long_count = calculate_rolling_sum(
            self.long_intensity_count as u64,
            long_inc,
            since_last,
            TWENTY_FOUR_HOUR as i128,
        )?;
        let short_count = calculate_rolling_sum(
            self.short_intensity_count as u64,
            short_inc,
            since_last,
            TWENTY_FOUR_HOUR as i128,
        )?;
        if long_count > u32::MAX as u64 || short_count > u32::MAX as u64 {
            return Err(ErrorCode::MathError);
        }

        self.volume_24h = volume;
        self.long_intensity_volume = long_volume;
        self.short_intensity_volume = short_volume;
        self.long_intensity_count = long_count as u32;
        self.short_intensity_count = short_count as u32;
        self.last_trade_ts = now;
        Ok(())
    }
}

impl Default for AMM {
    fn default() -> (r: Self)
        ensures
            r == AMM::spec_default(),
    {
        AMM {
            oracle: AccountKey { hi: 0, lo: 0 },
            historical_oracle_data: HistoricalOracleData {
                last_oracle_price: 0,
                last_oracle_conf: 0,
                last_oracle_delay: 0,
                last_oracle_price_twap: 0,
                last_oracle_price_twap_5min: 0,
                last_oracle_price_twap_ts: 0,
            },
            base_asset_amount_per_lp: 0,
            quote_asset_amount_per_lp: 0,
            fee_pool: PoolBalance { scaled_balance: 0, market_index: 0 },
            base_asset_reserve: 0,
            quote_asset_reserve: 0,
            concentration_coef: 0,
            min_base_asset_reserve: 0,
            max_base_asset_reserve: 0,
            sqrt_k: 0,
            peg_multiplier: 0,
            terminal_quote_asset_reserve: 0,
            base_asset_amount_long: 0,
            base_asset_amount_short: 0,
            base_asset_amount_with_amm: 0,
            base_asset_amount_with_unsettled_lp: 0,
            max_open_interest: 0,
            quote_asset_amount_long: 0,
            quote_asset_amount_short: 0,
            quote_entry_amount_long: 0,
            quote_entry_amount_short: 0,
            user_lp_shares: 0,
            last_funding_rate: 0,
            last_funding_rate_long: 0,
            last_funding_rate_short: 0,
            last_24h_avg_funding_rate: 0,
            total_fee: 0,
            total_mm_fee: 0,
            total_exchange_fee: 0,
            total_fee_minus_distributions: 0,
            total_fee_withdrawn: 0,
            total_liquidation_fee: 0,
            cumulative_funding_rate_long: 0,
            cumulative_funding_rate_short: 0,
            cumulative_social_loss: 0,
            ask_base_asset_reserve: 0,
            ask_quote_asset_reserve: 0,
            bid_base_asset_reserve: 0,
            bid_quote_asset_reserve: 0,
            last_oracle_normalised_price: 0,
            last_oracle_reserve_price_spread_pct: 0,
            last_bid_price_twap: 0,
            last_ask_price_twap: 0,
            last_mark_price_twap: 0,
            last_mark_price_twap_5min: 0,
            last_update_slot: 0,
            last_oracle_conf_pct: 0,
            net_revenue_since_last_funding: 0,
            last_funding_rate_ts: 0,
            funding_period: 0,
            order_step_size: 0,
            order_tick_size: 0,
            min_order_size: 0,
            max_position_size: 0,
            volume_24h: 0,
            long_intensity_volume: 0,
            short_intensity_volume: 0,
            last_trade_ts: 0,
            mark_std: 0,
            last_mark_price_twap_ts: 0,
            base_spread: 0,
            max_spread: 0,
            long_spread: 0,
            short_spread: 0,
            long_intensity_count: 0,
            short_intensity_count: 0,
            max_fill_reserve_fraction: 0,
            max_slippage_ratio: 0,
            curve_update_intensity: 0,
            amm_jit_intensity: 0,
            oracle_source: OracleSource::Pyth,
            last_oracle_valid: false,
        }
    }
}

/// A perp market: the curve plus its risk configuration, lifecycle
/// status and user counters.
#[derive(Clone, Copy, Debug, PartialEq, Eq, Structural)]
pub struct PerpMarket {
    pub pubkey: AccountKey,
    pub amm: AMM,
    pub pnl_pool: PoolBalance,
    pub insurance_claim: InsuranceClaim,
    pub unrealized_pnl_max_imbalance: u64,
    /// set iff the market is winding down
    pub expiry_ts: i64,
    /// set iff the market has expired; the price positions settle at
    pub expiry_price: i64,
    pub next_fill_record_id: u64,
    pub next_funding_rate_record_id: u64,
    pub next_curve_record_id: u64,
    pub imf_factor: u32,
    pub unrealized_pnl_imf_factor: u32,
    pub liquidator_fee: u32,
    pub if_liquidation_fee: u32,
    pub margin_ratio_initial: u32,
    pub margin_ratio_maintenance: u32,
    pub unrealized_pnl_initial_asset_weight: u32,
    pub unrealized_pnl_maintenance_asset_weight: u32,
    /// number of users in a position
    pub number_of_users: u32,
    pub market_index: u16,
    pub status: MarketStatus,
    pub contract_type: ContractType,
    pub contract_tier: ContractTier,
}

impl Default for PerpMarket {
    fn default() -> (r: Self)
        ensures
            r == PerpMarket::spec_default(),
    {
        PerpMarket {
            pubkey: AccountKey { hi: 0, lo: 0 },
            amm: AMM::default(),
            pnl_pool: PoolBalance { scaled_balance: 0, market_index: 0 },
            insurance_claim: InsuranceClaim::default(),
            unrealized_pnl_max_imbalance: 0,
            expiry_ts: 0,
            expiry_price: 0,
            next_fill_record_id: 0,
            next_funding_rate_record_id: 0,
            next_curve_record_id: 0,
            imf_factor: 0,
            unrealized_pnl_imf_factor: 0,
            liquidator_fee: 0,
            if_liquidation_fee: 0,
            margin_ratio_initial: 0,
            margin_ratio_maintenance: 0,
            unrealized_pnl_initial_asset_weight: 0,
            unrealized_pnl_maintenance_asset_weight: 0,
            number_of_users: 0,
            market_index: 0,
            status: MarketStatus::Initialized,
            contract_type: ContractType::Perpetual,
            contract_tier: ContractTier::Speculative,
        }
    }
}

impl PerpMarket {
    /// The all-zero market in its initial lifecycle state.
    pub open spec fn spec_default() -> PerpMarket {
        PerpMarket {
            pubkey: AccountKey { hi: 0, lo: 0 },
            amm: AMM::spec_default(),
            pnl_pool: PoolBalance { scaled_balance: 0, market_index: 0 },
            insurance_claim: InsuranceClaim {
                revenue_withdraw_since_last_settle: 0,
                max_revenue_withdraw_per_period: 0,
                quote_max_insurance: 0,
                quote_settled_insurance: 0,
                last_revenue_withdraw_ts: 0,
            },
            unrealized_pnl_max_imbalance: 0,
            expiry_ts: 0,
            expiry_price: 0,
            next_fill_record_id: 0,
            next_funding_rate_record_id: 0,
            next_curve_record_id: 0,
            imf_factor: 0,
            unrealized_pnl_imf_factor: 0,
            liquidator_fee: 0,
            if_liquidation_fee: 0,
            margin_ratio_initial: 0,
            margin_ratio_maintenance: 0,
            unrealized_pnl_initial_asset_weight: 0,
            unrealized_pnl_maintenance_asset_weight: 0,
            number_of_users: 0,
            market_index: 0,
            status: MarketStatus::Initialized,
            contract_type: ContractType::Perpetual,
            contract_tier: ContractTier::Speculative,
        }
    }

    /// A small liquid market fixture: equal reserves, unit peg, 10x/5x
    /// margin ratios.
    pub fn default_test() -> (r: Self)
        ensures
            r == (PerpMarket {
                amm: AMM::spec_default_test(),
                margin_ratio_initial: 1000,
                margin_ratio_maintenance: 500,
                ..PerpMarket::spec_default()
            }),
    {
        let amm = AMM::default_test();
        let mut market = PerpMarket::default();
        market.amm = amm;
        market.margin_ratio_initial = 1000;
        market.margin_ratio_maintenance = 500;
        market
    }

    /// A market fixture shaped like a btc market: uneven reserves, a
    /// large peg, and a short net exposure.
    pub fn default_btc_test() -> (r: Self)
        ensures
            r == (PerpMarket {
                amm: AMM::spec_default_btc_test(),
                margin_ratio_initial: 1000,
                margin_ratio_maintenance: 500,
                status: MarketStatus::Initialized,
                ..PerpMarket::spec_default()
            }),
    {
        let amm = AMM::default_btc_test();
        let mut market = PerpMarket::default();
        market.amm = amm;
        market.margin_ratio_initial = 1000;
        market.margin_ratio_maintenance = 500;
        market.status = MarketStatus::Initialized;
        market
    }

    /// A market is active while it has not reached a terminal status and
    /// has not expired.
    pub fn is_active(&self, now: i64) -> (r: ClearingHouseResult<bool>)
        ensures
            r is Ok,
            r->Ok_0 == (self.status != MarketStatus::Settlement && self.status
                != MarketStatus::Delisted && (self.expiry_ts == 0 || now < self.expiry_ts)),
    {
        let status_ok = !matches!(self.status, MarketStatus::Settlement | MarketStatus::Delisted);
        let not_expired = self.expiry_ts == 0 || now < self.expiry_ts;
        Ok(status_ok && not_expired)
    }

    /// Whether fills may only reduce liability.
    pub fn is_reduce_only(&self) -> (r: ClearingHouseResult<bool>)
        ensures
            r is Ok,
            r->Ok_0 == (self.status == MarketStatus::ReduceOnly),
    {
        Ok(matches!(self.status, MarketStatus::ReduceOnly))
    }

    /// The divisor bounding how far a single update may move the TWAP,
    /// by contract tier; the speculative tiers use the default band.
    pub fn get_sanitize_clamp_denominator(self) -> (r: ClearingHouseResult<Option<i64>>)
        ensures
            r is Ok,
            r->Ok_0 == (match self.contract_tier {
                ContractTier::A => Some(10i64),
                ContractTier::B => Some(5i64),
                ContractTier::C => Some(2i64),
                ContractTier::Speculative => None::<i64>,
                ContractTier::Isolated => None::<i64>,
            }),
    {
        Ok(
            match self.contract_tier {
                ContractTier::A => Some(10i64),
                ContractTier::B => Some(5i64),
                ContractTier::C => Some(2i64),
                ContractTier::Speculative => None,
                ContractTier::Isolated => None,
            },
        )
    }

    /// The size-adjusted margin ratio, where it is defined: zero for a
    /// market in settlement, else the configured base ratio for the
    /// margin type raised by the size premium.
    pub open spec fn spec_margin_ratio(self, size: u128, margin_type: MarginRequirementType) -> Option<
        u32,
    > {
        if self.status == MarketStatus::Settlement {
            Some(0)
        } else {
            let default_margin_ratio = match margin_type {
                MarginRequirementType::Initial => self.margin_ratio_initial,
                MarginRequirementType::Maintenance => self.margin_ratio_maintenance,
            };
            spec_size_premium_liability_weight(
                size,
                self.imf_factor,
                default_margin_ratio,
                MARGIN_PRECISION_U128,
            )
        }
    }

    /// The margin ratio demanded for a position of `size`, in margin
    /// precision units. Non-decreasing in `size` for a positive imf
    /// factor; with a zero imf factor it is exactly the configured base
    /// ratio. A market in settlement weighs no size at all.
    pub fn get_margin_ratio(&self, size: u128, margin_type: MarginRequirementType) -> (r:
        DriftResult<u32>)
        ensures
            r is Ok <==> self.spec_margin_ratio(size, margin_type) is Some,
            r is Ok ==> r->Ok_0 == self.spec_margin_ratio(size, margin_type)->Some_0,
            r is Err ==> r->Err_0 == ErrorCode::MathError,
            self.imf_factor == 0 ==> r is Ok,
            self.imf_factor == 0 && self.status != MarketStatus::Settlement ==> r->Ok_0 == (
            match margin_type {
                MarginRequirementType::Initial => self.margin_ratio_initial,
                MarginRequirementType::Maintenance => self.margin_ratio_maintenance,
            }),
    {
        if matches!(self.status, MarketStatus::Settlement) {
            return Ok(0);
        }

        let default_margin_ratio = match margin_type {
            MarginRequirementType::Initial => self.margin_ratio_initial,
            MarginRequirementType::Maintenance => self.margin_ratio_maintenance,
        };

        let size_adj_margin_ratio = calculate_size_premium_liability_weight(
            size,
            self.imf_factor,
            default_margin_ratio,
            MARGIN_PRECISION_U128,
        )?;

        let margin_ratio = if default_margin_ratio >= size_adj_margin_ratio {
            default_margin_ratio
        } else {
            size_adj_margin_ratio
        };
        Ok(margin_ratio)
    }

    /// The margin ratio is non-decreasing in position size: for the
    /// same market and margin type, a larger position is never asked
    /// for a smaller margin ratio.
    pub proof fn lemma_margin_ratio_monotonic_in_size(
        self,
        size1: u128,
        size2: u128,
        margin_type: MarginRequirementType,
    )
        requires
            size1 <= size2,
            self.spec_margin_ratio(size1, margin_type) is Some,
            self.spec_margin_ratio(size2, margin_type) is Some,
        ensures
            self.spec_margin_ratio(size1, margin_type)->Some_0 <= self.spec_margin_ratio(
                size2,
                margin_type,
            )->Some_0,
    {
        if self.status != MarketStatus::Settlement {
            let default_margin_ratio = match margin_type {
                MarginRequirementType::Initial => self.margin_ratio_initial,
                MarginRequirementType::Maintenance => self.margin_ratio_maintenance,
            };
            crate::perp_margin::lemma_size_premium_monotonic_in_size(
                size1,
                size2,
                self.imf_factor,
                default_margin_ratio,
                MARGIN_PRECISION_U128,
            );
        }
    }

    /// The leverage the margin ratio of the given type permits, in
    /// margin-precision units: `1 / margin_ratio`.
    pub fn get_initial_leverage_ratio(&self, margin_type: MarginRequirementType) -> (r: u128)
        requires
            margin_type == MarginRequirementType::Initial ==> self.margin_ratio_initial > 0,
            margin_type == MarginRequirementType::Maintenance ==> self.margin_ratio_maintenance
                > 0,
        ensures
            margin_type == MarginRequirementType::Initial ==> r == MARGIN_PRECISION_U128
                * MARGIN_PRECISION_U128 / (self.margin_ratio_initial as int),
            margin_type == MarginRequirementType::Maintenance ==> r == MARGIN_PRECISION_U128
                * MARGIN_PRECISION_U128 / (self.margin_ratio_maintenance as int),
    {
        match margin_type {
            MarginRequirementType::Initial => MARGIN_PRECISION_U128 * MARGIN_PRECISION_U128
                / (self.margin_ratio_initial as u128),
            MarginRequirementType::Maintenance => MARGIN_PRECISION_U128 * MARGIN_PRECISION_U128
                / (self.margin_ratio_maintenance as u128),
        }
    }

    /// The asset weight applied to unrealized pnl, where it is defined:
    /// the full unit weight for non-positive pnl; for positive pnl under
    /// the initial margin type, the configured initial weight — first
    /// scaled down when aggregate net user pnl exceeds the configured
    /// imbalance ceiling — then discounted by size; for positive pnl
    /// under maintenance, the configured maintenance weight.
    pub open spec fn spec_unrealized_asset_weight(
        self,
        unrealized_pnl: i128,
        margin_type: MarginRequirementType,
    ) -> Option<u32> {
        let base_weight = match margin_type {
            MarginRequirementType::Initial => self.unrealized_pnl_initial_asset_weight,
            MarginRequirementType::Maintenance => self.unrealized_pnl_maintenance_asset_weight,
        };
        match self.spec_imbalance_scaled_weight(base_weight, margin_type) {
            None => None,
            Some(weight) => {
                if unrealized_pnl > 0 {
                    if margin_type == MarginRequirementType::Initial {
                        match abs_i128(unrealized_pnl).checked_mul(AMM_TO_QUOTE_PRECISION_RATIO) {
                            None => None,
                            Some(size) => spec_size_discount_asset_weight(
                                size,
                                self.unrealized_pnl_imf_factor,
                                weight,
                            ),
                        }
                    } else {
                        Some(self.unrealized_pnl_maintenance_asset_weight)
                    }
                } else {
                    Some(SPOT_WEIGHT_PRECISION)
                }
            },
        }
    }

    /// The configured weight, scaled down by `ceiling / net_pnl` when
    /// the aggregate net user pnl exceeds the configured imbalance
    /// ceiling (initial margin type only).
    pub open spec fn spec_imbalance_scaled_weight(
        self,
        base_weight: u32,
        margin_type: MarginRequirementType,
    ) -> Option<u32> {
        if margin_type == MarginRequirementType::Initial && self.unrealized_pnl_max_imbalance > 0 {
            match spec_net_user_pnl(self.amm, self.amm.historical_oracle_data.last_oracle_price) {
                None => None,
                Some(net) => {
                    if net > self.unrealized_pnl_max_imbalance {
                        Some(
                            ((base_weight as u128) * (self.unrealized_pnl_max_imbalance as u128)
                                / (abs_i128(net) as int)) as u32,
                        )
                    } else {
                        Some(base_weight)
                    }
                },
            }
        } else {
            Some(base_weight)
        }
    }

    /// The asset weight for a position's unrealized pnl in the margin
    /// system, in spot-weight precision units. Liabilities are never
    /// discounted: non-positive pnl always carries the full unit weight.
    pub fn get_unrealized_asset_weight(
        &self,
        unrealized_pnl: i128,
        margin_type: MarginRequirementType,
    ) -> (r: DriftResult<u32>)
        ensures
            r is Ok <==> self.spec_unrealized_asset_weight(unrealized_pnl, margin_type) is Some,
            r is Ok ==> r->Ok_0 == self.spec_unrealized_asset_weight(
                unrealized_pnl,
                margin_type,
            )->Some_0,
            r is Err ==> r->Err_0 == ErrorCode::MathError,
            unrealized_pnl <= 0 && r is Ok ==> r->Ok_0 == SPOT_WEIGHT_PRECISION,
            unrealized_pnl <= 0 && (margin_type != MarginRequirementType::Initial
                || self.unrealized_pnl_max_imbalance == 0) ==> r is Ok && r->Ok_0
                == SPOT_WEIGHT_PRECISION,
    {
        let base_weight = match margin_type {
            MarginRequirementType::Initial => self.unrealized_pnl_initial_asset_weight,
            MarginRequirementType::Maintenance => self.unrealized_pnl_maintenance_asset_weight,
        };

        let mut margin_asset_weight = base_weight;
        if matches!(margin_type, MarginRequirementType::Initial)
            && self.unrealized_pnl_max_imbalance > 0 {
            let net_unsettled_pnl = calculate_net_user_pnl(
                &self.amm,
                self.amm.historical_oracle_data.last_oracle_price,
            )?;

            if net_unsettled_pnl > self.unrealized_pnl_max_imbalance as i128 {
                proof {
                    assert((margin_asset_weight as int) * (self.unrealized_pnl_max_imbalance as int)
                        <= u128::MAX) by (nonlinear_arith)
                        requires
                            margin_asset_weight <= u32::MAX,
                            self.unrealized_pnl_max_imbalance <= u64::MAX,
                    ;
                }
                let scaled = (margin_asset_weight as u128) * (self.unrealized_pnl_max_imbalance
                    as u128);
                let net_abs: u128 = net_unsettled_pnl as u128;
                let reduced = scaled / net_abs;
                proof {
                    assert(scaled < (margin_asset_weight as u128 + 1) * net_abs)
                        by (nonlinear_arith)
                        requires
                            scaled == (margin_asset_weight as u128) * (
                            self.unrealized_pnl_max_imbalance as u128),
                            net_abs > self.unrealized_pnl_max_imbalance,
                            self.unrealized_pnl_max_imbalance >= 0,
                            margin_asset_weight >= 0,
                    ;
                    assert(reduced <= margin_asset_weight) by (nonlinear_arith)
                        requires
                            reduced == scaled as int / net_abs as int,
                            scaled < (margin_asset_weight as u128 + 1) * net_abs,
                            net_abs > 0,
                            scaled >= 0,
                            margin_asset_weight >= 0,
                    ;
                }
                margin_asset_weight = reduced as u32;
            }
        }

        if unrealized_pnl > 0 {
            if matches!(margin_type, MarginRequirementType::Initial) {
                let pnl_abs: u128 = unrealized_pnl as u128;
                let size = match pnl_abs.checked_mul(AMM_TO_QUOTE_PRECISION_RATIO) {
                    Some(s) => s,
                    None => {
                        return Err(ErrorCode::MathError);
                    },
                };
                calculate_size_discount_asset_weight(
                    size,
                    self.unrealized_pnl_imf_factor,
                    margin_asset_weight,
                )
            } else {
                Ok(self.unrealized_pnl_maintenance_asset_weight)
            }
        } else {
            Ok(SPOT_WEIGHT_PRECISION)
        }
    }

    /// The market's open interest: the larger of the aggregate long and
    /// aggregate short base exposure.
    pub fn get_open_interest(&self) -> (r: u128)
        ensures
            r == if abs_i128(self.amm.base_asset_amount_long) >= abs_i128(
                self.amm.base_asset_amount_short,
            ) {
                abs_i128(self.amm.base_asset_amount_long)
            } else {
                abs_i128(self.amm.base_asset_amount_short)
            },
    {
        let long_abs: u128 = if self.amm.base_asset_amount_long >= 0 {
            self.amm.base_asset_amount_long as u128
        } else if self.amm.base_asset_amount_long == i128::MIN {
            0x8000_0000_0000_0000_0000_0000_0000_0000
        } else {
            (-self.amm.base_asset_amount_long) as u128
        };
        let short_abs: u128 = if self.amm.base_asset_amount_short >= 0 {
            self.amm.base_asset_amount_short as u128
        } else if self.amm.base_asset_amount_short == i128::MIN {
            0x8000_0000_0000_0000_0000_0000_0000_0000
        } else {
            (-self.amm.base_asset_amount_short) as u128
        };
        if long_abs >= short_abs {
            long_abs
        } else {
            short_abs
        }
    }
}

} // verus!
