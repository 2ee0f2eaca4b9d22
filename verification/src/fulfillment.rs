//! Order-fulfillment routing: which ordered sequence of counterparties
//! (AMM, resting makers, just-in-time AMM liquidity) should fill an
//! incoming taker order.
//!
//! The maker walk is modelled as a fold over the price-sorted maker list
//! carrying the AMM's effective bid/ask and the steps emitted so far: the
//! AMM price is advanced within one planning pass but never written back
//! to the real curve.

use vstd::prelude::*;

use crate::error::{DriftResult, ErrorCode};
use crate::ids::AccountKey;
use crate::perp_market::AMM;
use crate::position::PositionDirection;

verus! {

/// A taker or maker order. A zero price means the order has no limit
/// price (a pure market order).
#[derive(Clone, Copy, Debug, PartialEq, Eq, Structural)]
pub struct Order {
    /// the slot the order was placed in (starts its auction)
    pub slot: u64,
    /// limit price in price-precision units; 0 = no limit
    pub price: u64,
    pub base_asset_amount: u64,
    pub direction: PositionDirection,
    pub post_only: bool,
    pub reduce_only: bool,
}

impl Order {
    /// The order's limit price, absent for a pure market order.
    pub open spec fn spec_limit_price(self) -> Option<u64> {
        if self.price > 0 {
            Some(self.price)
        } else {
            None
        }
    }

    /// The order's limit price, absent for a pure market order.
    pub fn get_limit_price(&self) -> (r: Option<u64>)
        ensures
            r == self.spec_limit_price(),
    {
        if self.price > 0 {
            Some(self.price)
        } else {
            None
        }
    }
}

/// One step of a perp fulfillment plan.
#[derive(Clone, Copy, Debug, PartialEq, Eq, Structural)]
pub enum PerpFulfillmentMethod {
    /// Fill against the AMM: an optional price cap and an optional
    /// explicit size. `AMM(None, None)` is the open-ended "fill the
    /// remainder at the prevailing price" step.
    AMM(Option<u64>, Option<u64>),
    /// Match against the resting order `maker_order_index` of the maker
    /// account.
    Match(AccountKey, u16),
}

/// One step of a spot fulfillment plan.
#[derive(Clone, Copy, Debug, PartialEq, Eq, Structural)]
pub enum SpotFulfillmentMethod {
    /// match against a resting maker order
    Match,
    /// route to the external order book
    SerumV3,
}

/// Whether a taker at `taker_price` crosses a maker quoting
/// `maker_price` on the given maker side.
pub open spec fn spec_do_orders_cross(
    maker_direction: PositionDirection,
    maker_price: u64,
    taker_price: u64,
) -> bool {
    match maker_direction {
        PositionDirection::Long => taker_price <= maker_price,
        PositionDirection::Short => taker_price >= maker_price,
    }
}

/// A maker bidding at or above the taker's sale price, or asking at or
/// below the taker's purchase price, crosses it.
pub fn do_orders_cross(
    maker_direction: PositionDirection,
    maker_price: u64,
    taker_price: u64,
) -> (r: bool)
    ensures
        r == spec_do_orders_cross(maker_direction, maker_price, taker_price),
{
    match maker_direction {
        PositionDirection::Long => taker_price <= maker_price,
        PositionDirection::Short => taker_price >= maker_price,
    }
}

/// Whether the auction of an order placed at `order_slot` has run for
/// more than `auction_duration` slots by `slot`; nothing where the order
/// claims a future slot.
pub open spec fn spec_is_auction_complete(order_slot: u64, auction_duration: u8, slot: u64) -> Option<
    bool,
> {
    if auction_duration == 0 {
        Some(true)
    } else {
        match slot.checked_sub(order_slot) {
            None => None,
            Some(elapsed) => Some(elapsed > auction_duration as u64),
        }
    }
}

/// An order's auction is complete once more than `auction_duration`
/// slots have elapsed since it was placed; an order with no auction is
/// always complete.
pub fn is_auction_complete(order_slot: u64, auction_duration: u8, slot: u64) -> (r: DriftResult<
    bool,
>)
    ensures
        r is Ok <==> spec_is_auction_complete(order_slot, auction_duration, slot) is Some,
        r is Ok ==> r->Ok_0 == spec_is_auction_complete(order_slot, auction_duration, slot)->Some_0,
        r is Err ==> r->Err_0 == ErrorCode::MathError,
{
    if auction_duration == 0 {
        return Ok(true);
    }
    match slot.checked_sub(order_slot) {
        Some(elapsed) => Ok(elapsed > auction_duration as u64),
        None => Err(ErrorCode::MathError),
    }
}

/// The taker's auction-gating rule: the AMM may fill the order at this
/// slot once the order's auction window has passed.
pub fn is_amm_available_liquidity_source(
    order: &Order,
    min_auction_duration: u8,
    slot: u64,
) -> (r: DriftResult<bool>)
    ensures
        r is Ok <==> spec_is_auction_complete(order.slot, min_auction_duration, slot) is Some,
        r is Ok ==> r->Ok_0 == spec_is_auction_complete(order.slot, min_auction_duration, slot)->Some_0,
        r is Err ==> r->Err_0 == ErrorCode::MathError,
{
    is_auction_complete(order.slot, min_auction_duration, slot)
}

/// Whether an AMM fill is permitted at all for this evaluation: the AMM
/// must be available, a valid oracle price must exist, and the taker's
/// auction must permit it.
pub open spec fn spec_can_fill_with_amm(
    order: Order,
    min_auction_duration: u8,
    slot: u64,
    amm_is_available: bool,
    valid_oracle_price: Option<i64>,
) -> Option<bool> {
    if amm_is_available && valid_oracle_price is Some {
        spec_is_auction_complete(order.slot, min_auction_duration, slot)
    } else {
        Some(false)
    }
}

/// The maker-walk phase of the plan: walk `makers` in priority order,
/// stopping once the taker no longer crosses or once the step cap is
/// passed; before each maker that beats the AMM's current price, insert
/// an AMM step capped at the maker's price and advance the AMM's
/// effective price. Returns the steps emitted and the final effective
/// bid and ask.
pub open spec fn spec_maker_phase(
    makers: Seq<(AccountKey, usize, u64)>,
    taker_direction: PositionDirection,
    taker_price: Option<u64>,
    can_fill_with_amm: bool,
    amm_bid: u64,
    amm_ask: u64,
    count: nat,
) -> (Seq<PerpFulfillmentMethod>, u64, u64)
    decreases makers.len(),
{
    if makers.len() == 0 || count > 6 {
        (Seq::<PerpFulfillmentMethod>::empty(), amm_bid, amm_ask)
    } else {
        let maker_key = makers[0].0;
        let maker_order_index = makers[0].1;
        let maker_price = makers[0].2;
        let maker_direction = taker_direction.spec_opposite();
        let crosses = match taker_price {
            Some(tp) => spec_do_orders_cross(maker_direction, maker_price, tp),
            None => true,
        };
        if !crosses {
            (Seq::<PerpFulfillmentMethod>::empty(), amm_bid, amm_ask)
        } else {
            let maker_better_than_amm = match taker_direction {
                PositionDirection::Long => maker_price <= amm_ask,
                PositionDirection::Short => maker_price >= amm_bid,
            };
            let amm_step = can_fill_with_amm && !maker_better_than_amm;
            let new_bid: u64 = if amm_step && taker_direction == PositionDirection::Short {
                maker_price
            } else {
                amm_bid
            };
            let new_ask: u64 = if amm_step && taker_direction == PositionDirection::Long {
                maker_price
            } else {
                amm_ask
            };
            let steps_here: Seq<PerpFulfillmentMethod> = if amm_step {
                seq![
                    PerpFulfillmentMethod::AMM(Some(maker_price), None),
                    PerpFulfillmentMethod::Match(maker_key, maker_order_index as u16),
                ]
            } else {
                seq![PerpFulfillmentMethod::Match(maker_key, maker_order_index as u16)]
            };
            let rest = spec_maker_phase(
                makers.drop_first(),
                taker_direction,
                taker_price,
                can_fill_with_amm,
                new_bid,
                new_ask,
                count + steps_here.len(),
            );
            (steps_here + rest.0, rest.1, rest.2)
        }
    }
}

/// The just-in-time step of the plan: where the AMM's net exposure sign
/// favors absorbing the taker's flow, JIT liquidity is enabled, a valid
/// oracle price exists, and the pluggable JIT sizing capability produced
/// a quote of nonzero size, one explicit-priced and -sized AMM step.
pub open spec fn spec_jit_phase(
    taker_direction: PositionDirection,
    amm: AMM,
    valid_oracle_price: Option<i64>,
    jit_quote: Option<(u64, u64)>,
) -> Seq<PerpFulfillmentMethod> {
    let amm_wants_to_make = (match taker_direction {
        PositionDirection::Long => amm.base_asset_amount_with_amm < 0,
        PositionDirection::Short => amm.base_asset_amount_with_amm > 0,
    }) && amm.amm_jit_intensity > 0;
    if amm_wants_to_make && valid_oracle_price is Some && jit_quote is Some
        && jit_quote->Some_0.1 > 0 {
        seq![
            PerpFulfillmentMethod::AMM(
                Some(jit_quote->Some_0.0),
                Some(jit_quote->Some_0.1),
            ),
        ]
    } else {
        Seq::<PerpFulfillmentMethod>::empty()
    }
}

/// The trailing segment of the plan: where an AMM fill is permitted and
/// the AMM's (possibly advanced) price on the taker's side still crosses
/// the taker's limit, one final open-ended AMM step.
pub open spec fn spec_trailing_phase(
    taker_direction: PositionDirection,
    taker_price: Option<u64>,
    can_fill_with_amm: bool,
    final_bid: u64,
    final_ask: u64,
) -> Seq<PerpFulfillmentMethod> {
    if can_fill_with_amm {
        let maker_direction = taker_direction.spec_opposite();
        let amm_price = match maker_direction {
            PositionDirection::Long => final_bid,
            PositionDirection::Short => final_ask,
        };
        let crosses = match taker_price {
            Some(tp) => spec_do_orders_cross(maker_direction, amm_price, tp),
            None => true,
        };
        if crosses {
            seq![PerpFulfillmentMethod::AMM(None::<u64>, None::<u64>)]
        } else {
            Seq::<PerpFulfillmentMethod>::empty()
        }
    } else {
        Seq::<PerpFulfillmentMethod>::empty()
    }
}

/// The full fulfillment plan: the maker walk, then the JIT step, then
/// the trailing open-ended AMM step, from the given starting bid/ask.
pub open spec fn spec_perp_fulfillment_plan(
    taker: Order,
    makers: Seq<(AccountKey, usize, u64)>,
    amm: AMM,
    can_fill_with_amm: bool,
    valid_oracle_price: Option<i64>,
    jit_quote: Option<(u64, u64)>,
    amm_bid: u64,
    amm_ask: u64,
) -> Seq<PerpFulfillmentMethod> {
    let taker_price = taker.spec_limit_price();
    let walk = spec_maker_phase(
        makers,
        taker.direction,
        taker_price,
        can_fill_with_amm,
        amm_bid,
        amm_ask,
        0,
    );
    walk.0 + spec_jit_phase(taker.direction, amm, valid_oracle_price, jit_quote)
        + spec_trailing_phase(taker.direction, taker_price, can_fill_with_amm, walk.1, walk.2)
}

/// The maker walk emits at most `8 - count` steps (none once the cap is
/// passed).
proof fn lemma_maker_phase_len(
    makers: Seq<(AccountKey, usize, u64)>,
    taker_direction: PositionDirection,
    taker_price: Option<u64>,
    can_fill_with_amm: bool,
    amm_bid: u64,
    amm_ask: u64,
    count: nat,
)
    ensures
        spec_maker_phase(
            makers,
            taker_direction,
            taker_price,
            can_fill_with_amm,
            amm_bid,
            amm_ask,
            count,
        ).0.len() <= if count > 6 {
            0int
        } else {
            8 - count
        },
    decreases makers.len(),
{
    if makers.len() == 0 || count > 6 {
    } else {
        let maker_price = makers[0].2;
        let maker_direction = taker_direction.spec_opposite();
        let crosses = match taker_price {
            Some(tp) => spec_do_orders_cross(maker_direction, maker_price, tp),
            None => true,
        };
        if crosses {
            let maker_better_than_amm = match taker_direction {
                PositionDirection::Long => maker_price <= amm_ask,
                PositionDirection::Short => maker_price >= amm_bid,
            };
            let amm_step = can_fill_with_amm && !maker_better_than_amm;
            let new_bid: u64 = if amm_step && taker_direction == PositionDirection::Short {
                maker_price
            } else {
                amm_bid
            };
            let new_ask: u64 = if amm_step && taker_direction == PositionDirection::Long {
                maker_price
            } else {
                amm_ask
            };
            let delta: nat = if amm_step {
                2nat
            } else {
                1nat
            };
            lemma_maker_phase_len(
                makers.drop_first(),
                taker_direction,
                taker_price,
                can_fill_with_amm,
                new_bid,
                new_ask,
                count + delta,
            );
        }
    }
}

/// Without AMM eligibility the maker walk emits only `Match` steps.
proof fn lemma_maker_phase_all_match(
    makers: Seq<(AccountKey, usize, u64)>,
    taker_direction: PositionDirection,
    taker_price: Option<u64>,
    amm_bid: u64,
    amm_ask: u64,
    count: nat,
)
    ensures
        forall|k: int|
            0 <= k < spec_maker_phase(
                makers,
                taker_direction,
                taker_price,
                false,
                amm_bid,
                amm_ask,
                count,
            ).0.len() ==> spec_maker_phase(
                makers,
                taker_direction,
                taker_price,
                false,
                amm_bid,
                amm_ask,
                count,
            ).0[k] is Match,
    decreases makers.len(),
{
    if makers.len() == 0 || count > 6 {
    } else {
        lemma_maker_phase_all_match(
            makers.drop_first(),
            taker_direction,
            taker_price,
            amm_bid,
            amm_ask,
            count + 1,
        );
    }
}

/// When the oracle is invalid, the plan holds no AMM-sourced step at
/// all, whatever the maker list holds: the maker walk emits only
/// matches, and the JIT and trailing phases are empty.
pub proof fn lemma_plan_all_match_without_oracle(
    taker: Order,
    makers: Seq<(AccountKey, usize, u64)>,
    amm: AMM,
    jit_quote: Option<(u64, u64)>,
    amm_bid: u64,
    amm_ask: u64,
)
    ensures
        forall|k: int|
            0 <= k < spec_perp_fulfillment_plan(
                taker,
                makers,
                amm,
                false,
                None::<i64>,
                jit_quote,
                amm_bid,
                amm_ask,
            ).len() ==> spec_perp_fulfillment_plan(
                taker,
                makers,
                amm,
                false,
                None::<i64>,
                jit_quote,
                amm_bid,
                amm_ask,
            )[k] is Match,
{
    let taker_price = taker.spec_limit_price();
    lemma_maker_phase_all_match(makers, taker.direction, taker_price, amm_bid, amm_ask, 0);
    let walk = spec_maker_phase(makers, taker.direction, taker_price, false, amm_bid, amm_ask, 0);
    assert(spec_jit_phase(taker.direction, amm, None::<i64>, jit_quote)
        =~= Seq::<PerpFulfillmentMethod>::empty());
    assert(spec_trailing_phase(taker.direction, taker_price, false, walk.1, walk.2)
        =~= Seq::<PerpFulfillmentMethod>::empty());
}

/// With no makers, an eligible AMM, a crossing (or market) taker, and no
/// JIT quote in play, the plan is exactly one open-ended AMM step.
pub proof fn lemma_empty_makers_amm_only_plan(
    taker: Order,
    amm: AMM,
    valid_oracle_price: Option<i64>,
    jit_quote: Option<(u64, u64)>,
    amm_bid: u64,
    amm_ask: u64,
)
    requires
        spec_jit_phase(taker.direction, amm, valid_oracle_price, jit_quote)
            =~= Seq::<PerpFulfillmentMethod>::empty(),
        (match taker.spec_limit_price() {
            Some(tp) => spec_do_orders_cross(
                taker.direction.spec_opposite(),
                match taker.direction.spec_opposite() {
                    PositionDirection::Long => amm_bid,
                    PositionDirection::Short => amm_ask,
                },
                tp,
            ),
            None => true,
        }),
    ensures
        spec_perp_fulfillment_plan(
            taker,
            Seq::<(AccountKey, usize, u64)>::empty(),
            amm,
            true,
            valid_oracle_price,
            jit_quote,
            amm_bid,
            amm_ask,
        ) =~= seq![PerpFulfillmentMethod::AMM(None::<u64>, None::<u64>)],
{
    let makers = Seq::<(AccountKey, usize, u64)>::empty();
    let taker_price = taker.spec_limit_price();
    let walk = spec_maker_phase(makers, taker.direction, taker_price, true, amm_bid, amm_ask, 0);
    assert(walk.0 =~= Seq::<PerpFulfillmentMethod>::empty());
    assert(walk.1 == amm_bid && walk.2 == amm_ask);
}

/// Decide, per incoming taker order, the ordered bounded sequence of
/// counterparties that should fill it: capped and open-ended AMM
/// segments, maker matches, and an optional just-in-time AMM quote
/// supplied by the caller's sizing capability.
///
/// The plan never exceeds ten steps. With no valid oracle price it holds
/// no AMM-sourced step at all.
pub fn determine_perp_fulfillment_methods(
    taker_order: &Order,
    maker_orders_info: &Vec<(AccountKey, usize, u64)>,
    amm: &AMM,
    amm_reserve_price: u64,
    valid_oracle_price: Option<i64>,
    amm_is_available: bool,
    slot: u64,
    min_auction_duration: u8,
    jit_quote: Option<(u64, u64)>,
) -> (r: DriftResult<Vec<PerpFulfillmentMethod>>)
    ensures
        r is Ok <==> (spec_can_fill_with_amm(
            *taker_order,
            min_auction_duration,
            slot,
            amm_is_available,
            valid_oracle_price,
        ) is Some && amm.spec_bid_ask_ok(amm_reserve_price)),
        r is Ok ==> r->Ok_0@ == spec_perp_fulfillment_plan(
            *taker_order,
            maker_orders_info@,
            *amm,
            spec_can_fill_with_amm(
                *taker_order,
                min_auction_duration,
                slot,
                amm_is_available,
                valid_oracle_price,
            )->Some_0,
            valid_oracle_price,
            jit_quote,
            amm.spec_bid_value(amm_reserve_price),
            amm.spec_ask_value(amm_reserve_price),
        ),
        r is Ok ==> r->Ok_0@.len() <= 10,
        r is Ok && valid_oracle_price is None ==> forall|k: int|
            0 <= k < r->Ok_0@.len() ==> r->Ok_0@[k] is Match,
        r is Err ==> r->Err_0 == ErrorCode::MathError,
{
    let can_fill_with_amm: bool = if amm_is_available && valid_oracle_price.is_some() {
        is_amm_available_liquidity_source(taker_order, min_auction_duration, slot)?
    } else {
        false
    };

    let taker_price = taker_order.get_limit_price();
    let taker_direction = taker_order.direction;
    let maker_direction = taker_direction.opposite();

    let bid_ask = amm.bid_ask_price(amm_reserve_price)?;
    let mut amm_bid_price: u64 = bid_ask.0;
    let mut amm_ask_price: u64 = bid_ask.1;

    let ghost full_walk = spec_maker_phase(
        maker_orders_info@,
        taker_direction,
        taker_price,
        can_fill_with_amm,
        amm_bid_price,
        amm_ask_price,
        0,
    );

    let mut fulfillment_methods: Vec<PerpFulfillmentMethod> = Vec::new();
    let mut i: usize = 0;
    let n: usize = maker_orders_info.len();

    proof {
        assert(maker_orders_info@.skip(0) =~= maker_orders_info@);
    }

    while i < n
        invariant_except_break
            i <= n,
            n == maker_orders_info@.len(),
            maker_direction == taker_direction.spec_opposite(),
            fulfillment_methods@.len() <= 6,
            ({
                let suffix = spec_maker_phase(
                    maker_orders_info@.skip(i as int),
                    taker_direction,
                    taker_price,
                    can_fill_with_amm,
                    amm_bid_price,
                    amm_ask_price,
                    fulfillment_methods@.len() as nat,
                );
                full_walk.0 == fulfillment_methods@ + suffix.0 && full_walk.1 == suffix.1
                    && full_walk.2 == suffix.2
            }),
        ensures
            full_walk.0 == fulfillment_methods@ && full_walk.1 == amm_bid_price && full_walk.2
                == amm_ask_price,
        decreases n - i,
    {
        let ghost i0 = i as int;
        let ghost pre_methods = fulfillment_methods@;
        let ghost pre_bid = amm_bid_price;
        let ghost pre_ask = amm_ask_price;
        let ghost pre_suffix = spec_maker_phase(
            maker_orders_info@.skip(i0),
            taker_direction,
            taker_price,
            can_fill_with_amm,
            pre_bid,
            pre_ask,
            pre_methods.len() as nat,
        );
        proof {
            assert(maker_orders_info@.skip(i as int).len() > 0);
            assert(maker_orders_info@.skip(i as int)[0] == maker_orders_info@[i as int]);
            assert(maker_orders_info@.skip(i as int).drop_first() =~= maker_orders_info@.skip(
                i as int + 1,
            ));
        }

        let maker = maker_orders_info[i];
        let maker_key = maker.0;
        let maker_order_index = maker.1;
        let maker_price = maker.2;

        let taker_crosses_maker = match taker_price {
            Some(tp) => do_orders_cross(maker_direction, maker_price, tp),
            None => true,
        };

        if !taker_crosses_maker {
            proof {
                assert(maker_orders_info@.skip(i as int)[0].2 == maker_price);
                assert(pre_suffix.0 =~= Seq::<PerpFulfillmentMethod>::empty());
                assert(full_walk.0 =~= fulfillment_methods@);
            }
            break ;
        }

        if can_fill_with_amm {
            let maker_better_than_amm = match taker_direction {
                PositionDirection::Long => maker_price <= amm_ask_price,
                PositionDirection::Short => maker_price >= amm_bid_price,
            };
            if !maker_better_than_amm {
                fulfillment_methods.push(
                    PerpFulfillmentMethod::AMM(Some(maker_price), None),
                );
                match taker_direction {
                    PositionDirection::Long => {
                        amm_ask_price = maker_price;
                    },
                    PositionDirection::Short => {
                        amm_bid_price = maker_price;
                    },
                }
            }
        }

        fulfillment_methods.push(
            PerpFulfillmentMethod::Match(maker_key, maker_order_index as u16),
        );

        i = i + 1;

        if fulfillment_methods.len() > 6 {
            proof {
                let tail = spec_maker_phase(
                    maker_orders_info@.skip(i as int),
                    taker_direction,
                    taker_price,
                    can_fill_with_amm,
                    amm_bid_price,
                    amm_ask_price,
                    fulfillment_methods@.len() as nat,
                );
                assert(tail.0 =~= Seq::<PerpFulfillmentMethod>::empty());
                assert(full_walk.0 =~= fulfillment_methods@);
            }
            break ;
        }
    }

    proof {
        lemma_maker_phase_len(
            maker_orders_info@,
            taker_direction,
            taker_price,
            can_fill_with_amm,
            amm.spec_bid_value(amm_reserve_price),
            amm.spec_ask_value(amm_reserve_price),
            0,
        );
    }

    {
        let amm_wants_to_make = (match taker_direction {
            PositionDirection::Long => amm.base_asset_amount_with_amm < 0,
            PositionDirection::Short => amm.base_asset_amount_with_amm > 0,
        }) && amm.amm_jit_is_active();

        if amm_wants_to_make && valid_oracle_price.is_some() {
            if let Some(quote) = jit_quote {
                let jit_price = quote.0;
                let jit_size = quote.1;
                if jit_size > 0 {
                    fulfillment_methods.push(
                        PerpFulfillmentMethod::AMM(Some(jit_price), Some(jit_size)),
                    );
                }
            }
        }
    }

    if can_fill_with_amm {
        let amm_price = match maker_direction {
            PositionDirection::Long => amm_bid_price,
            PositionDirection::Short => amm_ask_price,
        };

        let taker_crosses_amm = match taker_price {
            Some(tp) => do_orders_cross(maker_direction, amm_price, tp),
            None => true,
        };

        if taker_crosses_amm {
            fulfillment_methods.push(PerpFulfillmentMethod::AMM(None, None));
        }
    }

    proof {
        if valid_oracle_price is None {
            lemma_maker_phase_all_match(
                maker_orders_info@,
                taker_direction,
                taker_price,
                amm.spec_bid_value(amm_reserve_price),
                amm.spec_ask_value(amm_reserve_price),
                0,
            );
        }
    }

    Ok(fulfillment_methods)
}

/// Decide the ordered fulfillment options for a spot taker order:
/// a maker match where a maker is available, then the external order
/// book where the taker is not post-only and the integration is
/// available. No AMM option exists for spot instruments.
pub fn determine_spot_fulfillment_methods(
    taker_order: &Order,
    maker_available: bool,
    serum_fulfillment_params_available: bool,
) -> (r: DriftResult<Vec<SpotFulfillmentMethod>>)
    ensures
        r is Ok,
        r->Ok_0@ == (if maker_available {
            seq![SpotFulfillmentMethod::Match]
        } else {
            Seq::<SpotFulfillmentMethod>::empty()
        }) + (if !taker_order.post_only && serum_fulfillment_params_available {
            seq![SpotFulfillmentMethod::SerumV3]
        } else {
            Seq::<SpotFulfillmentMethod>::empty()
        }),
{
    let mut fulfillment_methods: Vec<SpotFulfillmentMethod> = Vec::new();

    if maker_available {
        fulfillment_methods.push(SpotFulfillmentMethod::Match);
    }

    if !taker_order.post_only && serum_fulfillment_params_available {
        fulfillment_methods.push(SpotFulfillmentMethod::SerumV3);
    }

    proof {
        assert(fulfillment_methods@ =~= (if maker_available {
            seq![SpotFulfillmentMethod::Match]
        } else {
            Seq::<SpotFulfillmentMethod>::empty()
        }) + (if !taker_order.post_only && serum_fulfillment_params_available {
            seq![SpotFulfillmentMethod::SerumV3]
        } else {
            Seq::<SpotFulfillmentMethod>::empty()
        }));
    }

    Ok(fulfillment_methods)
}

} // verus!
