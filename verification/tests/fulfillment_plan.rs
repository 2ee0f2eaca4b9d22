use clearing_house::error::ErrorCode;
use clearing_house::fulfillment::{
    determine_perp_fulfillment_methods, determine_spot_fulfillment_methods, do_orders_cross,
    is_amm_available_liquidity_source, Order, PerpFulfillmentMethod, SpotFulfillmentMethod,
};
use clearing_house::ids::AccountKey;
use clearing_house::perp_market::AMM;
use clearing_house::position::PositionDirection;

fn key(n: u128) -> AccountKey {
    AccountKey { hi: 0, lo: n }
}

fn market_order(direction: PositionDirection) -> Order {
    Order {
        slot: 0,
        price: 0,
        base_asset_amount: 1_000,
        direction,
        post_only: false,
        reduce_only: false,
    }
}

fn limit_order(direction: PositionDirection, price: u64) -> Order {
    Order { price, ..market_order(direction) }
}

fn flat_amm() -> AMM {
    // zero spreads: bid == ask == reserve price
    AMM::default_test()
}

#[test]
fn crossing_rules() {
    // a short maker asks; a long taker crosses at or above the ask
    assert!(do_orders_cross(PositionDirection::Short, 100, 100));
    assert!(do_orders_cross(PositionDirection::Short, 100, 101));
    assert!(!do_orders_cross(PositionDirection::Short, 100, 99));
    // a long maker bids; a short taker crosses at or below the bid
    assert!(do_orders_cross(PositionDirection::Long, 100, 99));
    assert!(!do_orders_cross(PositionDirection::Long, 100, 101));
}

#[test]
fn auction_gates_the_amm() {
    let mut order = market_order(PositionDirection::Long);
    order.slot = 100;
    assert!(!is_amm_available_liquidity_source(&order, 10, 105).unwrap());
    assert!(!is_amm_available_liquidity_source(&order, 10, 110).unwrap());
    assert!(is_amm_available_liquidity_source(&order, 10, 111).unwrap());
    assert!(is_amm_available_liquidity_source(&order, 0, 100).unwrap());
    // an order claiming a future slot is a fatal arithmetic error
    assert_eq!(
        is_amm_available_liquidity_source(&order, 10, 99),
        Err(ErrorCode::MathError)
    );
}

#[test]
fn empty_makers_amm_only_plan() {
    // no makers, an eligible AMM, a crossing taker: exactly one
    // open-ended AMM step
    let amm = flat_amm();
    let taker = market_order(PositionDirection::Long);
    let plan = determine_perp_fulfillment_methods(
        &taker,
        &vec![],
        &amm,
        100,
        Some(1_000_000),
        true,
        5,
        0,
        None,
    )
    .unwrap();
    assert_eq!(plan, vec![PerpFulfillmentMethod::AMM(None, None)]);
}

#[test]
fn empty_makers_non_crossing_taker_empty_plan() {
    let amm = flat_amm();
    // long taker limited below the AMM ask of 100: no step at all
    let taker = limit_order(PositionDirection::Long, 99);
    let plan = determine_perp_fulfillment_methods(
        &taker,
        &vec![],
        &amm,
        100,
        Some(1_000_000),
        true,
        5,
        0,
        None,
    )
    .unwrap();
    assert!(plan.is_empty());
}

#[test]
fn amm_segment_inserted_between_makers() {
    // two makers around the AMM ask of 100; the taker's limit crosses
    // both: the maker priced better than the AMM matches first, then an
    // AMM segment capped at the worse maker's price, then that maker
    let amm = flat_amm();
    let taker = limit_order(PositionDirection::Long, 101);
    let makers = vec![(key(1), 0usize, 99u64), (key(2), 1usize, 101u64)];
    let plan = determine_perp_fulfillment_methods(
        &taker,
        &makers,
        &amm,
        100,
        Some(1_000_000),
        true,
        5,
        0,
        None,
    )
    .unwrap();
    assert_eq!(plan[0], PerpFulfillmentMethod::Match(key(1), 0));
    assert_eq!(plan[1], PerpFulfillmentMethod::AMM(Some(101), None));
    assert_eq!(plan[2], PerpFulfillmentMethod::Match(key(2), 1));
    // the advanced AMM price still crosses the taker's limit
    assert_eq!(plan[3], PerpFulfillmentMethod::AMM(None, None));
    assert_eq!(plan.len(), 4);
}

#[test]
fn maker_walk_stops_at_the_first_non_crossing_price() {
    let amm = flat_amm();
    let taker = limit_order(PositionDirection::Long, 100);
    // the second maker asks above the taker's limit; the third is never
    // reached
    let makers = vec![
        (key(1), 0usize, 99u64),
        (key(2), 1usize, 102u64),
        (key(3), 2usize, 98u64),
    ];
    let plan = determine_perp_fulfillment_methods(
        &taker,
        &makers,
        &amm,
        100,
        Some(1_000_000),
        true,
        5,
        0,
        None,
    )
    .unwrap();
    assert_eq!(
        plan,
        vec![
            PerpFulfillmentMethod::Match(key(1), 0),
            PerpFulfillmentMethod::AMM(None, None),
        ]
    );
}

#[test]
fn plan_length_never_exceeds_the_ceiling() {
    let amm = flat_amm();
    let taker = market_order(PositionDirection::Long);
    for maker_count in [0usize, 1, 5, 7, 20, 100] {
        let makers: Vec<(AccountKey, usize, u64)> = (0..maker_count)
            .map(|i| (key(i as u128), i, 150u64))
            .collect();
        let plan = determine_perp_fulfillment_methods(
            &taker,
            &makers,
            &amm,
            100,
            Some(1_000_000),
            true,
            5,
            0,
            None,
        )
        .unwrap();
        assert!(plan.len() <= 10);
    }
}

#[test]
fn invalid_oracle_yields_no_amm_step() {
    // no valid oracle price: only maker matches, whatever the list holds
    let mut amm = flat_amm();
    amm.base_asset_amount_with_amm = -1_000;
    amm.amm_jit_intensity = 100;
    let taker = market_order(PositionDirection::Long);
    let makers = vec![
        (key(1), 0usize, 99u64),
        (key(2), 1usize, 150u64),
        (key(3), 2usize, 200u64),
    ];
    let plan = determine_perp_fulfillment_methods(
        &taker,
        &makers,
        &amm,
        100,
        None,
        true,
        5,
        0,
        Some((100, 50)),
    )
    .unwrap();
    assert_eq!(
        plan,
        vec![
            PerpFulfillmentMethod::Match(key(1), 0),
            PerpFulfillmentMethod::Match(key(2), 1),
            PerpFulfillmentMethod::Match(key(3), 2),
        ]
    );
}

#[test]
fn jit_quote_appends_an_explicit_amm_step() {
    // the AMM is short and wants to absorb a long taker; a nonzero JIT
    // quote becomes an explicit-priced and -sized AMM step
    let mut amm = flat_amm();
    amm.base_asset_amount_with_amm = -1_000;
    amm.amm_jit_intensity = 100;
    let taker = market_order(PositionDirection::Long);
    let plan = determine_perp_fulfillment_methods(
        &taker,
        &vec![],
        &amm,
        100,
        Some(1_000_000),
        true,
        5,
        0,
        Some((99, 40)),
    )
    .unwrap();
    assert_eq!(
        plan,
        vec![
            PerpFulfillmentMethod::AMM(Some(99), Some(40)),
            PerpFulfillmentMethod::AMM(None, None),
        ]
    );
    // a zero-sized quote adds nothing
    let plan_zero = determine_perp_fulfillment_methods(
        &taker,
        &vec![],
        &amm,
        100,
        Some(1_000_000),
        true,
        5,
        0,
        Some((99, 0)),
    )
    .unwrap();
    assert_eq!(plan_zero, vec![PerpFulfillmentMethod::AMM(None, None)]);
    // the JIT step is gated on the oracle and the exposure sign, not
    // on the amm-availability flag: with the AMM unavailable the quote
    // still lands (and nothing else does)
    let plan_unavailable = determine_perp_fulfillment_methods(
        &taker,
        &vec![],
        &amm,
        100,
        Some(1_000_000),
        false,
        5,
        0,
        Some((99, 40)),
    )
    .unwrap();
    assert_eq!(
        plan_unavailable,
        vec![PerpFulfillmentMethod::AMM(Some(99), Some(40))]
    );
    // an AMM already long the taker's way does not want to make
    let mut amm_long = flat_amm();
    amm_long.base_asset_amount_with_amm = 1_000;
    amm_long.amm_jit_intensity = 100;
    let plan_wrong_side = determine_perp_fulfillment_methods(
        &taker,
        &vec![],
        &amm_long,
        100,
        Some(1_000_000),
        true,
        5,
        0,
        Some((99, 40)),
    )
    .unwrap();
    assert_eq!(plan_wrong_side, vec![PerpFulfillmentMethod::AMM(None, None)]);
}

#[test]
fn short_taker_walks_the_bid_side() {
    let amm = flat_amm();
    let taker = limit_order(PositionDirection::Short, 99);
    // bidders below the AMM bid of 100 trigger a capped AMM segment
    let makers = vec![(key(7), 3usize, 99u64)];
    let plan = determine_perp_fulfillment_methods(
        &taker,
        &makers,
        &amm,
        100,
        Some(1_000_000),
        true,
        5,
        0,
        None,
    )
    .unwrap();
    assert_eq!(
        plan,
        vec![
            PerpFulfillmentMethod::AMM(Some(99), None),
            PerpFulfillmentMethod::Match(key(7), 3),
            PerpFulfillmentMethod::AMM(None, None),
        ]
    );
}

#[test]
fn spot_fulfillment_combinations() {
    let taker = market_order(PositionDirection::Long);
    assert_eq!(
        determine_spot_fulfillment_methods(&taker, true, true).unwrap(),
        vec![SpotFulfillmentMethod::Match, SpotFulfillmentMethod::SerumV3]
    );
    assert_eq!(
        determine_spot_fulfillment_methods(&taker, true, false).unwrap(),
        vec![SpotFulfillmentMethod::Match]
    );
    assert_eq!(
        determine_spot_fulfillment_methods(&taker, false, true).unwrap(),
        vec![SpotFulfillmentMethod::SerumV3]
    );
    assert!(determine_spot_fulfillment_methods(&taker, false, false)
        .unwrap()
        .is_empty());

    let mut post_only = market_order(PositionDirection::Long);
    post_only.post_only = true;
    // a post-only taker never routes to the external book
    assert_eq!(
        determine_spot_fulfillment_methods(&post_only, true, true).unwrap(),
        vec![SpotFulfillmentMethod::Match]
    );
}
