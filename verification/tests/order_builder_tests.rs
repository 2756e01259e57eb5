use std::sync::Arc;
use ultra_fast_manual_trading_execution_bot::order_builder::{BuildError, OrderPreBuilder};
use ultra_fast_manual_trading_execution_bot::orderbook::{OrderBook, OrderSide, OrderType};
use ultra_fast_manual_trading_execution_bot::prepared_orders::{PreparedOrder, PreparedOrders};

fn bits(x: f64) -> u64 {
    x.to_bits()
}

fn val(b: u64) -> f64 {
    f64::from_bits(b)
}

fn orderbook_with_asks(pairs: &[(f64, f64)]) -> OrderBook {
    let mut ob = OrderBook::new("test".to_string());
    for &(price, size) in pairs {
        ob.update_ask(bits(price), bits(size));
    }
    ob
}

fn orderbook_with_bids(pairs: &[(f64, f64)]) -> OrderBook {
    let mut ob = OrderBook::new("test".to_string());
    for &(price, size) in pairs {
        ob.update_bid(bits(price), bits(size));
    }
    ob
}

#[test]
fn test_build_orders_success() {
    let builder = OrderPreBuilder::new(bits(1.0));
    let goal_ob = orderbook_with_asks(&[(0.95, 100.0)]);
    let match_ob = orderbook_with_asks(&[(0.85, 50.0)]);

    let result = builder.build_orders_for_match("m1", "goal", "match", &goal_ob, &match_ob);
    assert!(result.is_ok());

    let orders = result.unwrap();
    assert_eq!(orders.match_id, "m1");
    assert_eq!(orders.goal_market_order.market_id, "goal");
    assert_eq!(orders.match_result_order.market_id, "match");
}

#[test]
fn test_build_orders_goal_market_order_type() {
    let builder = OrderPreBuilder::new(bits(1.0));
    let goal_ob = orderbook_with_asks(&[(0.95, 100.0)]);
    let match_ob = orderbook_with_asks(&[(0.85, 50.0)]);

    let orders = builder.build_orders_for_match("m1", "goal", "match", &goal_ob, &match_ob).unwrap();

    match orders.goal_market_order.order_type {
        OrderType::Market => {}
        _ => panic!("Goal order should be Market type"),
    }
    assert_eq!(orders.goal_market_order.side, OrderSide::Buy);
    assert_eq!(val(orders.goal_market_order.size), 100.0);
    assert!(orders.goal_market_order.price.is_none());
}

#[test]
fn test_build_orders_match_order_type() {
    let builder = OrderPreBuilder::new(bits(1.0));
    let goal_ob = orderbook_with_asks(&[(0.95, 100.0)]);
    let match_ob = orderbook_with_asks(&[(0.85, 50.0)]);

    let orders = builder.build_orders_for_match("m1", "goal", "match", &goal_ob, &match_ob).unwrap();

    match orders.match_result_order.order_type {
        OrderType::Limit { price } => assert_eq!(val(price), 0.85),
        _ => panic!("Match order should be Limit type"),
    }
    assert_eq!(orders.match_result_order.side, OrderSide::Buy);
    assert_eq!(val(orders.match_result_order.size), 50.0);
    assert_eq!(orders.match_result_order.price.map(val), Some(0.85));
}

#[test]
fn test_build_orders_goal_no_liquidity() {
    let builder = OrderPreBuilder::new(bits(1.0));
    let goal_ob = OrderBook::new("goal".to_string());
    let match_ob = orderbook_with_asks(&[(0.85, 50.0)]);

    let result = builder.build_orders_for_match("m1", "goal", "match", &goal_ob, &match_ob);
    assert!(result.is_err());
    assert!(result.err().unwrap().message().contains("No ask liquidity"));
}

#[test]
fn test_build_orders_match_no_liquidity() {
    let builder = OrderPreBuilder::new(bits(1.0));
    let goal_ob = orderbook_with_asks(&[(0.95, 100.0)]);
    let match_ob = OrderBook::new("match".to_string());

    let result = builder.build_orders_for_match("m1", "goal", "match", &goal_ob, &match_ob);
    assert!(result.is_err());
    assert!(result.err().unwrap().message().contains("No orders available"));
}

#[test]
fn test_build_orders_price_exceeds_limit() {
    let builder = OrderPreBuilder::new(bits(0.80));
    let goal_ob = orderbook_with_asks(&[(0.95, 100.0)]);
    let match_ob = orderbook_with_asks(&[(0.85, 50.0)]);

    let result = builder.build_orders_for_match("m1", "goal", "match", &goal_ob, &match_ob);
    assert!(result.is_err());
    assert!(result.err().unwrap().message().contains("above max price limit"));
}

#[test]
fn test_build_orders_goal_zero_size() {
    let builder = OrderPreBuilder::new(bits(1.0));
    let goal_ob = orderbook_with_asks(&[(0.95, 0.0)]);
    let match_ob = orderbook_with_asks(&[(0.85, 50.0)]);

    let result = builder.build_orders_for_match("m1", "goal", "match", &goal_ob, &match_ob);
    assert!(result.is_err());
}

#[test]
fn test_build_orders_match_zero_size() {
    let builder = OrderPreBuilder::new(bits(1.0));
    let goal_ob = orderbook_with_asks(&[(0.95, 100.0)]);
    let match_ob = orderbook_with_asks(&[(0.85, 0.0)]);

    let result = builder.build_orders_for_match("m1", "goal", "match", &goal_ob, &match_ob);
    assert!(result.is_err());
}

#[test]
fn test_build_orders_picks_lowest_goal_ask() {
    let builder = OrderPreBuilder::new(bits(1.0));
    let goal_ob = orderbook_with_asks(&[(1.10, 200.0), (0.90, 100.0), (0.95, 50.0)]);
    let match_ob = orderbook_with_asks(&[(0.85, 50.0)]);

    let orders = builder.build_orders_for_match("m1", "goal", "match", &goal_ob, &match_ob).unwrap();
    // Should pick the lowest ask (0.90) for the goal market order
    assert_eq!(val(orders.goal_market_order.size), 100.0);
}

#[test]
fn test_build_orders_picks_lowest_match_ask() {
    let builder = OrderPreBuilder::new(bits(1.0));
    let goal_ob = orderbook_with_asks(&[(0.95, 100.0)]);
    let match_ob = orderbook_with_asks(&[(0.90, 30.0), (0.80, 50.0), (0.85, 20.0)]);

    let orders = builder.build_orders_for_match("m1", "goal", "match", &goal_ob, &match_ob).unwrap();
    // Should pick the lowest ask (0.80) for the match limit order
    assert_eq!(orders.match_result_order.price.map(val), Some(0.80));
    assert_eq!(val(orders.match_result_order.size), 50.0);
}

#[test]
fn test_build_orders_at_price_limit_boundary() {
    let builder = OrderPreBuilder::new(bits(0.85));
    let goal_ob = orderbook_with_asks(&[(0.95, 100.0)]);
    let match_ob = orderbook_with_asks(&[(0.85, 50.0)]);

    let result = builder.build_orders_for_match("m1", "goal", "match", &goal_ob, &match_ob);
    assert!(result.is_ok());
    assert_eq!(result.ok().unwrap().match_result_order.price.map(val), Some(0.85));
}

#[test]
fn test_update_orders_on_market_data_success() {
    let builder = OrderPreBuilder::new(bits(1.0));
    let goal_ob = orderbook_with_asks(&[(0.95, 100.0)]);
    let match_ob = orderbook_with_asks(&[(0.85, 50.0)]);
    let mut cache = Arc::new(PreparedOrders::new(
        "init".to_string(),
        PreparedOrder::placeholder(),
        PreparedOrder::placeholder(),
    ));

    let result = builder.update_orders_on_market_data("m1", "goal", "match", &goal_ob, &match_ob, &mut cache);
    assert!(result.is_ok());

    let stored = cache.clone();
    assert_eq!(stored.match_id, "m1");
    assert_eq!(val(stored.goal_market_order.size), 100.0);
    assert_eq!(val(stored.match_result_order.size), 50.0);
}

#[test]
fn test_update_orders_on_market_data_error_keeps_old_cache() {
    let builder = OrderPreBuilder::new(bits(1.0));
    let goal_ob = OrderBook::new("goal".to_string());
    let match_ob = orderbook_with_asks(&[(0.85, 50.0)]);
    let old_orders = Arc::new(PreparedOrders::new(
        "old".to_string(),
        PreparedOrder::placeholder(),
        PreparedOrder::placeholder(),
    ));
    let mut cache = old_orders.clone();

    let result = builder.update_orders_on_market_data("m1", "goal", "match", &goal_ob, &match_ob, &mut cache);
    assert!(result.is_err());

    let stored = cache.clone();
    assert_eq!(stored.match_id, "old");
}

#[test]
fn test_build_orders_negative_goal_liquidity() {
    let builder = OrderPreBuilder::new(bits(1.0));
    let goal_ob = orderbook_with_asks(&[(0.95, -10.0)]);
    let match_ob = orderbook_with_asks(&[(0.85, 50.0)]);

    let result = builder.build_orders_for_match("m1", "goal", "match", &goal_ob, &match_ob);
    assert!(result.is_err());
}

#[test]
fn test_build_orders_bids_ignored_in_goal() {
    let builder = OrderPreBuilder::new(bits(1.0));
    let goal_ob = orderbook_with_bids(&[(0.90, 999.0)]);
    let match_ob = orderbook_with_asks(&[(0.85, 50.0)]);

    let result = builder.build_orders_for_match("m1", "goal", "match", &goal_ob, &match_ob);
    // Bids don't count as liquidity for asks
    assert!(result.is_err());
}

#[test]
fn test_new_sets_max_price_limit() {
    let builder = OrderPreBuilder::new(bits(0.75));
    assert_eq!(val(builder.max_price_limit()), 0.75);
}

#[test]
fn build_error_messages() {
    assert_eq!(BuildError::NoAskLiquidityInGoalMarket.message(), "No ask liquidity available in goal market");
    assert_eq!(BuildError::NoLiquidityInGoalMarket.message(), "No liquidity available in goal market");
    assert_eq!(BuildError::NoOrdersWithinPriceLimit.message(), "No orders available within price limit");
    assert_eq!(BuildError::AboveMaxPriceLimit.message(), "Best ask price is above max price limit");
    assert_eq!(BuildError::NoLiquidityWithinPriceLimit.message(), "No liquidity available within price limit");
}

#[test]
fn goal_error_comes_before_match_error() {
    let builder = OrderPreBuilder::new(bits(0.5));
    let goal_ob = OrderBook::new("goal".to_string());
    let match_ob = orderbook_with_asks(&[(0.85, 50.0)]);
    let e = builder.build_orders_for_match("m1", "goal", "match", &goal_ob, &match_ob).err().unwrap();
    assert_eq!(e, BuildError::NoAskLiquidityInGoalMarket);
}

#[test]
fn nan_limit_never_rejects_on_price() {
    // `price > NaN` is false, so a NaN limit lets any price through
    let builder = OrderPreBuilder::new(f64::NAN.to_bits());
    let goal_ob = orderbook_with_asks(&[(0.95, 100.0)]);
    let match_ob = orderbook_with_asks(&[(5.0, 50.0)]);
    assert!(builder.build_orders_for_match("m1", "goal", "match", &goal_ob, &match_ob).is_ok());
}
