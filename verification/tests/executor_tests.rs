use std::sync::Arc;
use ultra_fast_manual_trading_execution_bot::executor::{ExecuteError, ExecutionEngine, EXECUTION_QUEUE_CAPACITY};
use ultra_fast_manual_trading_execution_bot::orderbook::{OrderSide, OrderType};
use ultra_fast_manual_trading_execution_bot::prepared_orders::{ExecutionRequest, ExecutionResult, PreparedOrder, PreparedOrders};

fn make_orders(match_id: &str) -> Arc<PreparedOrders> {
    Arc::new(PreparedOrders::new(
        match_id.to_string(),
        PreparedOrder::placeholder(),
        PreparedOrder::placeholder(),
    ))
}

fn make_engine() -> ExecutionEngine {
    ExecutionEngine::new()
}

#[test]
fn test_execute_match_no_orders() {
    let mut engine = make_engine();
    let result = engine.execute_match("nonexistent");
    assert!(result.is_err());
    let err = result.err().unwrap().message();
    assert!(err.contains("No prepared orders"), "got: {}", err);
}

#[test]
fn test_execute_match_with_orders() {
    let mut engine = make_engine();
    let orders = make_orders("m1");
    engine.update_prepared_orders("m1", orders);

    let result = engine.execute_match("m1");
    assert!(result.is_ok());
}

#[test]
fn test_execute_match_queue_full() {
    let mut engine = make_engine();
    let orders = make_orders("m1");
    engine.update_prepared_orders("m1", orders);

    // Fill the queue to capacity through the raw sending side
    for _ in 0..EXECUTION_QUEUE_CAPACITY {
        let dummy = ExecutionRequest::new("dummy".to_string(), make_orders("dummy"));
        assert!(engine.try_send(dummy).is_ok(), "fill channel");
    }
    // try_send on a full queue must fail
    let dummy = ExecutionRequest::new("dummy".to_string(), make_orders("dummy"));
    assert!(engine.try_send(dummy).is_err());

    // execute_match queues without waiting, so it must also fail
    let result = engine.execute_match("m1");
    assert!(result.is_err());
    let err_msg = result.err().unwrap().message();
    assert!(err_msg.contains("queue full"), "got: {}", err_msg);
}

#[test]
fn test_execute_match_wrong_match_id() {
    let mut engine = make_engine();
    engine.update_prepared_orders("actual", make_orders("actual"));

    let result = engine.execute_match("other");
    assert!(result.is_err());
    assert!(result.err().unwrap().message().contains("No prepared orders"));
}

#[test]
fn latest_update_wins() {
    let mut engine = make_engine();
    let first = PreparedOrders::new("first".to_string(), PreparedOrder::placeholder(), PreparedOrder::placeholder());
    let second = PreparedOrders::new("second".to_string(), PreparedOrder::placeholder(), PreparedOrder::placeholder());

    engine.update_prepared_orders("m1", Arc::new(first));
    engine.update_prepared_orders("m1", Arc::new(second));

    // Execute should use the latest version
    let result = engine.execute_match("m1");
    assert!(result.is_ok());
    let request = engine.next_request().unwrap();
    assert_eq!(request.orders.match_id, "second");
}

#[test]
fn test_execute_match_multiple_matches() {
    let mut engine = make_engine();
    engine.update_prepared_orders("m1", make_orders("m1"));
    engine.update_prepared_orders("m2", make_orders("m2"));

    let r1 = engine.execute_match("m1");
    let r2 = engine.execute_match("m2");
    assert!(r1.is_ok());
    assert!(r2.is_ok());
}

#[test]
fn test_execute_match_order_data_preserved() {
    let mut engine = make_engine();

    let goal = PreparedOrder::with_params("goal_mkt".to_string(), OrderType::Market, OrderSide::Buy, 42.0f64.to_bits(), None);
    let match_ord = PreparedOrder::with_params(
        "match_mkt".to_string(),
        OrderType::Limit { price: 0.5f64.to_bits() },
        OrderSide::Buy,
        10.0f64.to_bits(),
        Some(0.5f64.to_bits()),
    );
    let orders = Arc::new(PreparedOrders::new("m1".to_string(), goal, match_ord));
    engine.update_prepared_orders("m1", orders);

    let result = engine.execute_match("m1");
    assert!(result.is_ok());
    let request = engine.next_request().unwrap();
    assert_eq!(request.match_id, "m1");
    assert_eq!(request.orders.goal_market_order.market_id, "goal_mkt");
    assert_eq!(f64::from_bits(request.orders.goal_market_order.size), 42.0);
    assert_eq!(request.orders.match_result_order.market_id, "match_mkt");
    assert_eq!(f64::from_bits(request.orders.match_result_order.size), 10.0);
}

#[test]
fn test_execute_match_idempotent_cache() {
    let mut engine = make_engine();
    engine.update_prepared_orders("m1", make_orders("m1"));

    // Execute twice — both should succeed (cache persists)
    assert!(engine.execute_match("m1").is_ok());
    assert!(engine.execute_match("m1").is_ok());
}

#[test]
fn dispatching_frees_queue_room() {
    let mut engine = make_engine();
    engine.update_prepared_orders("m1", make_orders("m1"));
    assert!(engine.execute_match("m1").is_ok());

    // The dispatcher takes the request, so the queue has room again
    assert!(engine.next_request().is_some());
    assert_eq!(engine.pending_len(), 0);
    let mut sent = 0;
    loop {
        let dummy = ExecutionRequest::new("dummy".to_string(), make_orders("dummy"));
        if engine.try_send(dummy).is_err() {
            break;
        }
        sent += 1;
    }
    assert_eq!(sent, EXECUTION_QUEUE_CAPACITY);
}

#[test]
fn repeated_updates_keep_one_entry_per_match() {
    let mut engine = make_engine();
    for i in 0..50 {
        let market = format!("concurrent_mkt_{}", i % 5);
        let orders = make_orders(&market);
        engine.update_prepared_orders(&market, orders);
    }
    // Exactly 5 distinct keys exist (i % 5 -> 0..4), each one executable
    for k in 0..5 {
        assert!(engine.prepared_orders(&format!("concurrent_mkt_{}", k)).is_some());
    }
    assert!(engine.prepared_orders("concurrent_mkt_5").is_none());
}

#[test]
fn test_execution_engine_creation() {
    let mut engine = make_engine();
    let result = engine.try_send(ExecutionRequest::new("test".to_string(), make_orders("test")));
    assert!(result.is_ok());
}

#[test]
fn requests_come_out_oldest_first() {
    let mut engine = make_engine();
    engine.update_prepared_orders("a", make_orders("a"));
    engine.update_prepared_orders("b", make_orders("b"));
    engine.execute_match("b").unwrap();
    engine.execute_match("a").unwrap();
    assert_eq!(engine.next_request().unwrap().match_id, "b");
    assert_eq!(engine.next_request().unwrap().match_id, "a");
    assert!(engine.next_request().is_none());
}

#[test]
fn refused_request_changes_nothing() {
    let mut engine = make_engine();
    assert_eq!(engine.execute_match("x").err(), Some(ExecuteError::NoPreparedOrders));
    assert_eq!(engine.pending_len(), 0);
}

#[test]
fn execute_error_messages() {
    assert_eq!(ExecuteError::NoPreparedOrders.message(), "No prepared orders available");
    assert_eq!(ExecuteError::QueueFull.message(), "Execution queue full, try again later");
}

#[test]
fn execution_result_from_submission() {
    let ok = ExecutionResult::from_submission(7, Ok(()), 3);
    assert!(ok.success);
    assert!(ok.error.is_none());
    assert_eq!(ok.order_id, 7);
    assert_eq!(ok.execution_time_ms, 3);
    let failed = ExecutionResult::from_submission(8, Err("HTTP 400".to_string()), 5);
    assert!(!failed.success);
    assert_eq!(failed.error.as_deref(), Some("HTTP 400"));
}

#[test]
fn cache_keeps_the_last_update_per_match() {
    let mut engine = make_engine();
    let mut last = Vec::new();
    for round in 0..10 {
        for k in 0..5 {
            let id = format!("concurrent_mkt_{}", k);
            let orders = make_orders(&format!("{}_{}", id, round));
            engine.update_prepared_orders(&id, orders.clone());
            if round == 9 {
                last.push((id, orders));
            }
        }
    }
    for (id, orders) in last {
        let got = engine.prepared_orders(&id).unwrap();
        assert!(Arc::ptr_eq(&got, &orders));
    }
    assert!(engine.prepared_orders("concurrent_mkt_5").is_none());
}
