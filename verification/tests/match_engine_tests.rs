use ultra_fast_manual_trading_execution_bot::executor::{ExecuteError, ExecutionEngine};
use ultra_fast_manual_trading_execution_bot::match_engine::{ManagerError, MatchConfig, MatchManager};
use ultra_fast_manual_trading_execution_bot::orderbook::{LiquidityUpdate, MarketUpdate, MarketUpdateType, OrderBook};

fn config(id: &str, shortcut: Option<char>) -> MatchConfig {
    MatchConfig::new(
        id.to_string(),
        format!("{} name", id),
        format!("goal_{}", id),
        format!("match_{}", id),
        0.95f64.to_bits(),
        shortcut,
    )
}

fn book(market: &str, asks: &[(f64, f64)]) -> OrderBook {
    let mut ob = OrderBook::new(market.to_string());
    for &(p, s) in asks {
        ob.update_ask(p.to_bits(), s.to_bits());
    }
    ob
}

fn snapshot(ob: OrderBook) -> MarketUpdate {
    MarketUpdate { market_id: ob.market_id.clone(), update_type: MarketUpdateType::OrderBookUpdate(ob), timestamp: 1 }
}

#[test]
fn test_match_config_creation() {
    let config = MatchConfig::new(
        "test".to_string(),
        "Test Match".to_string(),
        "goal_test".to_string(),
        "match_test".to_string(),
        0.95f64.to_bits(),
        Some('t'),
    );
    assert_eq!(config.name, "Test Match");
    assert_eq!(config.keyboard_shortcut, Some('t'));
}

#[test]
fn added_match_is_executable_with_placeholder_orders() {
    let mut manager = MatchManager::new(ExecutionEngine::new());
    let handler = manager.add_match(config("m1", Some('1')));
    assert_eq!(handler.prepared_orders.match_id, "m1");
    assert!(manager.get_match("m1").is_some());
    assert!(manager.execute_match("m1").is_ok());
    let req = manager.execution_engine_mut().next_request().unwrap();
    assert_eq!(req.match_id, "m1");
    assert_eq!(req.orders.goal_market_order.size, 0);
}

#[test]
fn unknown_match_is_reported() {
    let mut manager = MatchManager::new(ExecutionEngine::new());
    let e = manager.execute_match("nope").err().unwrap();
    assert_eq!(e, ManagerError::MatchNotFound("nope".to_string()));
    assert_eq!(e.message(), "Match not found: nope");
    assert_eq!(manager.execution_engine().pending_len(), 0);
}

#[test]
fn engine_errors_pass_through_the_manager() {
    let e = ManagerError::Execution(ExecuteError::QueueFull);
    assert_eq!(e.message(), "Execution queue full, try again later");
}

#[test]
fn every_match_listed_once() {
    let mut manager = MatchManager::new(ExecutionEngine::new());
    manager.add_match(config("b", None));
    manager.add_match(config("a", None));
    manager.add_match(config("b", Some('x')));
    let mut ids: Vec<String> = manager.get_all_matches().iter().map(|m| m.get_config().id.clone()).collect();
    ids.sort();
    assert_eq!(ids, vec!["a".to_string(), "b".to_string()]);
    assert_eq!(manager.get_match("b").unwrap().get_config().keyboard_shortcut, Some('x'));
}

#[test]
fn market_updates_rebuild_and_publish_orders() {
    let mut manager = MatchManager::new(ExecutionEngine::new());
    let mut handler = manager.add_match(config("m1", None));
    let updates = vec![snapshot(book("goal_m1", &[(0.9, 100.0)])), snapshot(book("match_m1", &[(0.8, 40.0)]))];
    assert!(handler.apply_market_updates(updates, manager.execution_engine_mut()).is_ok());
    assert_eq!(f64::from_bits(handler.prepared_orders.goal_market_order.size), 100.0);
    assert_eq!(handler.prepared_orders.match_result_order.price.map(f64::from_bits), Some(0.8));
    manager.execute_match("m1").unwrap();
    let req = manager.execution_engine_mut().next_request().unwrap();
    assert_eq!(req.orders.goal_market_order.market_id, "goal_m1");
    assert_eq!(req.orders.match_result_order.market_id, "match_m1");
}

#[test]
fn latest_snapshot_in_a_burst_wins() {
    let mut manager = MatchManager::new(ExecutionEngine::new());
    let mut handler = manager.add_match(config("m1", None));
    let updates = vec![
        snapshot(book("goal_m1", &[(0.9, 100.0)])),
        snapshot(book("match_m1", &[(0.8, 40.0)])),
        snapshot(book("other", &[(0.1, 1.0)])),
        snapshot(book("goal_m1", &[(0.7, 25.0)])),
        MarketUpdate {
            market_id: "goal_m1".to_string(),
            update_type: MarketUpdateType::LiquidityUpdate(LiquidityUpdate {
                added_liquidity: 1.0f64.to_bits(),
                removed_liquidity: 0,
                total_liquidity: 1.0f64.to_bits(),
            }),
            timestamp: 2,
        },
    ];
    assert!(handler.apply_market_updates(updates, manager.execution_engine_mut()).is_ok());
    assert_eq!(f64::from_bits(handler.goal_orderbook.get_best_ask().unwrap().price), 0.7);
    assert_eq!(f64::from_bits(handler.prepared_orders.goal_market_order.size), 25.0);
}

#[test]
fn failed_rebuild_keeps_published_orders() {
    let mut manager = MatchManager::new(ExecutionEngine::new());
    let mut handler = manager.add_match(config("m1", None));
    // match market priced above the 0.95 limit
    let updates = vec![snapshot(book("goal_m1", &[(0.9, 100.0)])), snapshot(book("match_m1", &[(0.99, 40.0)]))];
    assert!(handler.apply_market_updates(updates, manager.execution_engine_mut()).is_err());
    assert_eq!(handler.prepared_orders.goal_market_order.size, 0);
    let published = manager.execution_engine().prepared_orders("m1").unwrap();
    assert_eq!(published.goal_market_order.size, 0);
}
