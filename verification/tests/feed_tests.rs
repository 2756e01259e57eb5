use ultra_fast_manual_trading_execution_bot::feed::{route_fields, route_message, FeedRoute, JsonValue};

fn fields(channel: JsonValue, timestamp: Option<JsonValue>, data: JsonValue) -> Vec<(String, JsonValue)> {
    let mut f = vec![("channel".to_string(), channel), ("data".to_string(), data)];
    if let Some(t) = timestamp {
        f.push(("timestamp".to_string(), t));
    }
    f
}

fn text(s: &str) -> JsonValue {
    JsonValue::Text(s.to_string())
}

fn nested(s: &str) -> JsonValue {
    JsonValue::Nested(s.to_string())
}

#[test]
fn orderbook_message_with_timestamp_is_a_snapshot() {
    let msg = r#"{"channel":"orderbook","timestamp":1700000000000,"data":{"market_id":"m","bids":{},"asks":{},"updated_at":5}}"#;
    match route_message(msg, 42) {
        FeedRoute::OrderBook { data, timestamp } => {
            assert_eq!(timestamp, 1700000000000);
            let got: serde_json::Value = serde_json::from_str(&data).unwrap();
            let want: serde_json::Value =
                serde_json::from_str(r#"{"market_id":"m","bids":{},"asks":{},"updated_at":5}"#).unwrap();
            assert_eq!(got, want);
        }
        FeedRoute::Ignore => panic!("snapshot expected"),
    }
}

#[test]
fn non_integer_timestamp_reads_as_now() {
    let msg = r#"{"channel":"orderbook","timestamp":"soon","data":[1,2]}"#;
    assert_eq!(route_message(msg, 42), FeedRoute::OrderBook { data: "[1,2]".to_string(), timestamp: 42 });
    let negative = r#"{"channel":"orderbook","timestamp":-3,"data":[]}"#;
    assert_eq!(route_message(negative, 7), FeedRoute::OrderBook { data: "[]".to_string(), timestamp: 7 });
    let null_data = r#"{"channel":"orderbook","timestamp":3,"data":null}"#;
    assert_eq!(route_message(null_data, 7), FeedRoute::Ignore);
}

#[test]
fn missing_timestamp_key_is_ignored() {
    let msg = r#"{"channel":"orderbook","data":{}}"#;
    assert_eq!(route_message(msg, 42), FeedRoute::Ignore);
}

#[test]
fn other_channels_and_bad_messages_are_ignored() {
    assert_eq!(route_message(r#"{"channel":"trades","timestamp":1,"data":{}}"#, 0), FeedRoute::Ignore);
    assert_eq!(route_message(r#"{"channel":"liquidity","timestamp":1,"data":{}}"#, 0), FeedRoute::Ignore);
    assert_eq!(route_message(r#"{"channel":"news","timestamp":1,"data":{}}"#, 0), FeedRoute::Ignore);
    assert_eq!(route_message(r#"{"channel":7,"timestamp":1,"data":{}}"#, 0), FeedRoute::Ignore);
    assert_eq!(route_message(r#"{"channel":"orderbook","timestamp":1}"#, 0), FeedRoute::Ignore);
    assert_eq!(route_message("not json", 0), FeedRoute::Ignore);
}

#[test]
fn routing_of_read_fields() {
    let five = JsonValue::Number(Some(5), "5".to_string());
    assert_eq!(
        route_fields(Some(fields(text("orderbook"), Some(five), nested("{}"))), 9),
        FeedRoute::OrderBook { data: "{}".to_string(), timestamp: 5 }
    );
    let half = JsonValue::Number(None, "0.5".to_string());
    assert_eq!(
        route_fields(Some(fields(text("orderbook"), Some(half), nested("[]"))), 9),
        FeedRoute::OrderBook { data: "[]".to_string(), timestamp: 9 }
    );
    assert_eq!(
        route_fields(Some(fields(text("orderbook"), Some(JsonValue::Null), nested("{}"))), 9),
        FeedRoute::OrderBook { data: "{}".to_string(), timestamp: 9 }
    );
    assert_eq!(route_fields(Some(fields(text("orderbook"), None, nested("{}"))), 9), FeedRoute::Ignore);
    assert_eq!(
        route_fields(Some(fields(text("trades"), Some(JsonValue::Null), nested("{}"))), 9),
        FeedRoute::Ignore
    );
    assert_eq!(
        route_fields(Some(fields(JsonValue::Bool(true), Some(JsonValue::Null), nested("{}"))), 9),
        FeedRoute::Ignore
    );
    assert_eq!(
        route_fields(Some(fields(text("orderbook"), Some(JsonValue::Null), text("book"))), 9),
        FeedRoute::Ignore
    );
    assert_eq!(route_fields(Some(Vec::new()), 9), FeedRoute::Ignore);
    assert_eq!(route_fields(None, 9), FeedRoute::Ignore);
}

#[test]
fn the_first_field_of_a_name_counts() {
    let mut f = fields(text("orderbook"), Some(JsonValue::Number(Some(1), "1".to_string())), nested("{}"));
    f.push(("channel".to_string(), text("trades")));
    assert_eq!(route_fields(Some(f), 9), FeedRoute::OrderBook { data: "{}".to_string(), timestamp: 1 });
}

#[test]
fn messages_that_are_not_objects_are_ignored() {
    assert_eq!(route_message("[1,2,3]", 0), FeedRoute::Ignore);
    assert_eq!(route_message("\"orderbook\"", 0), FeedRoute::Ignore);
    assert_eq!(route_message(r#"{"channel":"orderbook","timestamp":1,"data":"book"}"#, 0), FeedRoute::Ignore);
}
