//! Messages of the market-data feed: a JSON object whose `channel`,
//! `timestamp` and `data` fields say whether it carries an order-book
//! snapshot for the bot.

use vstd::prelude::*;

verus! {

/// One JSON value as the feed logic reads it.
pub enum JsonValue {
    Null,
    Bool(bool),
    /// A number: its value when it is an integer that fits in `u64`, and its
    /// JSON text.
    Number(Option<u64>, String),
    Text(String),
    /// An array or an object, written back as compact JSON text.
    Nested(String),
}

/// A [`JsonValue`] as plain values.
pub enum JsonValueView {
    Null,
    Bool(bool),
    Number(Option<u64>, Seq<char>),
    Text(Seq<char>),
    Nested(Seq<char>),
}

/// The plain values of a JSON value.
pub open spec fn json_value_view(v: JsonValue) -> JsonValueView {
    match v {
        JsonValue::Null => JsonValueView::Null,
        JsonValue::Bool(b) => JsonValueView::Bool(b),
        JsonValue::Number(u, t) => JsonValueView::Number(u, t@),
        JsonValue::Text(s) => JsonValueView::Text(s@),
        JsonValue::Nested(t) => JsonValueView::Nested(t@),
    }
}

/// The fields of a JSON object as plain values, in order.
pub open spec fn fields_view(fields: Seq<(String, JsonValue)>) -> Seq<(Seq<char>, JsonValueView)> {
    fields.map_values(|f: (String, JsonValue)| (f.0@, json_value_view(f.1)))
}

/// Read fields, if any, as plain values.
pub open spec fn read_view(r: Option<Vec<(String, JsonValue)>>) -> Option<Seq<(Seq<char>, JsonValueView)>> {
    match r {
        Some(v) => Some(fields_view(v@)),
        None => None,
    }
}

/// The fields that `serde_json` reads from `message` when it is a JSON
/// object (`None` when it is not JSON, or not an object).
pub uninterp spec fn json_fields(message: Seq<char>) -> Option<Seq<(Seq<char>, JsonValueView)>>;

/// Calls `serde_json::from_str` into a `serde_json::Value` and, when it is an
/// object, hands out its fields, each value converted variant for variant
/// (`Number::as_u64` for a number; `Display`, which writes compact JSON, for
/// the text of a number, an array or an object). The contract only says
/// that the result is what [`json_fields`] names for the text.
#[verifier::external_body]
fn read_json_object(message: &str) -> (r: Option<Vec<(String, JsonValue)>>)
    ensures
        read_view(r) == json_fields(message@),
{
    let value: serde_json::Value = serde_json::from_str(message).ok()?;
    let object = value.as_object()?;
    Some(object.iter().map(|(name, v)| (name.clone(), match v {
        serde_json::Value::Null => JsonValue::Null,
        serde_json::Value::Bool(b) => JsonValue::Bool(*b),
        serde_json::Value::Number(n) => JsonValue::Number(n.as_u64(), n.to_string()),
        serde_json::Value::String(s) => JsonValue::Text(s.clone()),
        serde_json::Value::Array(_) => JsonValue::Nested(v.to_string()),
        serde_json::Value::Object(_) => JsonValue::Nested(v.to_string()),
    })).collect())
}

/// `i` is the first field named `name`.
pub open spec fn first_named(fields: Seq<(Seq<char>, JsonValueView)>, name: Seq<char>, i: int) -> bool {
    &&& 0 <= i < fields.len()
    &&& fields[i].0 == name
    &&& forall|j: int| 0 <= j < i ==> #[trigger] fields[j].0 != name
}

/// The value of the first field named `name`, if there is one.
pub open spec fn field_value(fields: Seq<(Seq<char>, JsonValueView)>, name: Seq<char>) -> Option<JsonValueView> {
    if exists|i: int| first_named(fields, name, i) {
        Some(fields[choose|i: int| first_named(fields, name, i)].1)
    } else {
        None
    }
}

/// What a feed message asks of the bot.
#[derive(Debug, PartialEq, Eq)]
pub enum FeedRoute {
    /// An order-book snapshot: the book as JSON text, and the message's
    /// timestamp in milliseconds.
    OrderBook { data: String, timestamp: u64 },
    /// Nothing the bot acts on.
    Ignore,
}

/// The snapshot (book text and timestamp) that a message's fields carry, if
/// any. A message is dropped unless its `channel` is the string
/// `"orderbook"`, it has a `timestamp` field, and its `data` field is an
/// array or object (an order book is an object; any other kind of value can
/// never be read as one). A timestamp that is not an unsigned integer reads
/// as `now_ms`. Trade and liquidity messages, and every other channel, are
/// dropped.
pub open spec fn routed_snapshot(fields: Option<Seq<(Seq<char>, JsonValueView)>>, now_ms: u64) -> Option<(Seq<char>, u64)> {
    match fields {
        None => None,
        Some(f) => match (field_value(f, "channel"@), field_value(f, "timestamp"@), field_value(f, "data"@)) {
            (Some(JsonValueView::Text(channel)), Some(t), Some(JsonValueView::Nested(data))) => if channel
                == "orderbook"@ {
                match t {
                    JsonValueView::Number(Some(u), _) => Some((data, u)),
                    _ => Some((data, now_ms)),
                }
            } else {
                None
            },
            _ => None,
        },
    }
}

/// `r` is the route of the snapshot `s` (or of no snapshot).
pub open spec fn is_route(r: FeedRoute, s: Option<(Seq<char>, u64)>) -> bool {
    match s {
        Some((data, t)) => r matches FeedRoute::OrderBook { data: d, timestamp } && d@ == data
            && timestamp == t,
        None => r == FeedRoute::Ignore,
    }
}

/// The value of the first field named `name`.
fn find_field<'a>(fields: &'a Vec<(String, JsonValue)>, name: &str) -> (r: Option<&'a JsonValue>)
    ensures
        match r {
            Some(v) => field_value(fields_view(fields@), name@) == Some(json_value_view(*v)),
            None => field_value(fields_view(fields@), name@) is None,
        },
{
    let ghost view = fields_view(fields@);
    let key = String::from_str(name);
    let n = fields.len();
    let mut i: usize = 0;
    while i < n
        invariant
            n == fields@.len(),
            view == fields_view(fields@),
            view.len() == n,
            key@ == name@,
            i <= n,
            forall|j: int| 0 <= j < i ==> #[trigger] view[j].0 != name@,
        decreases n - i,
    {
        proof {
            assert(view[i as int] == (fields@[i as int].0@, json_value_view(fields@[i as int].1)));
        }
        if fields[i].0 == key {
            proof {
                assert(first_named(view, name@, i as int));
                assert forall|k: int| #[trigger] first_named(view, name@, k) implies k == i by {
                    if k < i {
                    } else if k > i {
                        assert(view[i as int].0 != name@);
                    }
                }
            }
            return Some(&fields[i].1);
        }
        i = i + 1;
    }
    proof {
        assert forall|k: int| !first_named(view, name@, k) by {
            if 0 <= k < n {
                assert(view[k].0 != name@);
            }
        }
    }
    None
}

/// Routes the fields of a message (see [`routed_snapshot`]).
pub fn route_fields(fields: Option<Vec<(String, JsonValue)>>, now_ms: u64) -> (r: FeedRoute)
    ensures
        is_route(r, routed_snapshot(read_view(fields), now_ms)),
{
    proof {
        reveal_strlit("orderbook");
    }
    let fields = match fields {
        Some(f) => f,
        None => return FeedRoute::Ignore,
    };
    let channel = find_field(&fields, "channel");
    let timestamp = find_field(&fields, "timestamp");
    let data = find_field(&fields, "data");
    match (channel, timestamp, data) {
        (Some(JsonValue::Text(c)), Some(t), Some(JsonValue::Nested(d))) => {
            let orderbook = String::from_str("orderbook");
            if *c == orderbook {
                let stamp = match t {
                    JsonValue::Number(Some(u), _) => *u,
                    _ => now_ms,
                };
                FeedRoute::OrderBook { data: d.clone(), timestamp: stamp }
            } else {
                FeedRoute::Ignore
            }
        },
        _ => FeedRoute::Ignore,
    }
}

/// Reads a feed message and routes it (see [`routed_snapshot`]), with
/// `now_ms` as the time for a snapshot whose timestamp is not an unsigned
/// integer.
pub fn route_message(message: &str, now_ms: u64) -> (r: FeedRoute)
    ensures
        is_route(r, routed_snapshot(json_fields(message@), now_ms)),
{
    let fields = read_json_object(message);
    route_fields(fields, now_ms)
}

} // verus!
