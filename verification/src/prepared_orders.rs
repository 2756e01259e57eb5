//! Orders prepared ahead of execution, and what an execution hands around.

use vstd::prelude::*;
use std::sync::Arc;
use crate::clock::{new_v4_id, now_millis, uuid_version};
use crate::float_bits::{f64_is_finite, f64_le_zero, positive_finite};
use crate::orderbook::{OrderSide, OrderType};

verus! {

/// An order built in advance. `size` and `price` are binary64 bit patterns;
/// `id` is the order's UUID as a 128-bit integer.
pub struct PreparedOrder {
    pub id: u128,
    pub market_id: String,
    pub order_type: OrderType,
    pub side: OrderSide,
    pub size: u64,
    pub price: Option<u64>,
    pub signature: Option<Vec<u8>>,
    pub created_at: u64,
}

/// Why an order cannot be turned into a payload.
#[derive(Debug, Clone, Copy, PartialEq, Eq, Structural)]
pub enum PayloadError {
    /// The size (bits given) is not finite or not `> 0.0`.
    InvalidSize(u64),
    /// The limit price (bits given) is not finite or not `> 0.0`.
    InvalidPrice(u64),
    EmptyMarketId,
}

/// The fields of the JSON body that submits an order, checked and ready to
/// be written out (`size` and `price` are binary64 bit patterns).
pub struct OrderPayload {
    pub market_id: String,
    /// `"market"` or `"limit"`.
    pub order_type: String,
    /// `"buy"` or `"sell"`.
    pub side: String,
    pub size: u64,
    pub price: Option<u64>,
    /// Milliseconds since the Unix epoch when the payload was built.
    pub timestamp: u64,
}

/// The first check that an order fails before it may be submitted: the size,
/// then the price if there is one, then the market id.
pub open spec fn payload_error(order: PreparedOrder) -> Option<PayloadError> {
    if !positive_finite(order.size) {
        Some(PayloadError::InvalidSize(order.size))
    } else if order.price is Some && !positive_finite(order.price.unwrap()) {
        Some(PayloadError::InvalidPrice(order.price.unwrap()))
    } else if order.market_id@.len() == 0 {
        Some(PayloadError::EmptyMarketId)
    } else {
        None
    }
}

/// The wire name of an order type.
pub open spec fn order_type_name(t: OrderType) -> Seq<char> {
    match t {
        OrderType::Market => "market"@,
        OrderType::Limit { .. } => "limit"@,
    }
}

/// The wire name of an order side.
pub open spec fn side_name(s: OrderSide) -> Seq<char> {
    match s {
        OrderSide::Buy => "buy"@,
        OrderSide::Sell => "sell"@,
    }
}

/// The value is finite and `> 0.0`.
fn positive_finite_bits(x: u64) -> (r: bool)
    ensures
        r == positive_finite(x),
{
    f64_is_finite(x) && !f64_le_zero(x)
}

/// `o` is the placeholder order: nil id, no market, a market buy of size
/// `+0.0`, no price, no signature, created at time 0.
pub open spec fn is_placeholder(o: PreparedOrder) -> bool {
    &&& o.id == 0
    &&& o.market_id@ == Seq::<char>::empty()
    &&& o.order_type == OrderType::Market
    &&& o.side == OrderSide::Buy
    &&& o.size == 0
    &&& o.price is None
    &&& o.signature is None
    &&& o.created_at == 0
}

impl PreparedOrder {
    /// A new order with a fresh random id, no signature, stamped with the
    /// current time.
    pub fn with_params(
        market_id: String,
        order_type: OrderType,
        side: OrderSide,
        size: u64,
        price: Option<u64>,
    ) -> (r: Self)
        ensures
            r.market_id == market_id,
            r.order_type == order_type,
            r.side == side,
            r.size == size,
            r.price == price,
            r.signature is None,
            uuid_version(r.id) == 4,
    {
        PreparedOrder {
            id: new_v4_id(),
            market_id,
            order_type,
            side,
            size,
            price,
            signature: None,
            created_at: now_millis(),
        }
    }

    /// A stand-in used before any real order is known; it is not valid for
    /// execution (its size is 0 and its market id empty). Its id is the nil
    /// UUID.
    pub fn placeholder() -> (r: Self)
        ensures
            is_placeholder(r),
    {
        PreparedOrder {
            id: 0,
            market_id: String::new(),
            order_type: OrderType::Market,
            side: OrderSide::Buy,
            size: 0,
            price: None,
            signature: None,
            created_at: 0,
        }
    }

    /// Checks the order and lays out its submission payload, stamped with the
    /// current time (so each execution carries a fresh timestamp).
    pub fn build_payload(&self) -> (r: Result<OrderPayload, PayloadError>)
        ensures
            payload_error(*self) matches Some(e) ==> r == Err::<OrderPayload, PayloadError>(e),
            payload_error(*self) is None ==> (r matches Ok(p) && {
                &&& p.market_id@ == self.market_id@
                &&& p.order_type@ == order_type_name(self.order_type)
                &&& p.side@ == side_name(self.side)
                &&& p.size == self.size
                &&& p.price == self.price
            }),
    {
        let now = now_millis();
        self.build_payload_at(now)
    }

    /// Checks the order and lays out its submission payload, stamped with
    /// the wall-clock reading `now_ms` taken for this build: the payload
    /// carries that reading, never the order's own creation time.
    pub fn build_payload_at(&self, now_ms: u64) -> (r: Result<OrderPayload, PayloadError>)
        ensures
            payload_error(*self) matches Some(e) ==> r == Err::<OrderPayload, PayloadError>(e),
            payload_error(*self) is None ==> (r matches Ok(p) && {
                &&& p.market_id@ == self.market_id@
                &&& p.order_type@ == order_type_name(self.order_type)
                &&& p.side@ == side_name(self.side)
                &&& p.size == self.size
                &&& p.price == self.price
                &&& p.timestamp == now_ms
            }),
    {
        if !positive_finite_bits(self.size) {
            return Err(PayloadError::InvalidSize(self.size));
        }
        if let Some(p) = self.price {
            if !positive_finite_bits(p) {
                return Err(PayloadError::InvalidPrice(p));
            }
        }
        if self.market_id.as_str().is_empty() {
            return Err(PayloadError::EmptyMarketId);
        }
        let order_type = match self.order_type {
            OrderType::Market => String::from_str("market"),
            OrderType::Limit { .. } => String::from_str("limit"),
        };
        let side = match self.side {
            OrderSide::Buy => String::from_str("buy"),
            OrderSide::Sell => String::from_str("sell"),
        };
        proof {
            reveal_strlit("market");
            reveal_strlit("limit");
            reveal_strlit("buy");
            reveal_strlit("sell");
        }
        Ok(
            OrderPayload {
                market_id: self.market_id.clone(),
                order_type,
                side,
                size: self.size,
                price: self.price,
                timestamp: now_ms,
            },
        )
    }
}

/// The pair of orders that one execution of a match sends.
pub struct PreparedOrders {
    pub match_id: String,
    pub goal_market_order: PreparedOrder,
    pub match_result_order: PreparedOrder,
    /// Wall-clock milliseconds when the pair was built.
    pub updated_at: u64,
}

impl PreparedOrders {
    /// The pair for `match_id`, stamped with the current time.
    pub fn new(
        match_id: String,
        goal_market_order: PreparedOrder,
        match_result_order: PreparedOrder,
    ) -> (r: Self)
        ensures
            r.match_id == match_id,
            r.goal_market_order == goal_market_order,
            r.match_result_order == match_result_order,
    {
        PreparedOrders { match_id, goal_market_order, match_result_order, updated_at: now_millis() }
    }
}

/// The outcome of submitting one order.
pub struct ExecutionResult {
    pub order_id: u128,
    pub success: bool,
    pub error: Option<String>,
    pub execution_time_ms: u64,
}

impl ExecutionResult {
    /// The record of one submission of the order `order_id`: a success when
    /// the submission returned `Ok`, otherwise a failure carrying its message.
    pub fn from_submission(order_id: u128, outcome: Result<(), String>, execution_time_ms: u64) -> (r: Self)
        ensures
            r.order_id == order_id,
            r.execution_time_ms == execution_time_ms,
            r.success == outcome is Ok,
            outcome is Ok ==> r.error is None,
            outcome matches Err(m) ==> r.error == Some(m),
    {
        match outcome {
            Ok(()) => ExecutionResult { order_id, success: true, error: None, execution_time_ms },
            Err(m) => ExecutionResult { order_id, success: false, error: Some(m), execution_time_ms },
        }
    }
}

/// A request to execute the prepared orders of a match.
pub struct ExecutionRequest {
    pub match_id: String,
    pub orders: Arc<PreparedOrders>,
}

impl ExecutionRequest {
    pub fn new(match_id: String, orders: Arc<PreparedOrders>) -> (r: Self)
        ensures
            r.match_id == match_id,
            r.orders == orders,
    {
        ExecutionRequest { match_id, orders }
    }
}

/// Calls `Arc::clone`: another pointer to the same allocation, so the value
/// behind it is the same.
#[verifier::external_body]
pub(crate) fn share<T>(a: &Arc<T>) -> (r: Arc<T>)
    ensures
        r == *a,
{
    Arc::clone(a)
}

} // verus!
