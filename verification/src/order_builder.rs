//! Builds the two orders of a match from the current order books: a market
//! order on the goal market and a limit order on the match-result market,
//! both buying what the best ask offers.

use vstd::prelude::*;
use std::sync::Arc;
use crate::float_bits::{f64_gt, f64_le_zero, float_gt, float_le_zero};
use crate::orderbook::{
    key_bits, lemma_lowest_key_unique, lowest_level, no_levels, OrderBook, OrderSide, OrderType,
};
use crate::prepared_orders::{PreparedOrder, PreparedOrders};

verus! {

/// Why the orders of a match cannot be built.
#[derive(Debug, Clone, Copy, PartialEq, Eq, Structural)]
pub enum BuildError {
    /// The goal market's book has no ask.
    NoAskLiquidityInGoalMarket,
    /// The goal market's best ask offers a size `<= 0.0`.
    NoLiquidityInGoalMarket,
    /// The match market's book has no ask.
    NoOrdersWithinPriceLimit,
    /// The match market's best ask is priced above the limit.
    AboveMaxPriceLimit,
    /// The match market's best ask offers a size `<= 0.0`.
    NoLiquidityWithinPriceLimit,
}

impl BuildError {
    /// The human-readable message of the error.
    pub fn message(&self) -> (r: String)
        ensures
            r@ == build_error_message(*self),
    {
        proof {
            reveal_strlit("No ask liquidity available in goal market");
            reveal_strlit("No liquidity available in goal market");
            reveal_strlit("No orders available within price limit");
            reveal_strlit("Best ask price is above max price limit");
            reveal_strlit("No liquidity available within price limit");
        }
        match self {
            BuildError::NoAskLiquidityInGoalMarket => String::from_str(
                "No ask liquidity available in goal market",
            ),
            BuildError::NoLiquidityInGoalMarket => String::from_str(
                "No liquidity available in goal market",
            ),
            BuildError::NoOrdersWithinPriceLimit => String::from_str(
                "No orders available within price limit",
            ),
            BuildError::AboveMaxPriceLimit => String::from_str(
                "Best ask price is above max price limit",
            ),
            BuildError::NoLiquidityWithinPriceLimit => String::from_str(
                "No liquidity available within price limit",
            ),
        }
    }
}

/// The message text of each build error.
pub open spec fn build_error_message(e: BuildError) -> Seq<char> {
    match e {
        BuildError::NoAskLiquidityInGoalMarket => "No ask liquidity available in goal market"@,
        BuildError::NoLiquidityInGoalMarket => "No liquidity available in goal market"@,
        BuildError::NoOrdersWithinPriceLimit => "No orders available within price limit"@,
        BuildError::AboveMaxPriceLimit => "Best ask price is above max price limit"@,
        BuildError::NoLiquidityWithinPriceLimit => "No liquidity available within price limit"@,
    }
}

/// Why the goal market's order cannot be built from `book`, if it cannot.
/// That order is a market order and carries no price, so the price limit is
/// not held against it: with a limit of 0.85 and a goal best ask of 0.95 the
/// orders are still built.
pub open spec fn goal_order_error(book: OrderBook) -> Option<BuildError> {
    if no_levels(book.asks@) {
        Some(BuildError::NoAskLiquidityInGoalMarket)
    } else if float_le_zero(lowest_level(book.asks@).size) {
        Some(BuildError::NoLiquidityInGoalMarket)
    } else {
        None
    }
}

/// Why the match-result order cannot be built from `book` under the price
/// limit `max_price` (bits), if it cannot.
pub open spec fn match_order_error(max_price: u64, book: OrderBook) -> Option<BuildError> {
    if no_levels(book.asks@) {
        Some(BuildError::NoOrdersWithinPriceLimit)
    } else if float_gt(lowest_level(book.asks@).price, max_price) {
        Some(BuildError::AboveMaxPriceLimit)
    } else if float_le_zero(lowest_level(book.asks@).size) {
        Some(BuildError::NoLiquidityWithinPriceLimit)
    } else {
        None
    }
}

/// The first reason, goal market first, why the orders of a match cannot be
/// built.
pub open spec fn build_error(max_price: u64, goal_book: OrderBook, match_book: OrderBook) -> Option<BuildError> {
    if goal_order_error(goal_book) is Some {
        goal_order_error(goal_book)
    } else {
        match_order_error(max_price, match_book)
    }
}

/// `o` is the goal market order built from `book`: a market buy of the size
/// offered at the best ask.
pub open spec fn is_goal_order(o: PreparedOrder, market_id: Seq<char>, book: OrderBook) -> bool {
    &&& o.market_id@ == market_id
    &&& o.order_type == OrderType::Market
    &&& o.side == OrderSide::Buy
    &&& o.size == lowest_level(book.asks@).size
    &&& o.price is None
    &&& o.signature is None
}

/// `o` is the match-result order built from `book`: a limit buy at the best
/// ask's price of the size offered there.
pub open spec fn is_match_order(o: PreparedOrder, market_id: Seq<char>, book: OrderBook) -> bool {
    &&& o.market_id@ == market_id
    &&& o.order_type == OrderType::Limit { price: lowest_level(book.asks@).price }
    &&& o.side == OrderSide::Buy
    &&& o.size == lowest_level(book.asks@).size
    &&& o.price == Some(lowest_level(book.asks@).price)
    &&& o.signature is None
}

/// `o` is the pair of orders built for `match_id` from the two books.
pub open spec fn is_built_orders(
    o: PreparedOrders,
    match_id: Seq<char>,
    goal_market_id: Seq<char>,
    match_market_id: Seq<char>,
    goal_book: OrderBook,
    match_book: OrderBook,
) -> bool {
    &&& o.match_id@ == match_id
    &&& is_goal_order(o.goal_market_order, goal_market_id, goal_book)
    &&& is_match_order(o.match_result_order, match_market_id, match_book)
}

/// Builds the orders of a match under a price limit (binary64 bits).
#[derive(Debug, Clone, Copy)]
pub struct OrderPreBuilder {
    max_price_limit: u64,
}

impl View for OrderPreBuilder {
    type V = u64;

    closed spec fn view(&self) -> u64 {
        self.max_price_limit
    }
}

impl OrderPreBuilder {
    pub fn new(max_price_limit: u64) -> (r: Self)
        ensures
            r@ == max_price_limit,
    {
        OrderPreBuilder { max_price_limit }
    }

    /// The price limit (binary64 bits).
    pub fn max_price_limit(&self) -> (r: u64)
        ensures
            r == self@,
    {
        self.max_price_limit
    }

    /// Builds the goal market order and the match-result order of a match.
    pub fn build_orders_for_match(
        &self,
        match_id: &str,
        goal_market_id: &str,
        match_market_id: &str,
        goal_orderbook: &OrderBook,
        match_orderbook: &OrderBook,
    ) -> (r: Result<PreparedOrders, BuildError>)
        ensures
            build_error(self@, *goal_orderbook, *match_orderbook) matches Some(e) ==> r
                == Err::<PreparedOrders, BuildError>(e),
            build_error(self@, *goal_orderbook, *match_orderbook) is None ==> (r matches Ok(o)
                && is_built_orders(
                o,
                match_id@,
                goal_market_id@,
                match_market_id@,
                *goal_orderbook,
                *match_orderbook,
            )),
    {
        let goal_order = match self.build_goal_market_order(goal_market_id, goal_orderbook) {
            Ok(o) => o,
            Err(e) => return Err(e),
        };
        let match_order = match self.build_match_result_order(match_market_id, match_orderbook) {
            Ok(o) => o,
            Err(e) => return Err(e),
        };
        Ok(PreparedOrders::new(String::from_str(match_id), goal_order, match_order))
    }

    fn build_goal_market_order(&self, market_id: &str, orderbook: &OrderBook) -> (r: Result<
        PreparedOrder,
        BuildError,
    >)
        ensures
            goal_order_error(*orderbook) matches Some(e) ==> r == Err::<PreparedOrder, BuildError>(e),
            goal_order_error(*orderbook) is None ==> (r matches Ok(o) && is_goal_order(
                o,
                market_id@,
                *orderbook,
            )),
    {
        let best_ask = match orderbook.get_best_ask() {
            Some(level) => level,
            None => return Err(BuildError::NoAskLiquidityInGoalMarket),
        };
        let total_liquidity = best_ask.size;
        if f64_le_zero(total_liquidity) {
            return Err(BuildError::NoLiquidityInGoalMarket);
        }
        Ok(
            PreparedOrder::with_params(
                String::from_str(market_id),
                OrderType::Market,
                OrderSide::Buy,
                total_liquidity,
                None,
            ),
        )
    }

    fn build_match_result_order(&self, market_id: &str, orderbook: &OrderBook) -> (r: Result<
        PreparedOrder,
        BuildError,
    >)
        ensures
            match_order_error(self@, *orderbook) matches Some(e) ==> r == Err::<
                PreparedOrder,
                BuildError,
            >(e),
            match_order_error(self@, *orderbook) is None ==> (r matches Ok(o) && is_match_order(
                o,
                market_id@,
                *orderbook,
            )),
    {
        let best_ask_level = match orderbook.get_best_ask() {
            Some(level) => level,
            None => return Err(BuildError::NoOrdersWithinPriceLimit),
        };
        if f64_gt(best_ask_level.price, self.max_price_limit) {
            return Err(BuildError::AboveMaxPriceLimit);
        }
        let best_price = best_ask_level.price;
        let order_size = best_ask_level.size;
        if f64_le_zero(order_size) {
            return Err(BuildError::NoLiquidityWithinPriceLimit);
        }
        Ok(
            PreparedOrder::with_params(
                String::from_str(market_id),
                OrderType::Limit { price: best_price },
                OrderSide::Buy,
                order_size,
                Some(best_price),
            ),
        )
    }

    /// Rebuilds the orders of a match and, when that succeeds, publishes them
    /// in `orders_cache`; on failure the cache keeps what it held.
    pub fn update_orders_on_market_data(
        &self,
        match_id: &str,
        goal_market_id: &str,
        match_market_id: &str,
        goal_orderbook: &OrderBook,
        match_orderbook: &OrderBook,
        orders_cache: &mut Arc<PreparedOrders>,
    ) -> (r: Result<(), BuildError>)
        ensures
            build_error(self@, *goal_orderbook, *match_orderbook) matches Some(e) ==> {
                &&& r == Err::<(), BuildError>(e)
                &&& *final(orders_cache) == *old(orders_cache)
            },
            build_error(self@, *goal_orderbook, *match_orderbook) is None ==> {
                &&& r is Ok
                &&& is_built_orders(
                    **final(orders_cache),
                    match_id@,
                    goal_market_id@,
                    match_market_id@,
                    *goal_orderbook,
                    *match_orderbook,
                )
            },
    {
        match self.build_orders_for_match(
            match_id,
            goal_market_id,
            match_market_id,
            goal_orderbook,
            match_orderbook,
        ) {
            Ok(new_orders) => {
                *orders_cache = Arc::new(new_orders);
                Ok(())
            },
            Err(e) => Err(e),
        }
    }
}


/// The price limit is judged on the best ask only: when `k` is the lowest
/// price key of the match book's asks, the match-result order is refused
/// for the limit exactly when the price at `k` is numerically above the
/// limit, whatever the prices of the other asks.
pub proof fn law_limit_judged_on_best_ask(max_price: u64, book: OrderBook, k: u64)
    requires
        book.asks@.contains_key(k),
        forall|j: u64| #[trigger] book.asks@.contains_key(j) ==> k <= j,
    ensures
        (match_order_error(max_price, book) == Some(BuildError::AboveMaxPriceLimit)) <==> float_gt(
            key_bits(k),
            max_price,
        ),
{
    lemma_lowest_key_unique(book.asks@, k);
    assert(!no_levels(book.asks@)) by {
        assert(book.asks@.dom().contains(k));
    }
}

/// The orders are built from the best asks: when `g` and `m` are the lowest
/// price keys of the goal and match books' asks and the orders can be built,
/// the goal order buys the size offered at `g` at market, and the
/// match-result order is a limit buy of the size offered at `m`, at the
/// price of `m`, which is within the limit.
pub proof fn law_orders_built_from_best_asks(
    o: PreparedOrders,
    match_id: Seq<char>,
    goal_market_id: Seq<char>,
    match_market_id: Seq<char>,
    max_price: u64,
    goal_book: OrderBook,
    match_book: OrderBook,
    g: u64,
    m: u64,
)
    requires
        goal_book.asks@.contains_key(g),
        forall|j: u64| #[trigger] goal_book.asks@.contains_key(j) ==> g <= j,
        match_book.asks@.contains_key(m),
        forall|j: u64| #[trigger] match_book.asks@.contains_key(j) ==> m <= j,
        build_error(max_price, goal_book, match_book) is None,
        is_built_orders(o, match_id, goal_market_id, match_market_id, goal_book, match_book),
    ensures
        o.goal_market_order.order_type == OrderType::Market,
        o.goal_market_order.side == OrderSide::Buy,
        o.goal_market_order.size == goal_book.asks@[g],
        o.match_result_order.order_type == (OrderType::Limit { price: key_bits(m) }),
        o.match_result_order.side == OrderSide::Buy,
        o.match_result_order.price == Some(key_bits(m)),
        o.match_result_order.size == match_book.asks@[m],
        !float_gt(key_bits(m), max_price),
{
    lemma_lowest_key_unique(goal_book.asks@, g);
    lemma_lowest_key_unique(match_book.asks@, m);
    assert(!no_levels(goal_book.asks@)) by {
        assert(goal_book.asks@.dom().contains(g));
    }
    assert(!no_levels(match_book.asks@)) by {
        assert(match_book.asks@.dom().contains(m));
    }
}

} // verus!
