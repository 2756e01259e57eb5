//! Matches: their configuration, the books and prepared orders each keeps
//! current, and the manager that routes executions to them.

use vstd::prelude::*;
use std::sync::Arc;
use crate::executor::{execute_match_step, ExecuteError, ExecutionEngine};
use dashmap::DashMap;
use crate::order_builder::{build_error, is_built_orders, BuildError, OrderPreBuilder};
use crate::prepared_orders::{is_placeholder, share, PreparedOrder, PreparedOrders};
use crate::orderbook::{no_levels, MarketUpdate, MarketUpdateType, OrderBook};

verus! {

/// Applies a burst of market updates in arrival order to the goal and match
/// books: an order-book snapshot of the goal market replaces the goal book,
/// otherwise one of the match market replaces the match book; anything else
/// changes nothing.
pub open spec fn apply_updates(
    updates: Seq<MarketUpdate>,
    goal_market_id: Seq<char>,
    match_market_id: Seq<char>,
    goal_book: OrderBook,
    match_book: OrderBook,
) -> (OrderBook, OrderBook)
    decreases updates.len(),
{
    if updates.len() == 0 {
        (goal_book, match_book)
    } else {
        let (g, m) = apply_updates(
            updates.drop_last(),
            goal_market_id,
            match_market_id,
            goal_book,
            match_book,
        );
        match updates.last().update_type {
            MarketUpdateType::OrderBookUpdate(ob) => if ob.market_id@ == goal_market_id {
                (ob, m)
            } else if ob.market_id@ == match_market_id {
                (g, ob)
            } else {
                (g, m)
            },
            _ => (g, m),
        }
    }
}


/// `u` is an order-book snapshot of market `market_id`.
pub open spec fn is_snapshot_of(u: MarketUpdate, market_id: Seq<char>) -> bool {
    u.update_type matches MarketUpdateType::OrderBookUpdate(ob) && ob.market_id@ == market_id
}

/// The book that a snapshot carries.
pub open spec fn snapshot_book(u: MarketUpdate) -> OrderBook
    recommends
        u.update_type is OrderBookUpdate,
{
    match u.update_type {
        MarketUpdateType::OrderBookUpdate(ob) => ob,
        _ => arbitrary(),
    }
}

/// `u` is a snapshot that goes to the match book: of the match market and
/// not of the goal market.
pub open spec fn is_match_snapshot(u: MarketUpdate, goal_market_id: Seq<char>, match_market_id: Seq<char>) -> bool {
    is_snapshot_of(u, match_market_id) && !is_snapshot_of(u, goal_market_id)
}

/// Only the latest snapshot counts: after a burst, the goal book is the last
/// goal-market snapshot of the burst, and the goal book is unchanged when the
/// burst holds none.
pub proof fn law_latest_goal_snapshot_wins(
    updates: Seq<MarketUpdate>,
    goal_market_id: Seq<char>,
    match_market_id: Seq<char>,
    goal_book: OrderBook,
    match_book: OrderBook,
)
    ensures
        forall|i: int|
            0 <= i < updates.len() && #[trigger] is_snapshot_of(updates[i], goal_market_id) && (forall|
                j: int,
            |
                i < j < updates.len() ==> !#[trigger] is_snapshot_of(updates[j], goal_market_id))
                ==> apply_updates(updates, goal_market_id, match_market_id, goal_book, match_book).0
                == snapshot_book(updates[i]),
        (forall|j: int| 0 <= j < updates.len() ==> !#[trigger] is_snapshot_of(updates[j], goal_market_id))
            ==> apply_updates(updates, goal_market_id, match_market_id, goal_book, match_book).0
            == goal_book,
    decreases updates.len(),
{
    if updates.len() > 0 {
        let rest = updates.drop_last();
        law_latest_goal_snapshot_wins(rest, goal_market_id, match_market_id, goal_book, match_book);
        let n = updates.len() - 1;
        assert forall|i: int|
            0 <= i < updates.len() && #[trigger] is_snapshot_of(updates[i], goal_market_id) && (forall|
                j: int,
            |
                i < j < updates.len() ==> !#[trigger] is_snapshot_of(updates[j], goal_market_id))
                implies apply_updates(updates, goal_market_id, match_market_id, goal_book, match_book).0
            == snapshot_book(updates[i]) by {
            if i < n {
                assert(!is_snapshot_of(updates[n], goal_market_id));
                assert(rest[i] == updates[i]);
                assert forall|j: int| i < j < rest.len() implies !#[trigger] is_snapshot_of(
                    rest[j],
                    goal_market_id,
                ) by {
                    assert(rest[j] == updates[j]);
                }
            }
        }
        if forall|j: int| 0 <= j < updates.len() ==> !#[trigger] is_snapshot_of(updates[j], goal_market_id) {
            assert(!is_snapshot_of(updates[n], goal_market_id));
            assert forall|j: int| 0 <= j < rest.len() implies !#[trigger] is_snapshot_of(
                rest[j],
                goal_market_id,
            ) by {
                assert(rest[j] == updates[j]);
            }
        }
    }
}

/// Only the latest snapshot counts: after a burst, the match book is the
/// last snapshot of the match market (that is not also the goal market) in
/// the burst, and unchanged when the burst holds none.
pub proof fn law_latest_match_snapshot_wins(
    updates: Seq<MarketUpdate>,
    goal_market_id: Seq<char>,
    match_market_id: Seq<char>,
    goal_book: OrderBook,
    match_book: OrderBook,
)
    ensures
        forall|i: int|
            0 <= i < updates.len() && #[trigger] is_match_snapshot(
                updates[i],
                goal_market_id,
                match_market_id,
            ) && (forall|j: int|
                i < j < updates.len() ==> !#[trigger] is_match_snapshot(
                    updates[j],
                    goal_market_id,
                    match_market_id,
                )) ==> apply_updates(updates, goal_market_id, match_market_id, goal_book, match_book).1
                == snapshot_book(updates[i]),
        (forall|j: int|
            0 <= j < updates.len() ==> !#[trigger] is_match_snapshot(
                updates[j],
                goal_market_id,
                match_market_id,
            )) ==> apply_updates(updates, goal_market_id, match_market_id, goal_book, match_book).1
            == match_book,
    decreases updates.len(),
{
    if updates.len() > 0 {
        let rest = updates.drop_last();
        law_latest_match_snapshot_wins(rest, goal_market_id, match_market_id, goal_book, match_book);
        let n = updates.len() - 1;
        assert forall|i: int|
            0 <= i < updates.len() && #[trigger] is_match_snapshot(
                updates[i],
                goal_market_id,
                match_market_id,
            ) && (forall|j: int|
                i < j < updates.len() ==> !#[trigger] is_match_snapshot(
                    updates[j],
                    goal_market_id,
                    match_market_id,
                )) implies apply_updates(updates, goal_market_id, match_market_id, goal_book, match_book).1
            == snapshot_book(updates[i]) by {
            if i < n {
                assert(!is_match_snapshot(updates[n], goal_market_id, match_market_id));
                assert(rest[i] == updates[i]);
                assert forall|j: int| i < j < rest.len() implies !#[trigger] is_match_snapshot(
                    rest[j],
                    goal_market_id,
                    match_market_id,
                ) by {
                    assert(rest[j] == updates[j]);
                }
            }
        }
        if forall|j: int|
            0 <= j < updates.len() ==> !#[trigger] is_match_snapshot(
                updates[j],
                goal_market_id,
                match_market_id,
            ) {
            assert(!is_match_snapshot(updates[n], goal_market_id, match_market_id));
            assert forall|j: int| 0 <= j < rest.len() implies !#[trigger] is_match_snapshot(
                rest[j],
                goal_market_id,
                match_market_id,
            ) by {
                assert(rest[j] == updates[j]);
            }
        }
    }
}

/// What one match trades and how it is triggered. `max_price_limit` is a
/// binary64 bit pattern.
pub struct MatchConfig {
    pub id: String,
    pub name: String,
    pub goal_market_id: String,
    pub match_market_id: String,
    pub max_price_limit: u64,
    pub keyboard_shortcut: Option<char>,
}

impl MatchConfig {
    pub fn new(
        id: String,
        name: String,
        goal_market_id: String,
        match_market_id: String,
        max_price_limit: u64,
        keyboard_shortcut: Option<char>,
    ) -> (r: Self)
        ensures
            r.id == id,
            r.name == name,
            r.goal_market_id == goal_market_id,
            r.match_market_id == match_market_id,
            r.max_price_limit == max_price_limit,
            r.keyboard_shortcut == keyboard_shortcut,
    {
        MatchConfig { id, name, goal_market_id, match_market_id, max_price_limit, keyboard_shortcut }
    }
}

impl Clone for MatchConfig {
    fn clone(&self) -> (r: Self)
        ensures
            r == *self,
    {
        MatchConfig {
            id: self.id.clone(),
            name: self.name.clone(),
            goal_market_id: self.goal_market_id.clone(),
            match_market_id: self.match_market_id.clone(),
            max_price_limit: self.max_price_limit,
            keyboard_shortcut: self.keyboard_shortcut,
        }
    }
}

/// The orders a match holds before any market data: two placeholders.
pub open spec fn is_initial_orders(o: PreparedOrders, match_id: Seq<char>) -> bool {
    &&& o.match_id@ == match_id
    &&& is_placeholder(o.goal_market_order)
    &&& is_placeholder(o.match_result_order)
}

/// A configured match.
pub struct MatchEngine {
    config: MatchConfig,
}

/// The market-data side of a match: the latest book of each of its two
/// markets and the orders prepared from them.
pub struct MarketDataHandler {
    pub match_id: String,
    pub goal_market_id: String,
    pub match_market_id: String,
    pub goal_orderbook: OrderBook,
    pub match_orderbook: OrderBook,
    pub prepared_orders: Arc<PreparedOrders>,
    pub order_pre_builder: OrderPreBuilder,
}

impl MatchEngine {
    pub closed spec fn config_view(&self) -> MatchConfig {
        self.config
    }

    /// Starts a match: its books are empty, its orders are placeholders, and
    /// those placeholders become the match's prepared orders in
    /// `execution_engine`. Returns the match and its market-data side.
    pub fn new(config: MatchConfig, execution_engine: &mut ExecutionEngine) -> (r: (
        MatchEngine,
        MarketDataHandler,
    ))
        ensures
            r.0.config_view() == config,
            r.1.match_id == config.id,
            r.1.goal_market_id == config.goal_market_id,
            r.1.match_market_id == config.match_market_id,
            r.1.goal_orderbook.market_id@ == config.goal_market_id@,
            no_levels(r.1.goal_orderbook.asks@),
            no_levels(r.1.goal_orderbook.bids@),
            r.1.match_orderbook.market_id@ == config.match_market_id@,
            no_levels(r.1.match_orderbook.asks@),
            no_levels(r.1.match_orderbook.bids@),
            r.1.order_pre_builder@ == config.max_price_limit,
            is_initial_orders(*r.1.prepared_orders, config.id@),
            final(execution_engine).cache() == old(execution_engine).cache().insert(
                config.id@,
                r.1.prepared_orders,
            ),
            final(execution_engine).pending() == old(execution_engine).pending(),
    {
        let order_pre_builder = OrderPreBuilder::new(config.max_price_limit);
        let prepared_orders = Arc::new(
            PreparedOrders::new(
                config.id.clone(),
                PreparedOrder::placeholder(),
                PreparedOrder::placeholder(),
            ),
        );
        let goal_orderbook = OrderBook::new(config.goal_market_id.clone());
        let match_orderbook = OrderBook::new(config.match_market_id.clone());
        execution_engine.update_prepared_orders(config.id.as_str(), share(&prepared_orders));
        let handler = MarketDataHandler {
            match_id: config.id.clone(),
            goal_market_id: config.goal_market_id.clone(),
            match_market_id: config.match_market_id.clone(),
            goal_orderbook,
            match_orderbook,
            prepared_orders,
            order_pre_builder,
        };
        (MatchEngine { config }, handler)
    }

    pub fn get_config(&self) -> (r: &MatchConfig)
        ensures
            *r == self.config_view(),
    {
        &self.config
    }

    /// The orders currently prepared for this match in `execution_engine`.
    pub fn get_prepared_orders(&self, execution_engine: &ExecutionEngine) -> (r: Option<
        Arc<PreparedOrders>,
    >)
        ensures
            r is Some <==> execution_engine.cache().contains_key(self.config_view().id@),
            r matches Some(o) ==> o == execution_engine.cache()[self.config_view().id@],
    {
        execution_engine.prepared_orders(self.config.id.as_str())
    }

    /// Queues the execution of the match's latest prepared orders.
    pub fn execute(&self, execution_engine: &mut ExecutionEngine) -> (r: Result<(), ExecuteError>)
        ensures
            execute_match_step(
                *old(execution_engine),
                *final(execution_engine),
                self.config_view().id@,
                r,
            ),
    {
        execution_engine.execute_match(self.config.id.as_str())
    }
}

/// The effect of `MarketDataHandler::apply_market_updates(updates)` taking
/// the handler from `h0` to `h1` and the execution engine from `e0` to `e1`
/// with result `r`: the books take in the burst, the orders are rebuilt from
/// them, and a successful rebuild is published to the engine.
pub open spec fn market_data_step(
    h0: MarketDataHandler,
    h1: MarketDataHandler,
    e0: ExecutionEngine,
    e1: ExecutionEngine,
    updates: Seq<MarketUpdate>,
    r: Result<(), BuildError>,
) -> bool {
    &&& h1.match_id == h0.match_id
    &&& h1.goal_market_id == h0.goal_market_id
    &&& h1.match_market_id == h0.match_market_id
    &&& h1.order_pre_builder == h0.order_pre_builder
    &&& (h1.goal_orderbook, h1.match_orderbook) == apply_updates(
        updates,
        h0.goal_market_id@,
        h0.match_market_id@,
        h0.goal_orderbook,
        h0.match_orderbook,
    )
    &&& e1.pending() == e0.pending()
    &&& build_error(h0.order_pre_builder@, h1.goal_orderbook, h1.match_orderbook) matches Some(e)
        ==> {
        &&& r == Err::<(), BuildError>(e)
        &&& h1.prepared_orders == h0.prepared_orders
        &&& e1.cache() == e0.cache()
    }
    &&& build_error(h0.order_pre_builder@, h1.goal_orderbook, h1.match_orderbook) is None ==> {
        &&& r is Ok
        &&& is_built_orders(
            *h1.prepared_orders,
            h0.match_id@,
            h0.goal_market_id@,
            h0.match_market_id@,
            h1.goal_orderbook,
            h1.match_orderbook,
        )
        &&& e1.cache() == e0.cache().insert(h0.match_id@, h1.prepared_orders)
    }
}

/// A key press executes what the latest market data prepared: after a burst
/// of updates from which the orders can be built, executing the match (with
/// room in the queue) queues exactly the orders built from the resulting
/// books.
pub proof fn law_execution_sends_orders_from_latest_books(
    h0: MarketDataHandler,
    h1: MarketDataHandler,
    e0: ExecutionEngine,
    e1: ExecutionEngine,
    e2: ExecutionEngine,
    updates: Seq<MarketUpdate>,
    r: Result<(), BuildError>,
    x: Result<(), ExecuteError>,
)
    requires
        market_data_step(h0, h1, e0, e1, updates, r),
        build_error(h0.order_pre_builder@, h1.goal_orderbook, h1.match_orderbook) is None,
        execute_match_step(e1, e2, h0.match_id@, x),
        e0.pending().len() < crate::executor::EXECUTION_QUEUE_CAPACITY,
    ensures
        r is Ok,
        x is Ok,
        is_built_orders(
            *e2.pending().last().orders,
            h0.match_id@,
            h0.goal_market_id@,
            h0.match_market_id@,
            h1.goal_orderbook,
            h1.match_orderbook,
        ),
{
    crate::executor::law_execute_uses_latest_orders(e0, e1, e2, h0.match_id@, h1.prepared_orders, x);
}

/// A burst from which the orders cannot be built changes nothing that an
/// execution sends: the engine keeps the orders it had.
pub proof fn law_failed_rebuild_keeps_published_orders(
    h0: MarketDataHandler,
    h1: MarketDataHandler,
    e0: ExecutionEngine,
    e1: ExecutionEngine,
    updates: Seq<MarketUpdate>,
    r: Result<(), BuildError>,
)
    requires
        market_data_step(h0, h1, e0, e1, updates, r),
        r is Err,
    ensures
        e1.cache() == e0.cache(),
        e1.pending() == e0.pending(),
        h1.prepared_orders == h0.prepared_orders,
{
}

impl MarketDataHandler {
    /// Takes in a burst of market updates in arrival order (the latest
    /// snapshot of each market wins), then rebuilds the match's orders from
    /// the books. A successful rebuild replaces the prepared orders here and
    /// in `execution_engine`; a failed one leaves both as they were.
    pub fn apply_market_updates(
        &mut self,
        updates: Vec<MarketUpdate>,
        execution_engine: &mut ExecutionEngine,
    ) -> (r: Result<(), BuildError>)
        ensures
            market_data_step(
                *old(self),
                *final(self),
                *old(execution_engine),
                *final(execution_engine),
                updates@,
                r,
            ),
    {
        let ghost all = updates@;
        let ghost g0 = self.goal_orderbook;
        let ghost m0 = self.match_orderbook;
        for u in it: updates.into_iter()
            invariant
                it.seq() == all,
                self.goal_market_id == old(self).goal_market_id,
                self.match_market_id == old(self).match_market_id,
                self.match_id == old(self).match_id,
                self.order_pre_builder == old(self).order_pre_builder,
                self.prepared_orders == old(self).prepared_orders,
                (self.goal_orderbook, self.match_orderbook) == apply_updates(
                    all.take(it.index() as int),
                    self.goal_market_id@,
                    self.match_market_id@,
                    g0,
                    m0,
                ),
        {
            proof {
                assert(all.take(it.index() + 1).drop_last() == all.take(it.index() as int));
            }
            match u.update_type {
                MarketUpdateType::OrderBookUpdate(ob) => {
                    if ob.market_id == self.goal_market_id {
                        self.goal_orderbook = ob;
                    } else if ob.market_id == self.match_market_id {
                        self.match_orderbook = ob;
                    }
                },
                _ => {},
            }
        }
        proof {
            assert(all.take(all.len() as int) == all);
        }
        match self.order_pre_builder.update_orders_on_market_data(
            self.match_id.as_str(),
            self.goal_market_id.as_str(),
            self.match_market_id.as_str(),
            &self.goal_orderbook,
            &self.match_orderbook,
            &mut self.prepared_orders,
        ) {
            Ok(()) => {
                execution_engine.update_prepared_orders(
                    self.match_id.as_str(),
                    share(&self.prepared_orders),
                );
                Ok(())
            },
            Err(e) => Err(e),
        }
    }
}

/// Why the manager could not queue an execution.
#[derive(Debug, PartialEq, Eq)]
pub enum ManagerError {
    /// No match with this id was added.
    MatchNotFound(String),
    /// The execution engine refused the request.
    Execution(ExecuteError),
}

/// The message text of each manager error.
pub open spec fn manager_error_message(e: ManagerError) -> Seq<char> {
    match e {
        ManagerError::MatchNotFound(id) => "Match not found: "@ + id@,
        ManagerError::Execution(x) => crate::executor::execute_error_message(x),
    }
}

impl ManagerError {
    pub fn message(&self) -> (r: String)
        ensures
            r@ == manager_error_message(*self),
    {
        match self {
            ManagerError::MatchNotFound(id) => {
                let r = String::from_str("Match not found: ").concat(id.as_str());
                proof {
                    reveal_strlit("Match not found: ");
                }
                r
            },
            ManagerError::Execution(x) => x.message(),
        }
    }
}

/// An execution engine's result as the manager reports it.
pub open spec fn lift_execute_result(x: Result<(), ExecuteError>) -> Result<(), ManagerError> {
    match x {
        Ok(()) => Ok(()),
        Err(e) => Err(ManagerError::Execution(e)),
    }
}

/// The effect of `MatchManager::execute_match(match_id)` taking `m0` to
/// `m1` with result `r`: an unknown match is reported and nothing changes;
/// otherwise the match's execution goes to the engine, whose answer is passed
/// on.
pub open spec fn manager_execute_step(
    m0: MatchManager,
    m1: MatchManager,
    match_id: Seq<char>,
    r: Result<(), ManagerError>,
) -> bool {
    &&& m1.matches() == m0.matches()
    &&& !m0.matches().contains_key(match_id) ==> {
        &&& r matches Err(ManagerError::MatchNotFound(id)) && id@ == match_id
        &&& m1.engine() == m0.engine()
    }
    &&& m0.matches().contains_key(match_id) ==> exists|x: Result<(), ExecuteError>|
        {
            &&& #[trigger] execute_match_step(m0.engine(), m1.engine(), match_id, x)
            &&& r == lift_execute_result(x)
        }
}

/// What a table of matches holds: match id to match.
pub uninterp spec fn match_table(m: DashMap<String, Arc<MatchEngine>>) -> Map<Seq<char>, Arc<MatchEngine>>;

/// The table holds no match.
pub open spec fn no_matches(t: Map<Seq<char>, Arc<MatchEngine>>) -> bool {
    t == Map::<Seq<char>, Arc<MatchEngine>>::empty()
}

/// Calls `DashMap::new`: a map with no entry.
#[verifier::external_body]
fn new_match_table() -> (r: DashMap<String, Arc<MatchEngine>>)
    ensures
        no_matches(match_table(r)),
{
    DashMap::new()
}

/// Calls `DashMap::insert`: afterwards `key` maps to `value` and every other
/// entry is as before (the replaced value that it returns is dropped).
#[verifier::external_body]
fn match_table_insert(m: &mut DashMap<String, Arc<MatchEngine>>, key: String, value: Arc<MatchEngine>)
    ensures
        match_table(*final(m)) == match_table(*old(m)).insert(key@, value),
{
    m.insert(key, value);
}

/// Calls `DashMap::get` and hands out a clone of the `Arc` that the guard
/// points to: the match stored under `key`, if any.
#[verifier::external_body]
fn match_table_get(m: &DashMap<String, Arc<MatchEngine>>, key: &str) -> (r: Option<Arc<MatchEngine>>)
    ensures
        r is Some <==> match_table(*m).contains_key(key@),
        r matches Some(e) ==> e == match_table(*m)[key@],
{
    match m.get(key) {
        Some(entry) => Some(Arc::clone(entry.value())),
        None => None,
    }
}

/// Calls `DashMap::iter` and hands out a clone of each value's `Arc`: one
/// element per entry, in the order the map's shards yield them (the source
/// fixes no order).
#[verifier::external_body]
fn match_table_values(m: &DashMap<String, Arc<MatchEngine>>) -> (r: Vec<Arc<MatchEngine>>)
    ensures
        r@.len() == match_table(*m).dom().len(),
        forall|i: int| 0 <= i < r@.len() ==> match_table(*m).values().contains(#[trigger] r@[i]),
        forall|k: Seq<char>| #[trigger] match_table(*m).contains_key(k) ==> r@.contains(match_table(*m)[k]),
{
    m.iter().map(|entry| Arc::clone(entry.value())).collect()
}

/// The configured matches, each stored under its own id.
struct MatchTable {
    table: DashMap<String, Arc<MatchEngine>>,
}

impl MatchTable {
    #[verifier::type_invariant]
    spec fn keys_are_ids(&self) -> bool {
        forall|k: Seq<char>|
            #[trigger] match_table(self.table).contains_key(k) ==> match_table(self.table)[k].config_view().id@
                == k
    }

    closed spec fn map(&self) -> Map<Seq<char>, Arc<MatchEngine>> {
        match_table(self.table)
    }

    fn new() -> (r: Self)
        ensures
            no_matches(r.map()),
    {
        MatchTable { table: new_match_table() }
    }

    /// Stores `engine` under its own id, replacing the match stored there.
    fn insert(&mut self, engine: MatchEngine)
        ensures
            final(self).map() == old(self).map().insert(engine.config_view().id@, Arc::new(engine)),
    {
        proof {
            use_type_invariant(&*self);
        }
        let id = engine.config.id.clone();
        let mut table = new_match_table();
        std::mem::swap(&mut table, &mut self.table);
        match_table_insert(&mut table, id, Arc::new(engine));
        self.table = table;
    }

    /// The match stored under `match_id`, whose own id is `match_id`.
    fn get(&self, match_id: &str) -> (r: Option<Arc<MatchEngine>>)
        ensures
            r is Some <==> self.map().contains_key(match_id@),
            r matches Some(m) ==> m == self.map()[match_id@] && m.config_view().id@ == match_id@,
    {
        proof {
            use_type_invariant(self);
        }
        match_table_get(&self.table, match_id)
    }

    /// Every match, once each.
    fn values(&self) -> (r: Vec<Arc<MatchEngine>>)
        ensures
            r@.len() == self.map().dom().len(),
            forall|i: int| 0 <= i < r@.len() ==> self.map().values().contains(#[trigger] r@[i]),
            forall|k: Seq<char>| #[trigger] self.map().contains_key(k) ==> r@.contains(self.map()[k]),
    {
        match_table_values(&self.table)
    }
}

/// The configured matches, by id, and the execution engine they share.
pub struct MatchManager {
    matches: MatchTable,
    execution_engine: ExecutionEngine,
}

impl MatchManager {
    /// Match id to match.
    pub closed spec fn matches(&self) -> Map<Seq<char>, Arc<MatchEngine>> {
        self.matches.map()
    }

    /// The execution engine the matches share.
    pub closed spec fn engine(&self) -> ExecutionEngine {
        self.execution_engine
    }

    pub fn execution_engine(&self) -> (r: &ExecutionEngine)
        ensures
            *r == self.engine(),
    {
        &self.execution_engine
    }

    /// The shared execution engine, for dispatching its queue; the matches
    /// are left as they are.
    pub fn execution_engine_mut(&mut self) -> (r: &mut ExecutionEngine)
        ensures
            *r == old(self).engine(),
            final(self).engine() == *final(r),
            final(self).matches() == old(self).matches(),
    {
        &mut self.execution_engine
    }

    pub fn new(execution_engine: ExecutionEngine) -> (r: Self)
        ensures
            no_matches(r.matches()),
            r.engine() == execution_engine,
    {
        MatchManager { matches: MatchTable::new(), execution_engine }
    }

    /// Adds (or replaces) the match `config.id`, registering its placeholder
    /// orders with the execution engine; returns the match's market-data side
    /// for the caller to feed.
    pub fn add_match(&mut self, config: MatchConfig) -> (r: MarketDataHandler)
        ensures
            final(self).matches().contains_key(config.id@),
            final(self).matches()[config.id@].config_view() == config,
            final(self).matches() == old(self).matches().insert(
                config.id@,
                final(self).matches()[config.id@],
            ),
            r.match_id == config.id,
            is_initial_orders(*r.prepared_orders, config.id@),
            final(self).engine().cache() == old(self).engine().cache().insert(
                config.id@,
                r.prepared_orders,
            ),
            final(self).engine().pending() == old(self).engine().pending(),
    {
        let (engine, handler) = MatchEngine::new(config, &mut self.execution_engine);
        self.matches.insert(engine);
        handler
    }

    /// The match with id `match_id`, if any.
    pub fn get_match(&self, match_id: &str) -> (r: Option<Arc<MatchEngine>>)
        ensures
            r is Some <==> self.matches().contains_key(match_id@),
            r matches Some(m) ==> m == self.matches()[match_id@] && m.config_view().id@ == match_id@,
    {
        self.matches.get(match_id)
    }

    /// Every match, once each, in no particular order.
    pub fn get_all_matches(&self) -> (r: Vec<Arc<MatchEngine>>)
        ensures
            r@.len() == self.matches().dom().len(),
            forall|i: int| 0 <= i < r@.len() ==> self.matches().values().contains(#[trigger] r@[i]),
            forall|k: Seq<char>| #[trigger] self.matches().contains_key(k) ==> r@.contains(self.matches()[k]),
    {
        self.matches.values()
    }

    /// Queues the execution of match `match_id`.
    pub fn execute_match(&mut self, match_id: &str) -> (r: Result<(), ManagerError>)
        ensures
            manager_execute_step(*old(self), *final(self), match_id@, r),
    {
        match self.matches.get(match_id) {
            Some(engine) => {
                let ghost before = self.execution_engine;
                let x = engine.execute(&mut self.execution_engine);
                let r = match x {
                    Ok(()) => Ok(()),
                    Err(e) => Err(ManagerError::Execution(e)),
                };
                assert(execute_match_step(before, self.execution_engine, match_id@, x));
                assert(r == lift_execute_result(x));
                assert(before == old(self).engine());
                assert(self.execution_engine == self.engine());
                assert(self.matches() == old(self).matches());
                r
            },
            None => Err(ManagerError::MatchNotFound(String::from_str(match_id))),
        }
    }
}

} // verus!
