//! Bookkeeping of the execution engine: the latest prepared orders of each
//! match, and a bounded queue of execution requests waiting for dispatch.

use vstd::prelude::*;
use std::collections::VecDeque;
use std::sync::Arc;
use dashmap::DashMap;
use crate::prepared_orders::{ExecutionRequest, PreparedOrders};

verus! {

#[verifier::external_type_specification]
#[verifier::external_body]
#[verifier::reject_recursive_types(K)]
#[verifier::reject_recursive_types(V)]
#[verifier::reject_recursive_types(S)]
pub struct ExDashMap<K, V, S>(DashMap<K, V, S>);

/// What a cache of prepared orders holds: match id to orders.
pub uninterp spec fn cache_contents(m: DashMap<String, Arc<PreparedOrders>>) -> Map<Seq<char>, Arc<PreparedOrders>>;

/// The cache holds no entry.
pub open spec fn cache_empty(c: Map<Seq<char>, Arc<PreparedOrders>>) -> bool {
    c == Map::<Seq<char>, Arc<PreparedOrders>>::empty()
}

/// Calls `DashMap::new`: a map with no entry.
#[verifier::external_body]
fn new_cache() -> (r: DashMap<String, Arc<PreparedOrders>>)
    ensures
        cache_empty(cache_contents(r)),
{
    DashMap::new()
}

/// Calls `DashMap::insert`: afterwards `key` maps to `value` and every other
/// entry is as before (the replaced value that it returns is dropped).
#[verifier::external_body]
fn cache_insert(m: &mut DashMap<String, Arc<PreparedOrders>>, key: String, value: Arc<PreparedOrders>)
    ensures
        cache_contents(*final(m)) == cache_contents(*old(m)).insert(key@, value),
{
    m.insert(key, value);
}

/// Calls `DashMap::get` and hands out a clone of the `Arc` that the guard
/// points to: the orders stored under `key`, if any.
#[verifier::external_body]
fn cache_get(m: &DashMap<String, Arc<PreparedOrders>>, key: &str) -> (r: Option<Arc<PreparedOrders>>)
    ensures
        r is Some <==> cache_contents(*m).contains_key(key@),
        r matches Some(o) ==> o == cache_contents(*m)[key@],
{
    match m.get(key) {
        Some(entry) => Some(Arc::clone(entry.value())),
        None => None,
    }
}

/// How many execution requests may wait at once.
pub const EXECUTION_QUEUE_CAPACITY: usize = 1000;

/// Why an execution request was not queued.
#[derive(Debug, Clone, Copy, PartialEq, Eq, Structural)]
pub enum ExecuteError {
    /// No orders have been prepared for the match.
    NoPreparedOrders,
    /// The queue already holds [`EXECUTION_QUEUE_CAPACITY`] requests.
    QueueFull,
}

/// The message text of each execution error.
pub open spec fn execute_error_message(e: ExecuteError) -> Seq<char> {
    match e {
        ExecuteError::NoPreparedOrders => "No prepared orders available"@,
        ExecuteError::QueueFull => "Execution queue full, try again later"@,
    }
}

impl ExecuteError {
    pub fn message(&self) -> (r: String)
        ensures
            r@ == execute_error_message(*self),
    {
        proof {
            reveal_strlit("No prepared orders available");
            reveal_strlit("Execution queue full, try again later");
        }
        match self {
            ExecuteError::NoPreparedOrders => String::from_str("No prepared orders available"),
            ExecuteError::QueueFull => String::from_str("Execution queue full, try again later"),
        }
    }
}

/// The effect of `ExecutionEngine::execute_match(match_id)` taking `before`
/// to `after` with result `r`.
pub open spec fn execute_match_step(
    before: ExecutionEngine,
    after: ExecutionEngine,
    match_id: Seq<char>,
    r: Result<(), ExecuteError>,
) -> bool {
    &&& after.cache() == before.cache()
    &&& !before.cache().contains_key(match_id) ==> {
        &&& r == Err::<(), ExecuteError>(ExecuteError::NoPreparedOrders)
        &&& after.pending() == before.pending()
    }
    &&& before.cache().contains_key(match_id) && before.pending().len()
        >= EXECUTION_QUEUE_CAPACITY ==> {
        &&& r == Err::<(), ExecuteError>(ExecuteError::QueueFull)
        &&& after.pending() == before.pending()
    }
    &&& before.cache().contains_key(match_id) && before.pending().len()
        < EXECUTION_QUEUE_CAPACITY ==> {
        &&& r is Ok
        &&& after.pending().len() == before.pending().len() + 1
        &&& after.pending().drop_last() == before.pending()
        &&& after.pending().last().match_id@ == match_id
        &&& after.pending().last().orders == before.cache()[match_id]
    }
}

/// Requests waiting for dispatch, oldest first; never more than
/// [`EXECUTION_QUEUE_CAPACITY`].
struct RequestQueue {
    items: VecDeque<ExecutionRequest>,
}

impl RequestQueue {
    #[verifier::type_invariant]
    spec fn bounded(&self) -> bool {
        self.items@.len() <= EXECUTION_QUEUE_CAPACITY
    }

    closed spec fn view(&self) -> Seq<ExecutionRequest> {
        self.items@
    }

    fn new() -> (r: Self)
        ensures
            r.view() == Seq::<ExecutionRequest>::empty(),
    {
        RequestQueue { items: VecDeque::new() }
    }

    fn len(&self) -> (r: usize)
        ensures
            r == self.view().len(),
            r <= EXECUTION_QUEUE_CAPACITY,
    {
        proof {
            use_type_invariant(self);
        }
        self.items.len()
    }

    /// Appends `request` unless the queue is full, in which case it is
    /// handed back.
    fn push(&mut self, request: ExecutionRequest) -> (r: Result<(), ExecutionRequest>)
        ensures
            old(self).view().len() >= EXECUTION_QUEUE_CAPACITY ==> {
                &&& r == Err::<(), ExecutionRequest>(request)
                &&& final(self).view() == old(self).view()
            },
            old(self).view().len() < EXECUTION_QUEUE_CAPACITY ==> {
                &&& r is Ok
                &&& final(self).view() == old(self).view().push(request)
            },
    {
        proof {
            use_type_invariant(&*self);
        }
        if self.items.len() >= EXECUTION_QUEUE_CAPACITY {
            return Err(request);
        }
        let mut items = VecDeque::new();
        std::mem::swap(&mut items, &mut self.items);
        items.push_back(request);
        self.items = items;
        Ok(())
    }

    /// Takes the oldest request, if any.
    fn pop(&mut self) -> (r: Option<ExecutionRequest>)
        ensures
            old(self).view().len() == 0 ==> r is None && final(self).view() == old(self).view(),
            old(self).view().len() > 0 ==> {
                &&& r == Some(old(self).view()[0])
                &&& final(self).view() == old(self).view().drop_first()
            },
    {
        proof {
            use_type_invariant(&*self);
        }
        let mut items = VecDeque::new();
        std::mem::swap(&mut items, &mut self.items);
        let r = items.pop_front();
        self.items = items;
        r
    }
}

/// The latest prepared orders per match and the requests waiting for
/// dispatch, oldest first.
pub struct ExecutionEngine {
    prepared_orders_cache: DashMap<String, Arc<PreparedOrders>>,
    queue: RequestQueue,
}

impl ExecutionEngine {
    /// Match id to the latest orders prepared for it.
    pub closed spec fn cache(&self) -> Map<Seq<char>, Arc<PreparedOrders>> {
        cache_contents(self.prepared_orders_cache)
    }

    /// The requests waiting for dispatch, oldest first.
    pub closed spec fn pending(&self) -> Seq<ExecutionRequest> {
        self.queue.view()
    }

    /// No prepared orders and nothing waiting.
    pub fn new() -> (r: Self)
        ensures
            cache_empty(r.cache()),
            r.pending() == Seq::<ExecutionRequest>::empty(),
    {
        ExecutionEngine { prepared_orders_cache: new_cache(), queue: RequestQueue::new() }
    }

    /// The number of requests waiting; never more than the capacity.
    pub fn pending_len(&self) -> (r: usize)
        ensures
            r == self.pending().len(),
            r <= EXECUTION_QUEUE_CAPACITY,
    {
        self.queue.len()
    }

    /// The orders currently prepared for `match_id`, if any.
    pub fn prepared_orders(&self, match_id: &str) -> (r: Option<Arc<PreparedOrders>>)
        ensures
            r is Some <==> self.cache().contains_key(match_id@),
            r matches Some(o) ==> o == self.cache()[match_id@],
    {
        cache_get(&self.prepared_orders_cache, match_id)
    }

    /// Makes `orders` the latest prepared orders of `match_id`.
    pub fn update_prepared_orders(&mut self, match_id: &str, orders: Arc<PreparedOrders>)
        ensures
            final(self).cache() == old(self).cache().insert(match_id@, orders),
            final(self).pending() == old(self).pending(),
    {
        cache_insert(&mut self.prepared_orders_cache, String::from_str(match_id), orders);
    }

    /// Queues a request to execute the latest prepared orders of `match_id`,
    /// without waiting: fails when no orders are prepared for the match, or
    /// when the queue is full; a failure changes nothing.
    pub fn execute_match(&mut self, match_id: &str) -> (r: Result<(), ExecuteError>)
        ensures
            execute_match_step(*old(self), *final(self), match_id@, r),
    {
        let orders = match self.prepared_orders(match_id) {
            Some(o) => o,
            None => return Err(ExecuteError::NoPreparedOrders),
        };
        let request = ExecutionRequest::new(String::from_str(match_id), orders);
        let ghost before = self.pending();
        match self.try_send(request) {
            Ok(()) => {
                assert(self.pending().drop_last() =~= before);
                Ok(())
            },
            Err(_) => Err(ExecuteError::QueueFull),
        }
    }

    /// Queues `request` without waiting; when the queue is full it is handed
    /// back and nothing changes.
    pub fn try_send(&mut self, request: ExecutionRequest) -> (r: Result<(), ExecutionRequest>)
        ensures
            final(self).cache() == old(self).cache(),
            old(self).pending().len() >= EXECUTION_QUEUE_CAPACITY ==> {
                &&& r == Err::<(), ExecutionRequest>(request)
                &&& final(self).pending() == old(self).pending()
            },
            old(self).pending().len() < EXECUTION_QUEUE_CAPACITY ==> {
                &&& r is Ok
                &&& final(self).pending() == old(self).pending().push(request)
            },
    {
        self.queue.push(request)
    }

    /// Takes the oldest waiting request, if any.
    pub fn next_request(&mut self) -> (r: Option<ExecutionRequest>)
        ensures
            final(self).cache() == old(self).cache(),
            old(self).pending().len() == 0 ==> r is None && final(self).pending() == old(self).pending(),
            old(self).pending().len() > 0 ==> {
                &&& r == Some(old(self).pending()[0])
                &&& final(self).pending() == old(self).pending().drop_first()
            },
    {
        self.queue.pop()
    }
}

/// Read after write: once `orders` are made the prepared orders of a match,
/// executing that match (with room in the queue) queues a request carrying
/// exactly those orders.
pub proof fn law_execute_uses_latest_orders(
    e0: ExecutionEngine,
    e1: ExecutionEngine,
    e2: ExecutionEngine,
    match_id: Seq<char>,
    orders: Arc<PreparedOrders>,
    r: Result<(), ExecuteError>,
)
    requires
        e1.cache() == e0.cache().insert(match_id, orders),
        e1.pending() == e0.pending(),
        execute_match_step(e1, e2, match_id, r),
        e0.pending().len() < EXECUTION_QUEUE_CAPACITY,
    ensures
        r is Ok,
        e2.pending().last().match_id@ == match_id,
        e2.pending().last().orders == orders,
{
}

/// A refused execution request changes nothing: no request is queued and
/// the prepared orders stay as they were.
pub proof fn law_refused_execution_changes_nothing(
    e0: ExecutionEngine,
    e1: ExecutionEngine,
    match_id: Seq<char>,
    r: Result<(), ExecuteError>,
)
    requires
        execute_match_step(e0, e1, match_id, r),
        r is Err,
    ensures
        e1.pending() == e0.pending(),
        e1.cache() == e0.cache(),
{
}

/// Executing a match leaves its prepared orders in place, so it can be
/// executed again: a second execution right after a successful one succeeds
/// too while the queue has room, and carries the same orders.
pub proof fn law_execution_repeatable(
    e0: ExecutionEngine,
    e1: ExecutionEngine,
    e2: ExecutionEngine,
    match_id: Seq<char>,
    r1: Result<(), ExecuteError>,
    r2: Result<(), ExecuteError>,
)
    requires
        execute_match_step(e0, e1, match_id, r1),
        execute_match_step(e1, e2, match_id, r2),
        r1 is Ok,
        e1.pending().len() < EXECUTION_QUEUE_CAPACITY,
    ensures
        r2 is Ok,
        e2.pending().last().orders == e1.pending().last().orders,
{
}

/// Updates of the prepared orders, applied one after another (as the
/// program applies concurrent updates, one at a time), leave one entry per
/// match that was ever updated or held before, each holding the orders of the
/// last update on its match; matches that no update names keep their orders.
/// `states[i]` is the engine before the update `calls[i]` and `states[i + 1]`
/// the engine after it.
pub proof fn law_cache_keeps_last_update_per_key(
    states: Seq<ExecutionEngine>,
    calls: Seq<(Seq<char>, Arc<PreparedOrders>)>,
)
    requires
        states.len() == calls.len() + 1,
        forall|i: int|
            0 <= i < calls.len() ==> #[trigger] states[i + 1].cache() == states[i].cache().insert(
                calls[i].0,
                calls[i].1,
            ),
    ensures
        forall|k: Seq<char>|
            #[trigger] states.last().cache().contains_key(k) <==> (states[0].cache().contains_key(k)
                || exists|i: int| 0 <= i < calls.len() && (#[trigger] calls[i]).0 == k),
        forall|i: int|
            0 <= i < calls.len() && (forall|j: int| i < j < calls.len() ==> (#[trigger] calls[j]).0
                != calls[i].0) ==> states.last().cache()[(#[trigger] calls[i]).0] == calls[i].1,
        forall|k: Seq<char>|
            states[0].cache().contains_key(k) && (forall|i: int|
                0 <= i < calls.len() ==> (#[trigger] calls[i]).0 != k) ==> #[trigger] states.last().cache()[k]
                == states[0].cache()[k],
    decreases calls.len(),
{
    let n = calls.len() as int;
    if n > 0 {
        let ps = states.drop_last();
        let pc = calls.drop_last();
        assert forall|i: int| 0 <= i < pc.len() implies #[trigger] ps[i + 1].cache() == ps[i].cache().insert(
            pc[i].0,
            pc[i].1,
        ) by {
            assert(states[i + 1].cache() == states[i].cache().insert(calls[i].0, calls[i].1));
        }
        law_cache_keeps_last_update_per_key(ps, pc);
        let c = calls[n - 1];
        assert(states[n].cache() == states[n - 1].cache().insert(c.0, c.1));
        assert(states.last() == states[n]);
        assert(ps.last() == states[n - 1]);
        assert(ps[0] == states[0]);
        assert forall|k: Seq<char>|
            #[trigger] states.last().cache().contains_key(k) <==> (states[0].cache().contains_key(k)
                || exists|i: int| 0 <= i < calls.len() && (#[trigger] calls[i]).0 == k) by {
            if k == c.0 {
                assert(calls[n - 1].0 == k);
            } else {
                if exists|i: int| 0 <= i < calls.len() && (#[trigger] calls[i]).0 == k {
                    let i = choose|i: int| 0 <= i < calls.len() && (#[trigger] calls[i]).0 == k;
                    assert(i < n - 1);
                    assert(pc[i] == calls[i]);
                }
                if exists|i: int| 0 <= i < pc.len() && (#[trigger] pc[i]).0 == k {
                    let i = choose|i: int| 0 <= i < pc.len() && (#[trigger] pc[i]).0 == k;
                    assert(pc[i] == calls[i]);
                }
            }
        }
        assert forall|i: int|
            0 <= i < calls.len() && (forall|j: int| i < j < calls.len() ==> (#[trigger] calls[j]).0
                != calls[i].0) implies states.last().cache()[(#[trigger] calls[i]).0] == calls[i].1 by {
            if i < n - 1 {
                assert(calls[n - 1].0 != calls[i].0);
                assert(pc[i] == calls[i]);
                assert forall|j: int| i < j < pc.len() implies (#[trigger] pc[j]).0 != pc[i].0 by {
                    assert(pc[j] == calls[j]);
                }
            }
        }
        assert forall|k: Seq<char>|
            states[0].cache().contains_key(k) && (forall|i: int|
                0 <= i < calls.len() ==> (#[trigger] calls[i]).0 != k) implies #[trigger] states.last().cache()[k]
                == states[0].cache()[k] by {
            assert(calls[n - 1].0 != k);
            assert forall|i: int| 0 <= i < pc.len() implies (#[trigger] pc[i]).0 != k by {
                assert(pc[i] == calls[i]);
            }
        }
    }
}

} // verus!
