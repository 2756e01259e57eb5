//! Order book of one market: bid and ask levels keyed by price, each side a
//! `BTreeMap` from the price's order-preserving key to the size.

use vstd::prelude::*;
use std::collections::BTreeMap;
use vstd::std_specs::iter::IteratorSpec;
use vstd::std_specs::cmp::OrdSpec;
use crate::clock::now_millis;
use crate::float_bits::{
    f64_le_zero, float_le_zero, float_lt, is_nan, is_zero, sign_set, EXPONENT_BITS, MAGNITUDE_BITS,
    MANTISSA_BITS, SIGN_BIT,
};

verus! {

broadcast use vstd::laws_cmp::group_laws_cmp;

/// How many NaN bit patterns there are of each sign.
pub const NAN_PATTERNS: u64 = 0x000F_FFFF_FFFF_FFFF;

/// The lowest key of a NaN with its sign bit set.
pub const NEGATIVE_NAN_BASE: u64 = 0xFFF0_0000_0000_0001;

/// The order-preserving key of a binary64 bit pattern. Numbers come first,
/// in the IEEE-754 order (`-inf < .. < -0 < +0 < .. < +inf`), and every NaN
/// comes after every number: NaNs without the sign bit, then those with it.
/// Negative numbers have every bit inverted, the others get the sign bit
/// set, and the keys are moved down past the room that the negative NaNs
/// take at the top, so that each bit pattern has its own key.
pub open spec fn ordered_key(bits: u64) -> u64 {
    if bits & SIGN_BIT != 0 {
        if is_nan(bits) {
            (!bits + NEGATIVE_NAN_BASE) as u64
        } else {
            (!bits - NAN_PATTERNS) as u64
        }
    } else {
        ((bits | SIGN_BIT) - NAN_PATTERNS) as u64
    }
}

/// The bit pattern that a key stands for: the inverse of [`ordered_key`].
pub open spec fn key_bits(key: u64) -> u64 {
    if key >= NEGATIVE_NAN_BASE {
        !((key - NEGATIVE_NAN_BASE) as u64)
    } else if key < SIGN_BIT - NAN_PATTERNS {
        !((key + NAN_PATTERNS) as u64)
    } else {
        ((key + NAN_PATTERNS) as u64) & MAGNITUDE_BITS
    }
}

/// The bit pattern behind a price key as the market-data feed writes it:
/// the plain sign-flip encoding (negative values inverted, others with the
/// sign bit set), whose order puts negative NaNs below `-inf`.
pub open spec fn feed_key_bits(raw: u64) -> u64 {
    if raw & SIGN_BIT != 0 {
        raw & MAGNITUDE_BITS
    } else {
        !raw
    }
}

/// A price as a totally ordered map key (IEEE-754 total ordering of the
/// binary64 value, by bit manipulation).
#[derive(Debug, Clone, Copy, PartialEq, Eq, Structural, PartialOrd, Ord, Hash)]
pub struct OrderedFloat(u64);

impl View for OrderedFloat {
    type V = u64;

    closed spec fn view(&self) -> u64 {
        self.0
    }
}

impl OrderedFloat {
    /// The key of the binary64 value with bit pattern `bits`.
    pub fn new(bits: u64) -> (r: Self)
        ensures
            r@ == ordered_key(bits),
    {
        if bits & SIGN_BIT != 0 {
            let inverted = !bits;
            assert(is_nan(bits) <==> inverted < NAN_PATTERNS) by (bit_vector)
                requires
                    bits & SIGN_BIT != 0,
                    inverted == !bits,
            ;
            if inverted < NAN_PATTERNS {
                OrderedFloat(inverted + NEGATIVE_NAN_BASE)
            } else {
                OrderedFloat(inverted - NAN_PATTERNS)
            }
        } else {
            let set = bits | SIGN_BIT;
            assert(set >= SIGN_BIT) by (bit_vector)
                requires
                    set == bits | SIGN_BIT,
            ;
            OrderedFloat(set - NAN_PATTERNS)
        }
    }

    /// The bit pattern of the binary64 value this key stands for.
    pub fn to_bits(self) -> (r: u64)
        ensures
            r == key_bits(self@),
    {
        let k = self.0;
        if k >= NEGATIVE_NAN_BASE {
            !(k - NEGATIVE_NAN_BASE)
        } else if k < SIGN_BIT - NAN_PATTERNS {
            !(k + NAN_PATTERNS)
        } else {
            (k + NAN_PATTERNS) & MAGNITUDE_BITS
        }
    }

    /// The key of the price that the feed writes as `raw` (see
    /// [`feed_key_bits`]).
    pub fn from_feed_key(raw: u64) -> (r: Self)
        ensures
            r@ == ordered_key(feed_key_bits(raw)),
    {
        let bits = if raw & SIGN_BIT != 0 {
            raw & MAGNITUDE_BITS
        } else {
            !raw
        };
        Self::new(bits)
    }

    /// The key given as an unsigned integer.
    pub fn from_key(key: u64) -> (r: Self)
        ensures
            r@ == key,
    {
        OrderedFloat(key)
    }

    /// The key as an unsigned integer (its order is the order of keys).
    pub fn key(self) -> (r: u64)
        ensures
            r == self@,
    {
        self.0
    }
}

/// Turning a value into a key and back gives the value's bits unchanged.
pub proof fn lemma_key_bits_roundtrip(bits: u64)
    ensures
        key_bits(ordered_key(bits)) == bits,
{
    assert(key_bits(ordered_key(bits)) == bits) by (bit_vector);
}

/// Every key stands for exactly one value: turning a key into bits and back
/// gives the key unchanged.
pub proof fn lemma_ordered_key_roundtrip(key: u64)
    ensures
        ordered_key(key_bits(key)) == key,
{
    assert(ordered_key(key_bits(key)) == key) by (bit_vector);
}

/// Distinct values have distinct keys.
pub proof fn lemma_ordered_key_injective(a: u64, b: u64)
    requires
        ordered_key(a) == ordered_key(b),
    ensures
        a == b,
{
    lemma_key_bits_roundtrip(a);
    lemma_key_bits_roundtrip(b);
}

/// Every NaN, whatever its sign, sorts after every number.
pub proof fn lemma_nan_keys_last(nan: u64, x: u64)
    requires
        is_nan(nan),
        !is_nan(x),
    ensures
        ordered_key(x) < ordered_key(nan),
{
    assert(ordered_key(x) < ordered_key(nan)) by (bit_vector)
        requires
            nan & EXPONENT_BITS == EXPONENT_BITS && nan & MANTISSA_BITS != 0,
            !(x & EXPONENT_BITS == EXPONENT_BITS && x & MANTISSA_BITS != 0),
    ;
}

/// Keys order numbers as IEEE-754 does: for two values that are not NaN,
/// `a < b` numerically exactly when `a`'s key is below `b`'s, apart from
/// `-0.0` and `+0.0`, which are numerically equal but have distinct keys
/// (`-0.0` below `+0.0`).
pub proof fn lemma_ordered_key_monotone(a: u64, b: u64)
    requires
        !is_nan(a),
        !is_nan(b),
    ensures
        float_lt(a, b) ==> ordered_key(a) < ordered_key(b),
        (ordered_key(a) < ordered_key(b) && !(is_zero(a) && is_zero(b))) ==> float_lt(a, b),
        (is_zero(a) && is_zero(b)) ==> (ordered_key(a) <= ordered_key(b) <==> (sign_set(a) || !sign_set(b))),
{
    assert(float_lt(a, b) ==> ordered_key(a) < ordered_key(b)) by (bit_vector)
        requires
            !(a & EXPONENT_BITS == EXPONENT_BITS && a & MANTISSA_BITS != 0),
            !(b & EXPONENT_BITS == EXPONENT_BITS && b & MANTISSA_BITS != 0),
    ;
    assert((ordered_key(a) < ordered_key(b) && !(is_zero(a) && is_zero(b))) ==> float_lt(a, b))
        by (bit_vector)
        requires
            !(a & EXPONENT_BITS == EXPONENT_BITS && a & MANTISSA_BITS != 0),
            !(b & EXPONENT_BITS == EXPONENT_BITS && b & MANTISSA_BITS != 0),
    ;
    assert((is_zero(a) && is_zero(b)) ==> (ordered_key(a) <= ordered_key(b) <==> (sign_set(a)
        || !sign_set(b)))) by (bit_vector);
}


/// The side `m` has no level at all.
pub open spec fn no_levels(m: Map<u64, u64>) -> bool {
    m == Map::<u64, u64>::empty()
}

/// `k` is the lowest key of the side `m`.
pub open spec fn is_lowest_key(m: Map<u64, u64>, k: u64) -> bool {
    &&& m.contains_key(k)
    &&& forall|j: u64| #[trigger] m.contains_key(j) ==> k <= j
}

/// `k` is the highest key of the side `m`.
pub open spec fn is_highest_key(m: Map<u64, u64>, k: u64) -> bool {
    &&& m.contains_key(k)
    &&& forall|j: u64| #[trigger] m.contains_key(j) ==> j <= k
}

/// The lowest key of a side that has a level.
pub open spec fn lowest_key(m: Map<u64, u64>) -> u64 {
    choose|k: u64| is_lowest_key(m, k)
}

/// The highest key of a side that has a level.
pub open spec fn highest_key(m: Map<u64, u64>) -> u64 {
    choose|k: u64| is_highest_key(m, k)
}

/// A side has at most one lowest key: whichever key is lowest is the one
/// [`lowest_key`] names.
pub proof fn lemma_lowest_key_unique(m: Map<u64, u64>, k: u64)
    requires
        is_lowest_key(m, k),
    ensures
        lowest_key(m) == k,
{
    let l = lowest_key(m);
    assert(is_lowest_key(m, l));
    assert(l <= k && k <= l);
}

/// A side has at most one highest key: whichever key is highest is the one
/// [`highest_key`] names.
pub proof fn lemma_highest_key_unique(m: Map<u64, u64>, k: u64)
    requires
        is_highest_key(m, k),
    ensures
        highest_key(m) == k,
{
    let h = highest_key(m);
    assert(is_highest_key(m, h));
    assert(h <= k && k <= h);
}

/// Setting a level and then removing it leaves the side as removing it
/// straight away would: a zero-size update undoes any earlier update at the
/// same price.
pub proof fn lemma_set_then_remove(m: Map<u64, u64>, key: u64, size: u64)
    ensures
        m.insert(key, size).remove(key) == m.remove(key),
{
    assert(m.insert(key, size).remove(key) =~= m.remove(key));
}

/// After a level is set, the side holds exactly one level at that price, the
/// one just set, and every other level as before.
pub proof fn lemma_set_then_lookup(m: Map<u64, u64>, key: u64, size: u64)
    ensures
        m.insert(key, size).contains_key(key),
        m.insert(key, size)[key] == size,
        forall|k: u64| k != key ==> #[trigger] m.insert(key, size).contains_key(k) == m.contains_key(k),
        forall|k: u64| k != key && m.contains_key(k) ==> #[trigger] m.insert(key, size)[k] == m[k],
{
}

/// Calls `BTreeMap::first_key_value`: std documents the pair it returns as
/// the one with the minimum key, and `None` for an empty map.
#[verifier::external_body]
fn first_level(m: &BTreeMap<u64, u64>) -> (r: Option<(u64, u64)>)
    ensures
        r is None <==> no_levels(m@),
        r matches Some(e) ==> is_lowest_key(m@, e.0) && m@[e.0] == e.1,
{
    match m.first_key_value() {
        Some((k, v)) => Some((*k, *v)),
        None => None,
    }
}

/// Calls `BTreeMap::last_key_value`: std documents the pair it returns as
/// the one with the maximum key, and `None` for an empty map.
#[verifier::external_body]
fn last_level(m: &BTreeMap<u64, u64>) -> (r: Option<(u64, u64)>)
    ensures
        r is None <==> no_levels(m@),
        r matches Some(e) ==> is_highest_key(m@, e.0) && m@[e.0] == e.1,
{
    match m.last_key_value() {
        Some((k, v)) => Some((*k, *v)),
        None => None,
    }
}

/// One price level as handed out: price and size as binary64 bit patterns.
#[derive(Debug, Clone, Copy, PartialEq, Eq, Structural)]
pub struct PriceLevel {
    pub price: u64,
    pub size: u64,
}

/// The level that a `(key, size)` entry stands for.
pub open spec fn level_of(e: (u64, u64)) -> PriceLevel {
    PriceLevel { price: key_bits(e.0), size: e.1 }
}

/// The level at the lowest key of a side.
pub open spec fn lowest_level(m: Map<u64, u64>) -> PriceLevel {
    level_of((lowest_key(m), m[lowest_key(m)]))
}

/// The level at the highest key of a side.
pub open spec fn highest_level(m: Map<u64, u64>) -> PriceLevel {
    level_of((highest_key(m), m[highest_key(m)]))
}

/// `r` lists the levels of side `m`, one per price, in ascending key order
/// when `ascending`, else in descending key order.
pub open spec fn lists_side(r: Seq<PriceLevel>, m: Map<u64, u64>, ascending: bool) -> bool {
    &&& r.len() == m.dom().len()
    &&& forall|i: int|
        0 <= i < r.len() ==> m.contains_key(ordered_key(#[trigger] r[i].price)) && m[ordered_key(
            r[i].price,
        )] == r[i].size
    &&& forall|k: u64|
        #[trigger] m.contains_key(k) ==> exists|i: int|
            0 <= i < r.len() && ordered_key(#[trigger] r[i].price) == k
    &&& forall|i: int, j: int|
        0 <= i < j < r.len() ==> if ascending {
            ordered_key(#[trigger] r[i].price) < ordered_key(#[trigger] r[j].price)
        } else {
            ordered_key(r[j].price) < ordered_key(r[i].price)
        }
}

/// The book of one market. Prices and sizes are binary64 bit patterns; each
/// side maps a price key to the size offered there.
pub struct OrderBook {
    pub market_id: String,
    /// Bids by price key; [`OrderBook::bids_as_vec`] hands them out best
    /// (highest) first.
    pub bids: BTreeMap<u64, u64>,
    /// Asks by price key; the best ask is the lowest key.
    pub asks: BTreeMap<u64, u64>,
    /// Wall-clock milliseconds of the last change.
    pub updated_at: u64,
}

impl OrderBook {
    /// An empty book for `market_id`, stamped with the current time.
    pub fn new(market_id: String) -> (r: Self)
        ensures
            r.market_id@ == market_id@,
            no_levels(r.bids@),
            no_levels(r.asks@),
    {
        OrderBook { market_id, bids: BTreeMap::new(), asks: BTreeMap::new(), updated_at: now_millis() }
    }

    /// Sets the bid level at `price` to `size`; a size `<= 0.0` removes the
    /// level instead. The book is stamped with the current time.
    pub fn update_bid(&mut self, price: u64, size: u64)
        ensures
            final(self).market_id == old(self).market_id,
            final(self).asks@ == old(self).asks@,
            float_le_zero(size) ==> final(self).bids@ == old(self).bids@.remove(ordered_key(price)),
            !float_le_zero(size) ==> final(self).bids@ == old(self).bids@.insert(ordered_key(price), size),
    {
        let key = OrderedFloat::new(price).key();
        if f64_le_zero(size) {
            self.bids.remove(&key);
        } else {
            self.bids.insert(key, size);
        }
        self.touch();
    }

    /// Sets the ask level at `price` to `size`; a size `<= 0.0` removes the
    /// level instead. The book is stamped with the current time.
    pub fn update_ask(&mut self, price: u64, size: u64)
        ensures
            final(self).market_id == old(self).market_id,
            final(self).bids@ == old(self).bids@,
            float_le_zero(size) ==> final(self).asks@ == old(self).asks@.remove(ordered_key(price)),
            !float_le_zero(size) ==> final(self).asks@ == old(self).asks@.insert(ordered_key(price), size),
    {
        let key = OrderedFloat::new(price).key();
        if f64_le_zero(size) {
            self.asks.remove(&key);
        } else {
            self.asks.insert(key, size);
        }
        self.touch();
    }

    fn touch(&mut self)
        ensures
            final(self).market_id == old(self).market_id,
            final(self).bids@ == old(self).bids@,
            final(self).asks@ == old(self).asks@,
    {
        self.updated_at = now_millis();
    }

    /// The highest-priced bid, if any.
    pub fn get_best_bid(&self) -> (r: Option<PriceLevel>)
        ensures
            r is None <==> no_levels(self.bids@),
            r matches Some(l) ==> l == highest_level(self.bids@) && is_highest_key(
                self.bids@,
                ordered_key(l.price),
            ),
    {
        match last_level(&self.bids) {
            Some((key, size)) => {
                let r = PriceLevel { price: OrderedFloat::from_key(key).to_bits(), size };
                proof {
                    lemma_ordered_key_roundtrip(key);
                    lemma_highest_key_unique(self.bids@, key);
                }
                Some(r)
            },
            None => None,
        }
    }

    /// The lowest-priced ask, if any.
    pub fn get_best_ask(&self) -> (r: Option<PriceLevel>)
        ensures
            r is None <==> no_levels(self.asks@),
            r matches Some(l) ==> l == lowest_level(self.asks@) && is_lowest_key(
                self.asks@,
                ordered_key(l.price),
            ),
    {
        match first_level(&self.asks) {
            Some((key, size)) => {
                let r = PriceLevel { price: OrderedFloat::from_key(key).to_bits(), size };
                proof {
                    lemma_ordered_key_roundtrip(key);
                    lemma_lowest_key_unique(self.asks@, key);
                }
                Some(r)
            },
            None => None,
        }
    }

    /// The bid levels in descending price order: the best bid comes first.
    pub fn bids_as_vec(&self) -> (r: Vec<PriceLevel>)
        ensures
            lists_side(r@, self.bids@, false),
            r@.len() > 0 ==> r@[0] == highest_level(self.bids@),
    {
        let asc = levels_ascending(&self.bids);
        let n = asc.len();
        let mut out: Vec<PriceLevel> = Vec::new();
        let mut i: usize = 0;
        while i < n
            invariant
                n == asc@.len(),
                i <= n,
                out@.len() == i,
                forall|j: int| 0 <= j < i ==> #[trigger] out@[j] == asc@[n - 1 - j],
            decreases n - i,
        {
            out.push(asc[n - 1 - i]);
            i = i + 1;
        }
        proof {
            let m = self.bids@;
            assert forall|k: u64| #[trigger] m.contains_key(k) implies exists|i: int|
                0 <= i < out@.len() && ordered_key(#[trigger] out@[i].price) == k by {
                let j = choose|j: int| 0 <= j < asc@.len() && ordered_key(#[trigger] asc@[j].price) == k;
                assert(out@[n - 1 - j] == asc@[j]);
            }
            assert forall|i: int, j: int| 0 <= i < j < out@.len() implies ordered_key(
                #[trigger] out@[j].price,
            ) < ordered_key(#[trigger] out@[i].price) by {
                assert(out@[i] == asc@[n - 1 - i]);
                assert(out@[j] == asc@[n - 1 - j]);
            }
            if n > 0 {
                let k0 = ordered_key(out@[0].price);
                assert(out@[0] == asc@[n - 1]);
                assert forall|k: u64| #[trigger] m.contains_key(k) implies k <= k0 by {
                    let j = choose|j: int| 0 <= j < asc@.len() && ordered_key(#[trigger] asc@[j].price) == k;
                    if j < n - 1 {
                        assert(ordered_key(asc@[j].price) < ordered_key(asc@[n - 1].price));
                    }
                }
                lemma_highest_key_unique(m, k0);
                lemma_key_bits_roundtrip(out@[0].price);
            }
        }
        out
    }

    /// The ask levels in ascending price order: the best ask comes first.
    pub fn asks_as_vec(&self) -> (r: Vec<PriceLevel>)
        ensures
            lists_side(r@, self.asks@, true),
            r@.len() > 0 ==> r@[0] == lowest_level(self.asks@),
    {
        let r = levels_ascending(&self.asks);
        proof {
            let m = self.asks@;
            if r@.len() > 0 {
                let k0 = ordered_key(r@[0].price);
                assert(m.contains_key(ordered_key(r@[0].price)));
                assert forall|k: u64| #[trigger] m.contains_key(k) implies k0 <= k by {
                    let j = choose|j: int| 0 <= j < r@.len() && ordered_key(#[trigger] r@[j].price) == k;
                    if j > 0 {
                        assert(ordered_key(r@[0].price) < ordered_key(r@[j].price));
                    }
                }
                lemma_lowest_key_unique(m, k0);
                lemma_key_bits_roundtrip(r@[0].price);
            }
        }
        r
    }
}

/// The levels of a side in ascending key order.
fn levels_ascending(side: &BTreeMap<u64, u64>) -> (r: Vec<PriceLevel>)
    ensures
        lists_side(r@, side@, true),
{
    let iter = side.iter();
    let ghost keys = iter.remaining().map_values(|kv: (&u64, &u64)| *kv.0);
    assert forall|i: int, j: int| 0 <= i < j < keys.len() implies keys[i] < keys[j] by {
        assert(keys[i].cmp_spec(&keys[j]) is Less);
    }
    let mut out: Vec<PriceLevel> = Vec::new();
    for kv in it: iter
        invariant
            keys == it.seq().map_values(|kv: (&u64, &u64)| *kv.0),
            forall|i: int, j: int| 0 <= i < j < keys.len() ==> keys[i] < keys[j],
            out@.len() == it.index(),
            forall|j: int|
                0 <= j < it.index() ==> #[trigger] out@[j] == level_of((*it.seq()[j].0, *it.seq()[j].1)),
    {
        out.push(PriceLevel { price: OrderedFloat::from_key(*kv.0).to_bits(), size: *kv.1 });
    }
    proof {
        let m = side@;
        assert forall|i: int| 0 <= i < out@.len() implies ordered_key(#[trigger] out@[i].price) == keys[i]
            && m.contains_key(keys[i]) && m[keys[i]] == out@[i].size by {
            lemma_ordered_key_roundtrip(keys[i]);
        }
        assert forall|k: u64| #[trigger] m.contains_key(k) implies exists|i: int|
            0 <= i < out@.len() && ordered_key(#[trigger] out@[i].price) == k by {
            let s = iter.remaining();
            assert(s.contains((&k, &m[k])));
            let i = choose|i: int| 0 <= i < s.len() && s[i] == (&k, &m[k]);
            assert(keys[i] == k);
            lemma_ordered_key_roundtrip(k);
            assert(ordered_key(out@[i].price) == k);
        }
        assert forall|i: int, j: int| 0 <= i < j < out@.len() implies ordered_key(
            #[trigger] out@[i].price,
        ) < ordered_key(#[trigger] out@[j].price) by {
            lemma_ordered_key_roundtrip(keys[i]);
            lemma_ordered_key_roundtrip(keys[j]);
        }
    }
    out
}

/// A change of one market, as the market-data feed delivers it.
pub struct MarketUpdate {
    pub market_id: String,
    pub update_type: MarketUpdateType,
    pub timestamp: u64,
}

/// What a market update carries.
pub enum MarketUpdateType {
    /// A full snapshot of a market's book.
    OrderBookUpdate(OrderBook),
    Trade(Trade),
    LiquidityUpdate(LiquidityUpdate),
}

/// A trade print; price and size are binary64 bit patterns.
#[derive(Debug, Clone, Copy, PartialEq, Eq, Structural)]
pub struct Trade {
    pub price: u64,
    pub size: u64,
    pub side: OrderSide,
    pub timestamp: u64,
}

/// A change of resting liquidity; all amounts are binary64 bit patterns.
#[derive(Debug, Clone, Copy, PartialEq, Eq, Structural)]
pub struct LiquidityUpdate {
    pub added_liquidity: u64,
    pub removed_liquidity: u64,
    pub total_liquidity: u64,
}

#[derive(Debug, Clone, Copy, PartialEq, Eq, Structural)]
pub enum OrderSide {
    Buy,
    Sell,
}

/// A market order, or a limit order at a price (binary64 bit pattern).
#[derive(Debug, Clone, Copy, PartialEq, Eq, Structural)]
pub enum OrderType {
    Market,
    Limit { price: u64 },
}

/// A tradable market.
pub struct Market {
    pub id: String,
    pub name: String,
    pub question: String,
    pub outcome_type: OutcomeType,
    pub is_active: bool,
}

/// The outcomes a market resolves to.
pub enum OutcomeType {
    /// YES/NO.
    Binary,
    /// One of several named outcomes.
    Categorical(Vec<String>),
}

impl Market {
    /// A market with the given fields, active from the start.
    pub fn new(id: String, name: String, question: String, outcome_type: OutcomeType) -> (r: Self)
        ensures
            r.id == id,
            r.name == name,
            r.question == question,
            r.outcome_type == outcome_type,
            r.is_active,
    {
        Market { id, name, question, outcome_type, is_active: true }
    }
}

} // verus!
