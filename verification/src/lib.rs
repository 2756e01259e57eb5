//! Manual trading execution core: order books keyed by IEEE-754 bit patterns,
//! order preparation from the best ask, and the bookkeeping of prepared orders
//! and pending executions.

pub mod float_bits;
pub mod clock;
pub mod orderbook;
pub mod feed;
pub mod prepared_orders;
pub mod order_builder;
pub mod executor;
pub mod match_engine;
pub mod dashboard;
pub mod config;
pub mod polymarket;
