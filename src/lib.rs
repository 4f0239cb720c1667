//! Read-only queries over a factory's append-only registry of market accounts.
use vstd::prelude::*;

pub mod storage;
pub mod views;

pub use storage::MarketFactory;
