//! Verified core of a coinswap maker.
//!
//! The library holds the rules a maker applies to the swap protocol: what it
//! checks in each message of a taker, what it answers, how it keeps its table
//! of ongoing swaps, and how it recovers its funds when a taker disappears.
//! Bitcoin data is held in plain types (see [`chain`]); the computations that
//! only the bitcoin crates can do stand behind the functions of
//! [`primitives`].

pub mod chain;
pub mod error;
pub mod primitives;
pub mod relay_pool;
pub mod settings;
pub mod table;
pub mod maker;
pub mod market;
pub mod protocol;
