//! The market: a directory of makers.

pub mod directory;
pub mod rpc;
