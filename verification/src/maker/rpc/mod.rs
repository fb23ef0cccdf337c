//! The remote control interface of a maker.

pub mod cookie;
pub mod messages;
pub mod server;
