//! The maker: a server that offers swaps.

pub mod api2;
pub mod config;
pub mod connection_limiter;
pub mod fidelity;
pub mod funding;
pub mod funding_proof;
pub mod handlers;
pub mod legacy_funding;
pub mod legacy_handlers;
pub mod legacy_verification;
pub mod nostr;
pub mod ongoing_swaps;
pub mod recovery;
pub mod recovery2;
pub mod rpc;
pub mod server;
pub mod server2;
pub mod shutdown;
pub mod swap_params;
pub mod swap_report;
pub mod swap_tracker;
pub mod swapcoin;
pub mod taproot_handlers;
pub mod taproot_verification;
pub mod unified;
pub mod watches;
