//! The messages of the swap protocol and the contracts they carry.

pub mod common_messages;
pub mod contract2;
pub mod error;
pub mod legacy_messages;
pub mod messages2;
pub mod musig2;
pub mod musig_interface;
pub mod router;
pub mod taproot;
pub mod taproot_messages;
