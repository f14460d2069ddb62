//! A CW20 token ledger whose transfers are gated by an address blocklist.
//!
//! The ledger lives in the host's key-value store and is worked on through
//! `cw20-base`; this crate adds the blocklist, the authority checks and the forced
//! destruction of blocked funds, and states what every operation does to the
//! ledger.

pub mod base;
pub mod contract;
pub mod error;
pub mod host;
pub mod laws;
pub mod ledger;
pub mod msg;
pub mod store;
