//! Verified core of a two-asset liquidity pool.
//!
//! The crate holds the instruction decoder, the packed pool-state record and
//! its codec, the derivation of the pool authority, and the six-operation
//! pool processor.  Each operation is a pure state machine step: it validates
//! its preconditions against plain views of the accounts it was handed and
//! returns the ledger transfers it wants performed, or the exact error.  The
//! surrounding host performs the transfers and enforces atomicity.

pub mod authority;
pub mod error;
pub mod identity;
pub mod instruction;
pub mod ledger;
pub mod processor;
pub mod state;
pub mod token;
