//! A trustless two-party token-exchange escrow protocol.
//!
//! A maker locks a quantity of one fungible asset in a holding account and
//! declares the asset and amount it expects in return; any taker may later
//! complete the trade atomically, or the maker may cancel and reclaim the
//! locked asset.  The crate verifies the protocol state machine: the three
//! operations (initialize, exchange, cancel), the validation and
//! authorization checks they perform, and the exact effect each one has on
//! the accounts involved.

pub mod authority;
pub mod error;
pub mod instruction;
pub mod laws;
pub mod ledger;
pub mod processor;
pub mod state;
