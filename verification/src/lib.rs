//! Incentive ledger core: staking pools with time-based reward accrual,
//! a governance proposal/voting state machine, and the per-user profile
//! and network registry aggregates that couple them.
//!
//! Every operation is a pure state transition over plain record values.
//! The hosting runtime loads the records an operation names, calls the
//! operation, and commits the mutated records atomically together with
//! any token movement; a returned error means no record was changed.

pub mod constants;
pub mod errors;
pub mod state;
pub mod rewards;
pub mod staking;
pub mod governance;
pub mod registry;
pub mod profile;
pub mod assets;
pub mod consistency;
pub mod codec;
pub mod asset_codec;
