//! Confidential risk monitoring for collateralised positions.
//!
//! A position's value, collateral ratio and liquidation threshold never
//! appear in the clear. A cluster of nodes evaluates three fixed circuits
//! over them, and the ledger keeps only the encrypted result.
//!
//! - `circuits`: what the three circuits compute.
//! - `state`: the ledger record of a position, the errors and the
//!   notifications.
//! - `guard`: the checks made before anything is queued.
//! - `args`: the argument list of each circuit.
//! - `request`: a computation request and the record that tracks it.
//! - `program`: the operations that queue a computation and those that
//!   settle one.

pub mod circuits;
pub mod state;
pub mod guard;
pub mod args;
pub mod request;
pub mod program;
