//! Orchestration of a single shielded account against a remote chain index and a
//! local wallet store.
//!
//! The library never performs input or output. Every operation that needs the
//! chain index or the wallet store is a small state machine: starting it yields
//! the first request, and each reply handed to `step` yields the next request,
//! until the operation is done or has failed. The surrounding program performs
//! the requests.

pub mod types;
pub mod amount;
pub mod error;
pub mod keys;
pub mod address;
pub mod account;
pub mod balance;
pub mod transfer;
pub mod bootstrap;
pub mod sync;
pub mod report;
pub mod laws;
