//! Marketplace escrow and listing-sync logic for a platform whose
//! cross-contract calls are asynchronous: an invocation validates, persists
//! its own writes, and emits a remote-call intent; the single outcome of the
//! remote call later arrives at a dedicated callback entry point, which
//! finalizes or compensates. Every state transition and every payout amount
//! is specified and verified here; the host runtime (attached deposits,
//! promise scheduling, fund transfers) stays outside, handing the engines
//! plain values and executing the intents they return.

pub mod approvals;
pub mod error;
pub mod market;
pub mod registry;
pub mod remote;
pub mod store;
pub mod trust;
