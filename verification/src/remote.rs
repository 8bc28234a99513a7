//! Values crossing the host boundary.
//!
//! An engine operation never performs a remote call or moves funds itself:
//! it returns intents — plain records saying which call to schedule or which
//! payment to make — and the host executes them. The single outcome of a
//! scheduled remote call comes back as a [`RemoteOutcome`] handed to the
//! matching callback entry point.

use vstd::prelude::*;

verus! {

/// The one final outcome of a chained remote call, as delivered to the
/// callback registered for it.
#[derive(Clone, Copy, Debug, PartialEq, Eq, Structural)]
pub enum RemoteOutcome {
    /// The remote call completed successfully.
    Success,
    /// The remote call failed or was dropped.
    Failed,
}

impl RemoteOutcome {
    /// Whether this outcome reports success.
    pub fn is_success(&self) -> (r: bool)
        ensures
            r == (*self is Success),
    {
        match *self {
            RemoteOutcome::Success => true,
            RemoteOutcome::Failed => false,
        }
    }
}

/// Abstract value of a [`Transfer`].
pub struct TransferView {
    /// Recipient account.
    pub account_id: Seq<char>,
    /// Amount in base units.
    pub amount: u128,
}

/// A payment the host must make: `amount` base units to `account_id`.
#[derive(Debug)]
pub struct Transfer {
    /// Recipient account.
    pub account_id: String,
    /// Amount in base units.
    pub amount: u128,
}

impl View for Transfer {
    type V = TransferView;

    open spec fn view(&self) -> TransferView {
        TransferView { account_id: self.account_id@, amount: self.amount }
    }
}

} // verus!
