//! Error taxonomy shared by all engines.
//!
//! Synchronous rejections carry a precise reason; `class` groups the reasons
//! into the coarse families callers care about (validation, authorization,
//! conflict, not-found, invariant violation).

use vstd::prelude::*;

verus! {

/// Exact reason an operation was rejected synchronously, or — for
/// `InvariantViolation` — why a resolve callback had to abort.
#[derive(Clone, Copy, Debug, PartialEq, Eq, Structural)]
pub enum Error {
    /// Attached bond below the configured listing minimum.
    InsufficientDeposit,
    /// Attached payment differs from the sale price (over or under).
    WrongPaymentAmount,
    /// Requested market bond above the configured maximum.
    DepositTooHigh,
    /// Token id longer than a guest is allowed to store.
    TokenIdTooLong,
    /// Metadata longer than a guest is allowed to store.
    MetadataTooLong,
    /// Guest balance below the requested withdrawal.
    NotEnoughTokens,
    /// Contract balance below what the ledger owes.
    MissingFunds,
    /// Guest balance does not cover the sponsorship fee.
    NotEnoughToUpgrade,
    /// Caller is not the owner recorded on the sale.
    MustBeSaleOwner,
    /// Caller is not the contract owner.
    MustBeContractOwner,
    /// Guest is not the owner of the token.
    MustBeTokenOwner,
    /// Approval callback not invoked by the token contract it names.
    MustBeTokenContract,
    /// A settlement remote call is already in flight for this listing.
    SaleInProgress,
    /// No sale is recorded under the listing key.
    NoSale,
    /// No token is recorded under the token id.
    TokenNotFound,
    /// Signing key is not registered as a guest.
    NotAGuest,
    /// A token already exists under the token id.
    TokenAlreadyExists,
    /// The account already has a token registry entry.
    AccountAlreadyRegistered,
    /// The public key is already registered as a guest.
    GuestAlreadyAdded,
    /// Guest has used up its mint allowance.
    MintLimitExceeded,
    /// Guest has used up its approval allowance.
    ApprovalLimitExceeded,
    /// Guest has no approvals left to revoke.
    NoApprovalsToRevoke,
    /// Guest already has a market approved for this token.
    MarketAlreadyApproved,
    /// No market sale is recorded for this token.
    NoSaleAtMarket,
    /// A resolve callback could not find the record it expects; the
    /// callback aborts and moves no funds.
    InvariantViolation,
}

/// Coarse failure family of an [`Error`].
#[derive(Clone, Copy, Debug, PartialEq, Eq, Structural)]
pub enum ErrorClass {
    /// Bad input; zero state mutation, attached funds auto-returned.
    Validation,
    /// Wrong caller for an owner-restricted operation; zero mutation.
    Authorization,
    /// Single-flight lock observed; zero mutation.
    Conflict,
    /// Missing record; zero mutation.
    NotFound,
    /// A callback found state it cannot reconcile; fatal for that callback.
    Invariant,
}

/// Family of each error reason.
pub open spec fn class_of(e: Error) -> ErrorClass {
    match e {
        Error::InsufficientDeposit => ErrorClass::Validation,
        Error::WrongPaymentAmount => ErrorClass::Validation,
        Error::DepositTooHigh => ErrorClass::Validation,
        Error::TokenIdTooLong => ErrorClass::Validation,
        Error::MetadataTooLong => ErrorClass::Validation,
        Error::NotEnoughTokens => ErrorClass::Validation,
        Error::MissingFunds => ErrorClass::Validation,
        Error::NotEnoughToUpgrade => ErrorClass::Validation,
        Error::TokenAlreadyExists => ErrorClass::Validation,
        Error::AccountAlreadyRegistered => ErrorClass::Validation,
        Error::GuestAlreadyAdded => ErrorClass::Validation,
        Error::MintLimitExceeded => ErrorClass::Validation,
        Error::ApprovalLimitExceeded => ErrorClass::Validation,
        Error::NoApprovalsToRevoke => ErrorClass::Validation,
        Error::MarketAlreadyApproved => ErrorClass::Validation,
        Error::NoSaleAtMarket => ErrorClass::Validation,
        Error::MustBeSaleOwner => ErrorClass::Authorization,
        Error::MustBeContractOwner => ErrorClass::Authorization,
        Error::MustBeTokenOwner => ErrorClass::Authorization,
        Error::MustBeTokenContract => ErrorClass::Authorization,
        Error::SaleInProgress => ErrorClass::Conflict,
        Error::NoSale => ErrorClass::NotFound,
        Error::TokenNotFound => ErrorClass::NotFound,
        Error::NotAGuest => ErrorClass::NotFound,
        Error::InvariantViolation => ErrorClass::Invariant,
    }
}

impl Error {
    /// Failure family of this reason.
    pub fn class(&self) -> (c: ErrorClass)
        ensures
            c == class_of(*self),
    {
        match *self {
            Error::InsufficientDeposit => ErrorClass::Validation,
            Error::WrongPaymentAmount => ErrorClass::Validation,
            Error::DepositTooHigh => ErrorClass::Validation,
            Error::TokenIdTooLong => ErrorClass::Validation,
            Error::MetadataTooLong => ErrorClass::Validation,
            Error::NotEnoughTokens => ErrorClass::Validation,
            Error::MissingFunds => ErrorClass::Validation,
            Error::NotEnoughToUpgrade => ErrorClass::Validation,
            Error::TokenAlreadyExists => ErrorClass::Validation,
            Error::AccountAlreadyRegistered => ErrorClass::Validation,
            Error::GuestAlreadyAdded => ErrorClass::Validation,
            Error::MintLimitExceeded => ErrorClass::Validation,
            Error::ApprovalLimitExceeded => ErrorClass::Validation,
            Error::NoApprovalsToRevoke => ErrorClass::Validation,
            Error::MarketAlreadyApproved => ErrorClass::Validation,
            Error::NoSaleAtMarket => ErrorClass::Validation,
            Error::MustBeSaleOwner => ErrorClass::Authorization,
            Error::MustBeContractOwner => ErrorClass::Authorization,
            Error::MustBeTokenOwner => ErrorClass::Authorization,
            Error::MustBeTokenContract => ErrorClass::Authorization,
            Error::SaleInProgress => ErrorClass::Conflict,
            Error::NoSale => ErrorClass::NotFound,
            Error::TokenNotFound => ErrorClass::NotFound,
            Error::NotAGuest => ErrorClass::NotFound,
            Error::InvariantViolation => ErrorClass::Invariant,
        }
    }
}

} // verus!
