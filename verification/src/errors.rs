//! Error domains of the ledger, the registry and the price reference.
//!
//! Validation errors are returned as values, never raised as faults, and a
//! registry error travelling through the ledger stays wrapped so that the
//! caller can see which module rejected the call.

use vstd::prelude::*;

verus! {

/// Rejections of the highlighting registry.
#[derive(Debug, Clone, Copy, PartialEq, Eq, Structural)]
pub enum HighlightedPizzasError {
    /// The identity already has a highlight in the addressed namespace.
    AlreadyHighlighted,
    /// No highlight exists for the identity in the addressed namespace.
    HighlightNotFound,
    /// The caller is not the registry's owner.
    AccessDenied,
}

/// Rejections of the ledger.
#[derive(Debug, Clone, Copy, PartialEq, Eq, Structural)]
pub enum TipperError {
    /// The attached payment is below the required amount, which is carried
    /// along so the caller learns what would have sufficed.
    InsufficientAmount(u128),
    /// The submitter already has an active tip record.
    AlreadyTipped,
    /// Forwarding the attached payment to the recipient failed.
    TipError,
    /// The registry rejected the highlight call; the inner error says why.
    HighlightError(HighlightedPizzasError),
    /// A looked-up entity does not exist.
    DoesntExist,
}

/// Rejections of the ledger-local balance accounting.
#[derive(Debug, Clone, Copy, PartialEq, Eq, Structural)]
pub enum Error {
    /// The sender's ledger-local balance does not cover the transfer.
    InsufficientBalance,
    /// The attached payment is below the required amount.
    PizzaCostTooLow(u128),
    /// The submitter already has an active tip record.
    AlreadyTipped,
    /// Forwarding a payment failed.
    TipError,
}

/// Rejections of the price reference.
#[derive(Debug, Clone, Copy, PartialEq, Eq, Structural)]
pub enum OracleError {
    /// The query is malformed.
    InvalidQuery,
    /// No price record exists for the queried id.
    PriceNotFound,
    /// The caller may not perform the operation.
    AccessDenied,
}

} // verus!
