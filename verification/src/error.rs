//! The error kinds a lifecycle operation or query can fail with.

use vstd::prelude::*;

verus! {

/// Why an operation was rejected. Every failure aborts the whole operation
/// with no state change.
#[derive(Clone, Copy, Debug, PartialEq, Eq, Structural)]
pub enum ContractError {
    /// The referenced swap id does not exist.
    NotFound,
    /// Create on an occupied id.
    AlreadyExists,
    /// The caller is not the required principal, or the attached funds do
    /// not satisfy the required amount.
    Unauthorized,
    /// The swap's expiration condition has elapsed.
    Expired,
    /// The attached native coins do not match the exact amount the escrow
    /// requires.
    InvalidPayment,
    /// The contract's own balance cannot cover a required payout.
    InsufficientBalance,
    /// Malformed configuration or version bookkeeping input.
    InvalidInput,
}

} // verus!
