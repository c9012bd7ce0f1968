//! The error taxonomy shared by every catalog operation.

use vstd::prelude::*;

verus! {

/// Why an operation was refused. Every operation is fail-fast: the first
/// failed precondition aborts it with one of these kinds and no state change.
#[derive(Clone, Copy, Debug, PartialEq, Eq, Structural)]
pub enum ErrorCode {
    /// The caller's identity does not match the store owner (on create,
    /// update or delete).
    Unauthorized,
    /// A purchase was attempted against a zero-price item.
    InvalidCoffee,
    /// Slot creation was attempted against a slot that already holds a record.
    AlreadyExists,
    /// A lookup addressed a slot that holds no record (never created, or
    /// already reclaimed).
    NotFound,
    /// A payment or a slot deposit exceeds the paying account's balance.
    InsufficientBalance,
}

} // verus!
