//! The error taxonomy: every failure a request can surface.

use vstd::prelude::*;

verus! {

/// The three failure kinds. Each failed request leaves the store unchanged;
/// the host surfaces the error to its caller.
#[derive(Clone, Copy, Debug, PartialEq, Eq, Structural)]
pub enum ContractError {
    /// The caller of a write is not the registered owner.
    Unauthorized,
    /// A write attempted to store a zero price.
    InvalidZeroAmount,
    /// A read asked for a symbol with no stored entry.
    NotFound,
}

} // verus!
