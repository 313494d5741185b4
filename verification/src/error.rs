//! The error taxonomy. Every failure is terminal for the invocation: the
//! operation either fully satisfies its postconditions or changes nothing.

use vstd::prelude::*;

verus! {

/// Why a lifecycle operation was refused.
#[derive(Clone, Copy, Debug, PartialEq, Eq, Structural)]
pub enum TodoError {
    /// A record already exists at the derived address.
    AlreadyExists,
    /// The caller identity differs from the stored owner of the target chain.
    Unauthorized,
    /// A creation counter would overflow its fixed-width domain.
    CounterOverflow,
    /// A removal was attempted while the live-record counter was already zero.
    CounterUnderflow,
    /// The to-do item was already marked as done.
    AlreadyMarked,
    /// The depositor's balance does not cover the requested deposit.
    InsufficientFunds,
    /// A supplied address disagrees with the re-derived one.
    AddressMismatch,
}

} // verus!
