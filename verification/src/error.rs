//! Errors reported by the door lock.

use vstd::prelude::*;

verus! {

/// Error returned by a lock operation that is refused.
#[derive(Debug, Clone, Copy, PartialEq, Eq, Structural)]
pub enum LockError {
    /// The requested state change is not one of the allowed transitions.
    InvalidStateTransition,
    /// The operation is not allowed in the current state.
    OperationNotAllowed,
}

} // verus!
