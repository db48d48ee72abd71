//! Recoverable error convention for monotonic counters.
//!
//! Counter-owning host code distinguishes two recoverable failures —
//! overflow past the largest representable sequence number and underflow
//! below zero — from the internal-invariant faults of the marshalling
//! layer, which are excluded statically by preconditions instead.

use vstd::prelude::*;

verus! {

/// Recoverable failure of a monotonic counter operation.
#[derive(Clone, Copy, Debug, PartialEq, Eq, Structural)]
pub enum Error {
    /// An increment was attempted on a counter already at its maximum.
    SequenceOverflow,
    /// A decrement was attempted on a counter already at zero.
    SequenceUnderflow,
}

impl Error {
    /// A human-readable description of the failure.
    pub fn message(&self) -> (s: &'static str)
        ensures
            *self is SequenceOverflow ==> s@ == "Sequence number overflow"@,
            *self is SequenceUnderflow ==> s@ == "Sequence number underflow"@,
    {
        match self {
            Error::SequenceOverflow => "Sequence number overflow",
            Error::SequenceUnderflow => "Sequence number underflow",
        }
    }
}

/// Checks a precondition, handing back the given error when it does not hold.
pub fn ensure<E>(condition: bool, error: E) -> (r: Result<(), E>)
    ensures
        condition ==> r is Ok,
        !condition ==> (r matches Err(e) && e == error),
{
    if condition {
        Ok(())
    } else {
        Err(error)
    }
}

/// Advances a sequence counter by one, reporting overflow at the top of the
/// range rather than wrapping or aborting.
pub fn try_increment(value: u64) -> (r: Result<u64, Error>)
    ensures
        value < u64::MAX ==> (r matches Ok(v) && v == value + 1),
        value == u64::MAX ==> (r matches Err(e) && e == Error::SequenceOverflow),
{
    match ensure(value < u64::MAX, Error::SequenceOverflow) {
        Ok(_) => Ok(value + 1),
        Err(e) => Err(e),
    }
}

/// Steps a sequence counter back by one, reporting underflow at zero rather
/// than wrapping or aborting.
pub fn try_decrement(value: u64) -> (r: Result<u64, Error>)
    ensures
        value > 0 ==> (r matches Ok(v) && v == value - 1),
        value == 0 ==> (r matches Err(e) && e == Error::SequenceUnderflow),
{
    match ensure(value > 0, Error::SequenceUnderflow) {
        Ok(_) => Ok(value - 1),
        Err(e) => Err(e),
    }
}

} // verus!
