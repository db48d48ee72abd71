//! Tests of the sequence-counter error convention.

use guest_abi::error::{ensure, try_decrement, try_increment, Error};

#[test]
fn increment_at_maximum_overflows() {
    assert_eq!(try_increment(u64::MAX), Err(Error::SequenceOverflow));
}

#[test]
fn decrement_at_zero_underflows() {
    assert_eq!(try_decrement(0), Err(Error::SequenceUnderflow));
}

#[test]
fn ordinary_increments_succeed() {
    assert_eq!(try_increment(0), Ok(1));
    assert_eq!(try_increment(41), Ok(42));
    assert_eq!(try_increment(u64::MAX - 1), Ok(u64::MAX));
}

#[test]
fn ordinary_decrements_succeed() {
    assert_eq!(try_decrement(1), Ok(0));
    assert_eq!(try_decrement(43), Ok(42));
    assert_eq!(try_decrement(u64::MAX), Ok(u64::MAX - 1));
}

#[test]
fn ensure_passes_condition_through() {
    assert_eq!(ensure(true, Error::SequenceOverflow), Ok(()));
    assert_eq!(ensure(false, Error::SequenceUnderflow), Err(Error::SequenceUnderflow));
}

#[test]
fn error_messages() {
    assert_eq!(Error::SequenceOverflow.message(), "Sequence number overflow");
    assert_eq!(Error::SequenceUnderflow.message(), "Sequence number underflow");
}
