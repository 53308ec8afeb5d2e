//! The mathematical model of a checked conversion.
//!
//! An integer type is the range of its values, and a conversion is a question
//! about one mathematical integer and one range.

use vstd::prelude::*;
use crate::error::TryFromIntError;

verus! {

/// What converting the value `v` into a type of range `lo ..= hi` gives.
pub open spec fn checked(v: int, lo: int, hi: int) -> Result<int, TryFromIntError> {
    if v > hi {
        Err(TryFromIntError::Overflow)
    } else if v < lo {
        Err(TryFromIntError::Underflow)
    } else {
        Ok(v)
    }
}

/// What converting the value `v` into a `u8` gives.
pub open spec fn checked_u8(v: int) -> Result<u8, TryFromIntError> {
    match checked(v, u8::MIN as int, u8::MAX as int) {
        Ok(x) => Ok(x as u8),
        Err(e) => Err(e),
    }
}

/// What converting the value `v` into a `u16` gives.
pub open spec fn checked_u16(v: int) -> Result<u16, TryFromIntError> {
    match checked(v, u16::MIN as int, u16::MAX as int) {
        Ok(x) => Ok(x as u16),
        Err(e) => Err(e),
    }
}

/// What converting the value `v` into a `u32` gives.
pub open spec fn checked_u32(v: int) -> Result<u32, TryFromIntError> {
    match checked(v, u32::MIN as int, u32::MAX as int) {
        Ok(x) => Ok(x as u32),
        Err(e) => Err(e),
    }
}

/// What converting the value `v` into a `u64` gives.
pub open spec fn checked_u64(v: int) -> Result<u64, TryFromIntError> {
    match checked(v, u64::MIN as int, u64::MAX as int) {
        Ok(x) => Ok(x as u64),
        Err(e) => Err(e),
    }
}

/// What converting the value `v` into a `usize` gives.
pub open spec fn checked_usize(v: int) -> Result<usize, TryFromIntError> {
    match checked(v, usize::MIN as int, usize::MAX as int) {
        Ok(x) => Ok(x as usize),
        Err(e) => Err(e),
    }
}

/// What converting the value `v` into a `i8` gives.
pub open spec fn checked_i8(v: int) -> Result<i8, TryFromIntError> {
    match checked(v, i8::MIN as int, i8::MAX as int) {
        Ok(x) => Ok(x as i8),
        Err(e) => Err(e),
    }
}

/// What converting the value `v` into a `i16` gives.
pub open spec fn checked_i16(v: int) -> Result<i16, TryFromIntError> {
    match checked(v, i16::MIN as int, i16::MAX as int) {
        Ok(x) => Ok(x as i16),
        Err(e) => Err(e),
    }
}

/// What converting the value `v` into a `i32` gives.
pub open spec fn checked_i32(v: int) -> Result<i32, TryFromIntError> {
    match checked(v, i32::MIN as int, i32::MAX as int) {
        Ok(x) => Ok(x as i32),
        Err(e) => Err(e),
    }
}

/// What converting the value `v` into a `i64` gives.
pub open spec fn checked_i64(v: int) -> Result<i64, TryFromIntError> {
    match checked(v, i64::MIN as int, i64::MAX as int) {
        Ok(x) => Ok(x as i64),
        Err(e) => Err(e),
    }
}

/// What converting the value `v` into a `isize` gives.
pub open spec fn checked_isize(v: int) -> Result<isize, TryFromIntError> {
    match checked(v, isize::MIN as int, isize::MAX as int) {
        Ok(x) => Ok(x as isize),
        Err(e) => Err(e),
    }
}

/// The outcome of a conversion into `u8` is the model's for the range of
/// `u8`: the same error, or the same mathematical value.
pub proof fn lemma_checked_u8_agrees(v: int)
    ensures
        match (checked_u8(v), checked(v, u8::MIN as int, u8::MAX as int)) {
            (Ok(x), Ok(y)) => x == y,
            (Err(e), Err(f)) => e == f,
            _ => false,
        },
{
}

/// The outcome of a conversion into `u16` is the model's for the range of
/// `u16`: the same error, or the same mathematical value.
pub proof fn lemma_checked_u16_agrees(v: int)
    ensures
        match (checked_u16(v), checked(v, u16::MIN as int, u16::MAX as int)) {
            (Ok(x), Ok(y)) => x == y,
            (Err(e), Err(f)) => e == f,
            _ => false,
        },
{
}

/// The outcome of a conversion into `u32` is the model's for the range of
/// `u32`: the same error, or the same mathematical value.
pub proof fn lemma_checked_u32_agrees(v: int)
    ensures
        match (checked_u32(v), checked(v, u32::MIN as int, u32::MAX as int)) {
            (Ok(x), Ok(y)) => x == y,
            (Err(e), Err(f)) => e == f,
            _ => false,
        },
{
}

/// The outcome of a conversion into `u64` is the model's for the range of
/// `u64`: the same error, or the same mathematical value.
pub proof fn lemma_checked_u64_agrees(v: int)
    ensures
        match (checked_u64(v), checked(v, u64::MIN as int, u64::MAX as int)) {
            (Ok(x), Ok(y)) => x == y,
            (Err(e), Err(f)) => e == f,
            _ => false,
        },
{
}

/// The outcome of a conversion into `usize` is the model's for the range of
/// `usize`: the same error, or the same mathematical value.
pub proof fn lemma_checked_usize_agrees(v: int)
    ensures
        match (checked_usize(v), checked(v, usize::MIN as int, usize::MAX as int)) {
            (Ok(x), Ok(y)) => x == y,
            (Err(e), Err(f)) => e == f,
            _ => false,
        },
{
}

/// The outcome of a conversion into `i8` is the model's for the range of
/// `i8`: the same error, or the same mathematical value.
pub proof fn lemma_checked_i8_agrees(v: int)
    ensures
        match (checked_i8(v), checked(v, i8::MIN as int, i8::MAX as int)) {
            (Ok(x), Ok(y)) => x == y,
            (Err(e), Err(f)) => e == f,
            _ => false,
        },
{
}

/// The outcome of a conversion into `i16` is the model's for the range of
/// `i16`: the same error, or the same mathematical value.
pub proof fn lemma_checked_i16_agrees(v: int)
    ensures
        match (checked_i16(v), checked(v, i16::MIN as int, i16::MAX as int)) {
            (Ok(x), Ok(y)) => x == y,
            (Err(e), Err(f)) => e == f,
            _ => false,
        },
{
}

/// The outcome of a conversion into `i32` is the model's for the range of
/// `i32`: the same error, or the same mathematical value.
pub proof fn lemma_checked_i32_agrees(v: int)
    ensures
        match (checked_i32(v), checked(v, i32::MIN as int, i32::MAX as int)) {
            (Ok(x), Ok(y)) => x == y,
            (Err(e), Err(f)) => e == f,
            _ => false,
        },
{
}

/// The outcome of a conversion into `i64` is the model's for the range of
/// `i64`: the same error, or the same mathematical value.
pub proof fn lemma_checked_i64_agrees(v: int)
    ensures
        match (checked_i64(v), checked(v, i64::MIN as int, i64::MAX as int)) {
            (Ok(x), Ok(y)) => x == y,
            (Err(e), Err(f)) => e == f,
            _ => false,
        },
{
}

/// The outcome of a conversion into `isize` is the model's for the range of
/// `isize`: the same error, or the same mathematical value.
pub proof fn lemma_checked_isize_agrees(v: int)
    ensures
        match (checked_isize(v), checked(v, isize::MIN as int, isize::MAX as int)) {
            (Ok(x), Ok(y)) => x == y,
            (Err(e), Err(f)) => e == f,
            _ => false,
        },
{
}

/// Every value has exactly one outcome, decided by where it lies: success
/// within the range, overflow above it, underflow below it.
pub proof fn lemma_outcome_by_position(v: int, lo: int, hi: int)
    requires
        lo <= hi,
    ensures
        checked(v, lo, hi) is Ok <==> lo <= v <= hi,
        checked(v, lo, hi) == Err::<int, TryFromIntError>(TryFromIntError::Overflow) <==> v > hi,
        checked(v, lo, hi) == Err::<int, TryFromIntError>(TryFromIntError::Underflow) <==> v < lo,
{
}

/// A conversion that succeeds keeps the value.
pub proof fn lemma_success_keeps_value(v: int, lo: int, hi: int)
    requires
        checked(v, lo, hi) is Ok,
    ensures
        checked(v, lo, hi) == Ok::<int, TryFromIntError>(v),
{
}

/// A value of one type that converts into another converts back to itself.
pub proof fn lemma_round_trip(v: int, from_lo: int, from_hi: int, to_lo: int, to_hi: int)
    requires
        from_lo <= v <= from_hi,
        checked(v, to_lo, to_hi) is Ok,
    ensures
        checked(checked(v, to_lo, to_hi)->Ok_0, from_lo, from_hi) == Ok::<int, TryFromIntError>(v),
{
}

/// Both bounds convert, and the values next to them on the outside fail, each
/// with the error of its side.
pub proof fn lemma_bounds_are_exact(lo: int, hi: int)
    requires
        lo <= hi,
    ensures
        checked(hi, lo, hi) == Ok::<int, TryFromIntError>(hi),
        checked(hi + 1, lo, hi) == Err::<int, TryFromIntError>(TryFromIntError::Overflow),
        checked(lo, lo, hi) == Ok::<int, TryFromIntError>(lo),
        checked(lo - 1, lo, hi) == Err::<int, TryFromIntError>(TryFromIntError::Underflow),
{
}

/// Above a value that overflows, every value overflows.
pub proof fn lemma_overflow_is_upward_closed(v: int, w: int, lo: int, hi: int)
    requires
        checked(v, lo, hi) == Err::<int, TryFromIntError>(TryFromIntError::Overflow),
        v < w,
    ensures
        checked(w, lo, hi) == Err::<int, TryFromIntError>(TryFromIntError::Overflow),
{
}

/// Below a value that underflows, every value underflows.
pub proof fn lemma_underflow_is_downward_closed(v: int, w: int, lo: int, hi: int)
    requires
        lo <= hi,
        checked(v, lo, hi) == Err::<int, TryFromIntError>(TryFromIntError::Underflow),
        w < v,
    ensures
        checked(w, lo, hi) == Err::<int, TryFromIntError>(TryFromIntError::Underflow),
{
}

} // verus!
