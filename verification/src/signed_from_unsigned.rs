//! Signed from unsigned of the same width or wider.
//!
//! Only the upper bound can be crossed, and it can be crossed at equal width
//! too: an unsigned value may use the bit that is the destination's sign.

use std::mem;
use vstd::prelude::*;
use crate::convert::TryFrom;
use crate::error::TryFromIntError;
use crate::range::{checked_i8, checked_i16, checked_i32, checked_i64, checked_isize};

verus! {

impl TryFrom<u8> for i8 {
    type Err = TryFromIntError;

    open spec fn outcome(n: u8) -> Result<i8, TryFromIntError> {
        checked_i8(n as int)
    }

    fn try_from(n: u8) -> (r: Result<i8, TryFromIntError>) {
        if mem::size_of::<u8>() >= mem::size_of::<i8>() && n > i8::MAX as u8 {
            Err(TryFromIntError::Overflow)
        } else {
            Ok(n as i8)
        }
    }
}

impl TryFrom<u16> for i8 {
    type Err = TryFromIntError;

    open spec fn outcome(n: u16) -> Result<i8, TryFromIntError> {
        checked_i8(n as int)
    }

    fn try_from(n: u16) -> (r: Result<i8, TryFromIntError>) {
        if mem::size_of::<u16>() >= mem::size_of::<i8>() && n > i8::MAX as u16 {
            Err(TryFromIntError::Overflow)
        } else {
            Ok(n as i8)
        }
    }
}

impl TryFrom<u32> for i8 {
    type Err = TryFromIntError;

    open spec fn outcome(n: u32) -> Result<i8, TryFromIntError> {
        checked_i8(n as int)
    }

    fn try_from(n: u32) -> (r: Result<i8, TryFromIntError>) {
        if mem::size_of::<u32>() >= mem::size_of::<i8>() && n > i8::MAX as u32 {
            Err(TryFromIntError::Overflow)
        } else {
            Ok(n as i8)
        }
    }
}

impl TryFrom<u64> for i8 {
    type Err = TryFromIntError;

    open spec fn outcome(n: u64) -> Result<i8, TryFromIntError> {
        checked_i8(n as int)
    }

    fn try_from(n: u64) -> (r: Result<i8, TryFromIntError>) {
        if mem::size_of::<u64>() >= mem::size_of::<i8>() && n > i8::MAX as u64 {
            Err(TryFromIntError::Overflow)
        } else {
            Ok(n as i8)
        }
    }
}

impl TryFrom<usize> for i8 {
    type Err = TryFromIntError;

    open spec fn outcome(n: usize) -> Result<i8, TryFromIntError> {
        checked_i8(n as int)
    }

    fn try_from(n: usize) -> (r: Result<i8, TryFromIntError>) {
        if mem::size_of::<usize>() >= mem::size_of::<i8>() && n > i8::MAX as usize {
            Err(TryFromIntError::Overflow)
        } else {
            Ok(n as i8)
        }
    }
}

impl TryFrom<u16> for i16 {
    type Err = TryFromIntError;

    open spec fn outcome(n: u16) -> Result<i16, TryFromIntError> {
        checked_i16(n as int)
    }

    fn try_from(n: u16) -> (r: Result<i16, TryFromIntError>) {
        if mem::size_of::<u16>() >= mem::size_of::<i16>() && n > i16::MAX as u16 {
            Err(TryFromIntError::Overflow)
        } else {
            Ok(n as i16)
        }
    }
}

impl TryFrom<u32> for i16 {
    type Err = TryFromIntError;

    open spec fn outcome(n: u32) -> Result<i16, TryFromIntError> {
        checked_i16(n as int)
    }

    fn try_from(n: u32) -> (r: Result<i16, TryFromIntError>) {
        if mem::size_of::<u32>() >= mem::size_of::<i16>() && n > i16::MAX as u32 {
            Err(TryFromIntError::Overflow)
        } else {
            Ok(n as i16)
        }
    }
}

impl TryFrom<u64> for i16 {
    type Err = TryFromIntError;

    open spec fn outcome(n: u64) -> Result<i16, TryFromIntError> {
        checked_i16(n as int)
    }

    fn try_from(n: u64) -> (r: Result<i16, TryFromIntError>) {
        if mem::size_of::<u64>() >= mem::size_of::<i16>() && n > i16::MAX as u64 {
            Err(TryFromIntError::Overflow)
        } else {
            Ok(n as i16)
        }
    }
}

impl TryFrom<usize> for i16 {
    type Err = TryFromIntError;

    open spec fn outcome(n: usize) -> Result<i16, TryFromIntError> {
        checked_i16(n as int)
    }

    fn try_from(n: usize) -> (r: Result<i16, TryFromIntError>) {
        if mem::size_of::<usize>() >= mem::size_of::<i16>() && n > i16::MAX as usize {
            Err(TryFromIntError::Overflow)
        } else {
            Ok(n as i16)
        }
    }
}

impl TryFrom<u32> for i32 {
    type Err = TryFromIntError;

    open spec fn outcome(n: u32) -> Result<i32, TryFromIntError> {
        checked_i32(n as int)
    }

    fn try_from(n: u32) -> (r: Result<i32, TryFromIntError>) {
        if mem::size_of::<u32>() >= mem::size_of::<i32>() && n > i32::MAX as u32 {
            Err(TryFromIntError::Overflow)
        } else {
            Ok(n as i32)
        }
    }
}

impl TryFrom<u64> for i32 {
    type Err = TryFromIntError;

    open spec fn outcome(n: u64) -> Result<i32, TryFromIntError> {
        checked_i32(n as int)
    }

    fn try_from(n: u64) -> (r: Result<i32, TryFromIntError>) {
        if mem::size_of::<u64>() >= mem::size_of::<i32>() && n > i32::MAX as u64 {
            Err(TryFromIntError::Overflow)
        } else {
            Ok(n as i32)
        }
    }
}

impl TryFrom<usize> for i32 {
    type Err = TryFromIntError;

    open spec fn outcome(n: usize) -> Result<i32, TryFromIntError> {
        checked_i32(n as int)
    }

    fn try_from(n: usize) -> (r: Result<i32, TryFromIntError>) {
        if mem::size_of::<usize>() >= mem::size_of::<i32>() && n > i32::MAX as usize {
            Err(TryFromIntError::Overflow)
        } else {
            Ok(n as i32)
        }
    }
}

impl TryFrom<u64> for i64 {
    type Err = TryFromIntError;

    open spec fn outcome(n: u64) -> Result<i64, TryFromIntError> {
        checked_i64(n as int)
    }

    fn try_from(n: u64) -> (r: Result<i64, TryFromIntError>) {
        if mem::size_of::<u64>() >= mem::size_of::<i64>() && n > i64::MAX as u64 {
            Err(TryFromIntError::Overflow)
        } else {
            Ok(n as i64)
        }
    }
}

impl TryFrom<usize> for i64 {
    type Err = TryFromIntError;

    open spec fn outcome(n: usize) -> Result<i64, TryFromIntError> {
        checked_i64(n as int)
    }

    fn try_from(n: usize) -> (r: Result<i64, TryFromIntError>) {
        if mem::size_of::<usize>() >= mem::size_of::<i64>() && n > i64::MAX as usize {
            Err(TryFromIntError::Overflow)
        } else {
            Ok(n as i64)
        }
    }
}

impl TryFrom<u32> for isize {
    type Err = TryFromIntError;

    open spec fn outcome(n: u32) -> Result<isize, TryFromIntError> {
        checked_isize(n as int)
    }

    fn try_from(n: u32) -> (r: Result<isize, TryFromIntError>) {
        if mem::size_of::<u32>() >= mem::size_of::<isize>() && n > isize::MAX as u32 {
            Err(TryFromIntError::Overflow)
        } else {
            Ok(n as isize)
        }
    }
}

impl TryFrom<u64> for isize {
    type Err = TryFromIntError;

    open spec fn outcome(n: u64) -> Result<isize, TryFromIntError> {
        checked_isize(n as int)
    }

    fn try_from(n: u64) -> (r: Result<isize, TryFromIntError>) {
        if mem::size_of::<u64>() >= mem::size_of::<isize>() && n > isize::MAX as u64 {
            Err(TryFromIntError::Overflow)
        } else {
            Ok(n as isize)
        }
    }
}

impl TryFrom<usize> for isize {
    type Err = TryFromIntError;

    open spec fn outcome(n: usize) -> Result<isize, TryFromIntError> {
        checked_isize(n as int)
    }

    fn try_from(n: usize) -> (r: Result<isize, TryFromIntError>) {
        if mem::size_of::<usize>() >= mem::size_of::<isize>() && n > isize::MAX as usize {
            Err(TryFromIntError::Overflow)
        } else {
            Ok(n as isize)
        }
    }
}

} // verus!
