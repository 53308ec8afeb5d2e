//! Unsigned from signed, of any widths.
//!
//! The sign is tested first, in the source type. Only a value known to be
//! non-negative is then compared with the destination's maximum, and only
//! where the source is wider, so that the maximum is a value of the source
//! type.

use std::mem;
use vstd::prelude::*;
use crate::convert::TryFrom;
use crate::error::TryFromIntError;
use crate::range::{checked_u8, checked_u16, checked_u32, checked_u64, checked_usize};

verus! {

impl TryFrom<i8> for u8 {
    type Err = TryFromIntError;

    open spec fn outcome(n: i8) -> Result<u8, TryFromIntError> {
        checked_u8(n as int)
    }

    fn try_from(n: i8) -> (r: Result<u8, TryFromIntError>) {
        if n < 0 {
            Err(TryFromIntError::Underflow)
        } else if mem::size_of::<i8>() > mem::size_of::<u8>() && n > u8::MAX as i8 {
            Err(TryFromIntError::Overflow)
        } else {
            Ok(n as u8)
        }
    }
}

impl TryFrom<i16> for u8 {
    type Err = TryFromIntError;

    open spec fn outcome(n: i16) -> Result<u8, TryFromIntError> {
        checked_u8(n as int)
    }

    fn try_from(n: i16) -> (r: Result<u8, TryFromIntError>) {
        if n < 0 {
            Err(TryFromIntError::Underflow)
        } else if mem::size_of::<i16>() > mem::size_of::<u8>() && n > u8::MAX as i16 {
            Err(TryFromIntError::Overflow)
        } else {
            Ok(n as u8)
        }
    }
}

impl TryFrom<i32> for u8 {
    type Err = TryFromIntError;

    open spec fn outcome(n: i32) -> Result<u8, TryFromIntError> {
        checked_u8(n as int)
    }

    fn try_from(n: i32) -> (r: Result<u8, TryFromIntError>) {
        if n < 0 {
            Err(TryFromIntError::Underflow)
        } else if mem::size_of::<i32>() > mem::size_of::<u8>() && n > u8::MAX as i32 {
            Err(TryFromIntError::Overflow)
        } else {
            Ok(n as u8)
        }
    }
}

impl TryFrom<i64> for u8 {
    type Err = TryFromIntError;

    open spec fn outcome(n: i64) -> Result<u8, TryFromIntError> {
        checked_u8(n as int)
    }

    fn try_from(n: i64) -> (r: Result<u8, TryFromIntError>) {
        if n < 0 {
            Err(TryFromIntError::Underflow)
        } else if mem::size_of::<i64>() > mem::size_of::<u8>() && n > u8::MAX as i64 {
            Err(TryFromIntError::Overflow)
        } else {
            Ok(n as u8)
        }
    }
}

impl TryFrom<isize> for u8 {
    type Err = TryFromIntError;

    open spec fn outcome(n: isize) -> Result<u8, TryFromIntError> {
        checked_u8(n as int)
    }

    fn try_from(n: isize) -> (r: Result<u8, TryFromIntError>) {
        if n < 0 {
            Err(TryFromIntError::Underflow)
        } else if mem::size_of::<isize>() > mem::size_of::<u8>() && n > u8::MAX as isize {
            Err(TryFromIntError::Overflow)
        } else {
            Ok(n as u8)
        }
    }
}

impl TryFrom<i8> for u16 {
    type Err = TryFromIntError;

    open spec fn outcome(n: i8) -> Result<u16, TryFromIntError> {
        checked_u16(n as int)
    }

    fn try_from(n: i8) -> (r: Result<u16, TryFromIntError>) {
        if n < 0 {
            Err(TryFromIntError::Underflow)
        } else if mem::size_of::<i8>() > mem::size_of::<u16>() && n > u16::MAX as i8 {
            Err(TryFromIntError::Overflow)
        } else {
            Ok(n as u16)
        }
    }
}

impl TryFrom<i16> for u16 {
    type Err = TryFromIntError;

    open spec fn outcome(n: i16) -> Result<u16, TryFromIntError> {
        checked_u16(n as int)
    }

    fn try_from(n: i16) -> (r: Result<u16, TryFromIntError>) {
        if n < 0 {
            Err(TryFromIntError::Underflow)
        } else if mem::size_of::<i16>() > mem::size_of::<u16>() && n > u16::MAX as i16 {
            Err(TryFromIntError::Overflow)
        } else {
            Ok(n as u16)
        }
    }
}

impl TryFrom<i32> for u16 {
    type Err = TryFromIntError;

    open spec fn outcome(n: i32) -> Result<u16, TryFromIntError> {
        checked_u16(n as int)
    }

    fn try_from(n: i32) -> (r: Result<u16, TryFromIntError>) {
        if n < 0 {
            Err(TryFromIntError::Underflow)
        } else if mem::size_of::<i32>() > mem::size_of::<u16>() && n > u16::MAX as i32 {
            Err(TryFromIntError::Overflow)
        } else {
            Ok(n as u16)
        }
    }
}

impl TryFrom<i64> for u16 {
    type Err = TryFromIntError;

    open spec fn outcome(n: i64) -> Result<u16, TryFromIntError> {
        checked_u16(n as int)
    }

    fn try_from(n: i64) -> (r: Result<u16, TryFromIntError>) {
        if n < 0 {
            Err(TryFromIntError::Underflow)
        } else if mem::size_of::<i64>() > mem::size_of::<u16>() && n > u16::MAX as i64 {
            Err(TryFromIntError::Overflow)
        } else {
            Ok(n as u16)
        }
    }
}

impl TryFrom<isize> for u16 {
    type Err = TryFromIntError;

    open spec fn outcome(n: isize) -> Result<u16, TryFromIntError> {
        checked_u16(n as int)
    }

    fn try_from(n: isize) -> (r: Result<u16, TryFromIntError>) {
        if n < 0 {
            Err(TryFromIntError::Underflow)
        } else if mem::size_of::<isize>() > mem::size_of::<u16>() && n > u16::MAX as isize {
            Err(TryFromIntError::Overflow)
        } else {
            Ok(n as u16)
        }
    }
}

impl TryFrom<i8> for u32 {
    type Err = TryFromIntError;

    open spec fn outcome(n: i8) -> Result<u32, TryFromIntError> {
        checked_u32(n as int)
    }

    fn try_from(n: i8) -> (r: Result<u32, TryFromIntError>) {
        if n < 0 {
            Err(TryFromIntError::Underflow)
        } else if mem::size_of::<i8>() > mem::size_of::<u32>() && n > u32::MAX as i8 {
            Err(TryFromIntError::Overflow)
        } else {
            Ok(n as u32)
        }
    }
}

impl TryFrom<i16> for u32 {
    type Err = TryFromIntError;

    open spec fn outcome(n: i16) -> Result<u32, TryFromIntError> {
        checked_u32(n as int)
    }

    fn try_from(n: i16) -> (r: Result<u32, TryFromIntError>) {
        if n < 0 {
            Err(TryFromIntError::Underflow)
        } else if mem::size_of::<i16>() > mem::size_of::<u32>() && n > u32::MAX as i16 {
            Err(TryFromIntError::Overflow)
        } else {
            Ok(n as u32)
        }
    }
}

impl TryFrom<i32> for u32 {
    type Err = TryFromIntError;

    open spec fn outcome(n: i32) -> Result<u32, TryFromIntError> {
        checked_u32(n as int)
    }

    fn try_from(n: i32) -> (r: Result<u32, TryFromIntError>) {
        if n < 0 {
            Err(TryFromIntError::Underflow)
        } else if mem::size_of::<i32>() > mem::size_of::<u32>() && n > u32::MAX as i32 {
            Err(TryFromIntError::Overflow)
        } else {
            Ok(n as u32)
        }
    }
}

impl TryFrom<i64> for u32 {
    type Err = TryFromIntError;

    open spec fn outcome(n: i64) -> Result<u32, TryFromIntError> {
        checked_u32(n as int)
    }

    fn try_from(n: i64) -> (r: Result<u32, TryFromIntError>) {
        if n < 0 {
            Err(TryFromIntError::Underflow)
        } else if mem::size_of::<i64>() > mem::size_of::<u32>() && n > u32::MAX as i64 {
            Err(TryFromIntError::Overflow)
        } else {
            Ok(n as u32)
        }
    }
}

impl TryFrom<isize> for u32 {
    type Err = TryFromIntError;

    open spec fn outcome(n: isize) -> Result<u32, TryFromIntError> {
        checked_u32(n as int)
    }

    fn try_from(n: isize) -> (r: Result<u32, TryFromIntError>) {
        if n < 0 {
            Err(TryFromIntError::Underflow)
        } else if mem::size_of::<isize>() > mem::size_of::<u32>() && n > u32::MAX as isize {
            Err(TryFromIntError::Overflow)
        } else {
            Ok(n as u32)
        }
    }
}

impl TryFrom<i8> for u64 {
    type Err = TryFromIntError;

    open spec fn outcome(n: i8) -> Result<u64, TryFromIntError> {
        checked_u64(n as int)
    }

    fn try_from(n: i8) -> (r: Result<u64, TryFromIntError>) {
        if n < 0 {
            Err(TryFromIntError::Underflow)
        } else if mem::size_of::<i8>() > mem::size_of::<u64>() && n > u64::MAX as i8 {
            Err(TryFromIntError::Overflow)
        } else {
            Ok(n as u64)
        }
    }
}

impl TryFrom<i16> for u64 {
    type Err = TryFromIntError;

    open spec fn outcome(n: i16) -> Result<u64, TryFromIntError> {
        checked_u64(n as int)
    }

    fn try_from(n: i16) -> (r: Result<u64, TryFromIntError>) {
        if n < 0 {
            Err(TryFromIntError::Underflow)
        } else if mem::size_of::<i16>() > mem::size_of::<u64>() && n > u64::MAX as i16 {
            Err(TryFromIntError::Overflow)
        } else {
            Ok(n as u64)
        }
    }
}

impl TryFrom<i32> for u64 {
    type Err = TryFromIntError;

    open spec fn outcome(n: i32) -> Result<u64, TryFromIntError> {
        checked_u64(n as int)
    }

    fn try_from(n: i32) -> (r: Result<u64, TryFromIntError>) {
        if n < 0 {
            Err(TryFromIntError::Underflow)
        } else if mem::size_of::<i32>() > mem::size_of::<u64>() && n > u64::MAX as i32 {
            Err(TryFromIntError::Overflow)
        } else {
            Ok(n as u64)
        }
    }
}

impl TryFrom<i64> for u64 {
    type Err = TryFromIntError;

    open spec fn outcome(n: i64) -> Result<u64, TryFromIntError> {
        checked_u64(n as int)
    }

    fn try_from(n: i64) -> (r: Result<u64, TryFromIntError>) {
        if n < 0 {
            Err(TryFromIntError::Underflow)
        } else if mem::size_of::<i64>() > mem::size_of::<u64>() && n > u64::MAX as i64 {
            Err(TryFromIntError::Overflow)
        } else {
            Ok(n as u64)
        }
    }
}

impl TryFrom<isize> for u64 {
    type Err = TryFromIntError;

    open spec fn outcome(n: isize) -> Result<u64, TryFromIntError> {
        checked_u64(n as int)
    }

    fn try_from(n: isize) -> (r: Result<u64, TryFromIntError>) {
        if n < 0 {
            Err(TryFromIntError::Underflow)
        } else if mem::size_of::<isize>() > mem::size_of::<u64>() && n > u64::MAX as isize {
            Err(TryFromIntError::Overflow)
        } else {
            Ok(n as u64)
        }
    }
}

impl TryFrom<i8> for usize {
    type Err = TryFromIntError;

    open spec fn outcome(n: i8) -> Result<usize, TryFromIntError> {
        checked_usize(n as int)
    }

    fn try_from(n: i8) -> (r: Result<usize, TryFromIntError>) {
        if n < 0 {
            Err(TryFromIntError::Underflow)
        } else if mem::size_of::<i8>() > mem::size_of::<usize>() && n > usize::MAX as i8 {
            Err(TryFromIntError::Overflow)
        } else {
            Ok(n as usize)
        }
    }
}

impl TryFrom<i16> for usize {
    type Err = TryFromIntError;

    open spec fn outcome(n: i16) -> Result<usize, TryFromIntError> {
        checked_usize(n as int)
    }

    fn try_from(n: i16) -> (r: Result<usize, TryFromIntError>) {
        if n < 0 {
            Err(TryFromIntError::Underflow)
        } else if mem::size_of::<i16>() > mem::size_of::<usize>() && n > usize::MAX as i16 {
            Err(TryFromIntError::Overflow)
        } else {
            Ok(n as usize)
        }
    }
}

impl TryFrom<i32> for usize {
    type Err = TryFromIntError;

    open spec fn outcome(n: i32) -> Result<usize, TryFromIntError> {
        checked_usize(n as int)
    }

    fn try_from(n: i32) -> (r: Result<usize, TryFromIntError>) {
        if n < 0 {
            Err(TryFromIntError::Underflow)
        } else if mem::size_of::<i32>() > mem::size_of::<usize>() && n > usize::MAX as i32 {
            Err(TryFromIntError::Overflow)
        } else {
            Ok(n as usize)
        }
    }
}

impl TryFrom<i64> for usize {
    type Err = TryFromIntError;

    open spec fn outcome(n: i64) -> Result<usize, TryFromIntError> {
        checked_usize(n as int)
    }

    fn try_from(n: i64) -> (r: Result<usize, TryFromIntError>) {
        if n < 0 {
            Err(TryFromIntError::Underflow)
        } else if mem::size_of::<i64>() > mem::size_of::<usize>() && n > usize::MAX as i64 {
            Err(TryFromIntError::Overflow)
        } else {
            Ok(n as usize)
        }
    }
}

impl TryFrom<isize> for usize {
    type Err = TryFromIntError;

    open spec fn outcome(n: isize) -> Result<usize, TryFromIntError> {
        checked_usize(n as int)
    }

    fn try_from(n: isize) -> (r: Result<usize, TryFromIntError>) {
        if n < 0 {
            Err(TryFromIntError::Underflow)
        } else if mem::size_of::<isize>() > mem::size_of::<usize>() && n > usize::MAX as isize {
            Err(TryFromIntError::Overflow)
        } else {
            Ok(n as usize)
        }
    }
}

} // verus!
