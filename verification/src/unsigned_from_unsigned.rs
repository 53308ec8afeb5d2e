//! Unsigned from wider unsigned.
//!
//! Only the upper bound can be crossed. The destination's maximum is compared
//! in the source type, and only where the source is the wider of the two, so
//! that the maximum is a value of the source type.

use std::mem;
use vstd::prelude::*;
use crate::convert::TryFrom;
use crate::error::TryFromIntError;
use crate::range::{checked_u8, checked_u16, checked_u32, checked_usize};

verus! {

impl TryFrom<u16> for u8 {
    type Err = TryFromIntError;

    open spec fn outcome(n: u16) -> Result<u8, TryFromIntError> {
        checked_u8(n as int)
    }

    fn try_from(n: u16) -> (r: Result<u8, TryFromIntError>) {
        if mem::size_of::<u16>() > mem::size_of::<u8>() && n > u8::MAX as u16 {
            Err(TryFromIntError::Overflow)
        } else {
            Ok(n as u8)
        }
    }
}

impl TryFrom<u32> for u8 {
    type Err = TryFromIntError;

    open spec fn outcome(n: u32) -> Result<u8, TryFromIntError> {
        checked_u8(n as int)
    }

    fn try_from(n: u32) -> (r: Result<u8, TryFromIntError>) {
        if mem::size_of::<u32>() > mem::size_of::<u8>() && n > u8::MAX as u32 {
            Err(TryFromIntError::Overflow)
        } else {
            Ok(n as u8)
        }
    }
}

impl TryFrom<u64> for u8 {
    type Err = TryFromIntError;

    open spec fn outcome(n: u64) -> Result<u8, TryFromIntError> {
        checked_u8(n as int)
    }

    fn try_from(n: u64) -> (r: Result<u8, TryFromIntError>) {
        if mem::size_of::<u64>() > mem::size_of::<u8>() && n > u8::MAX as u64 {
            Err(TryFromIntError::Overflow)
        } else {
            Ok(n as u8)
        }
    }
}

impl TryFrom<usize> for u8 {
    type Err = TryFromIntError;

    open spec fn outcome(n: usize) -> Result<u8, TryFromIntError> {
        checked_u8(n as int)
    }

    fn try_from(n: usize) -> (r: Result<u8, TryFromIntError>) {
        if mem::size_of::<usize>() > mem::size_of::<u8>() && n > u8::MAX as usize {
            Err(TryFromIntError::Overflow)
        } else {
            Ok(n as u8)
        }
    }
}

impl TryFrom<u32> for u16 {
    type Err = TryFromIntError;

    open spec fn outcome(n: u32) -> Result<u16, TryFromIntError> {
        checked_u16(n as int)
    }

    fn try_from(n: u32) -> (r: Result<u16, TryFromIntError>) {
        if mem::size_of::<u32>() > mem::size_of::<u16>() && n > u16::MAX as u32 {
            Err(TryFromIntError::Overflow)
        } else {
            Ok(n as u16)
        }
    }
}

impl TryFrom<u64> for u16 {
    type Err = TryFromIntError;

    open spec fn outcome(n: u64) -> Result<u16, TryFromIntError> {
        checked_u16(n as int)
    }

    fn try_from(n: u64) -> (r: Result<u16, TryFromIntError>) {
        if mem::size_of::<u64>() > mem::size_of::<u16>() && n > u16::MAX as u64 {
            Err(TryFromIntError::Overflow)
        } else {
            Ok(n as u16)
        }
    }
}

impl TryFrom<usize> for u16 {
    type Err = TryFromIntError;

    open spec fn outcome(n: usize) -> Result<u16, TryFromIntError> {
        checked_u16(n as int)
    }

    fn try_from(n: usize) -> (r: Result<u16, TryFromIntError>) {
        if mem::size_of::<usize>() > mem::size_of::<u16>() && n > u16::MAX as usize {
            Err(TryFromIntError::Overflow)
        } else {
            Ok(n as u16)
        }
    }
}

impl TryFrom<u64> for u32 {
    type Err = TryFromIntError;

    open spec fn outcome(n: u64) -> Result<u32, TryFromIntError> {
        checked_u32(n as int)
    }

    fn try_from(n: u64) -> (r: Result<u32, TryFromIntError>) {
        if mem::size_of::<u64>() > mem::size_of::<u32>() && n > u32::MAX as u64 {
            Err(TryFromIntError::Overflow)
        } else {
            Ok(n as u32)
        }
    }
}

impl TryFrom<usize> for u32 {
    type Err = TryFromIntError;

    open spec fn outcome(n: usize) -> Result<u32, TryFromIntError> {
        checked_u32(n as int)
    }

    fn try_from(n: usize) -> (r: Result<u32, TryFromIntError>) {
        if mem::size_of::<usize>() > mem::size_of::<u32>() && n > u32::MAX as usize {
            Err(TryFromIntError::Overflow)
        } else {
            Ok(n as u32)
        }
    }
}

impl TryFrom<u64> for usize {
    type Err = TryFromIntError;

    open spec fn outcome(n: u64) -> Result<usize, TryFromIntError> {
        checked_usize(n as int)
    }

    fn try_from(n: u64) -> (r: Result<usize, TryFromIntError>) {
        if mem::size_of::<u64>() > mem::size_of::<usize>() && n > usize::MAX as u64 {
            Err(TryFromIntError::Overflow)
        } else {
            Ok(n as usize)
        }
    }
}

} // verus!
