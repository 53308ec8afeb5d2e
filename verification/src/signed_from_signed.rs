//! Signed from wider signed.
//!
//! Both bounds can be crossed, and both are compared in the source type. At
//! equal width nothing is compared: every value fits.

use std::mem;
use vstd::prelude::*;
use crate::convert::TryFrom;
use crate::error::TryFromIntError;
use crate::range::{checked_i8, checked_i16, checked_i32, checked_isize};

verus! {

impl TryFrom<i16> for i8 {
    type Err = TryFromIntError;

    open spec fn outcome(n: i16) -> Result<i8, TryFromIntError> {
        checked_i8(n as int)
    }

    fn try_from(n: i16) -> (r: Result<i8, TryFromIntError>) {
        if mem::size_of::<i16>() > mem::size_of::<i8>() {
            if n > i8::MAX as i16 {
                return Err(TryFromIntError::Overflow);
            } else if n < i8::MIN as i16 {
                return Err(TryFromIntError::Underflow);
            }
        }
        Ok(n as i8)
    }
}

impl TryFrom<i32> for i8 {
    type Err = TryFromIntError;

    open spec fn outcome(n: i32) -> Result<i8, TryFromIntError> {
        checked_i8(n as int)
    }

    fn try_from(n: i32) -> (r: Result<i8, TryFromIntError>) {
        if mem::size_of::<i32>() > mem::size_of::<i8>() {
            if n > i8::MAX as i32 {
                return Err(TryFromIntError::Overflow);
            } else if n < i8::MIN as i32 {
                return Err(TryFromIntError::Underflow);
            }
        }
        Ok(n as i8)
    }
}

impl TryFrom<i64> for i8 {
    type Err = TryFromIntError;

    open spec fn outcome(n: i64) -> Result<i8, TryFromIntError> {
        checked_i8(n as int)
    }

    fn try_from(n: i64) -> (r: Result<i8, TryFromIntError>) {
        if mem::size_of::<i64>() > mem::size_of::<i8>() {
            if n > i8::MAX as i64 {
                return Err(TryFromIntError::Overflow);
            } else if n < i8::MIN as i64 {
                return Err(TryFromIntError::Underflow);
            }
        }
        Ok(n as i8)
    }
}

impl TryFrom<isize> for i8 {
    type Err = TryFromIntError;

    open spec fn outcome(n: isize) -> Result<i8, TryFromIntError> {
        checked_i8(n as int)
    }

    fn try_from(n: isize) -> (r: Result<i8, TryFromIntError>) {
        if mem::size_of::<isize>() > mem::size_of::<i8>() {
            if n > i8::MAX as isize {
                return Err(TryFromIntError::Overflow);
            } else if n < i8::MIN as isize {
                return Err(TryFromIntError::Underflow);
            }
        }
        Ok(n as i8)
    }
}

impl TryFrom<i32> for i16 {
    type Err = TryFromIntError;

    open spec fn outcome(n: i32) -> Result<i16, TryFromIntError> {
        checked_i16(n as int)
    }

    fn try_from(n: i32) -> (r: Result<i16, TryFromIntError>) {
        if mem::size_of::<i32>() > mem::size_of::<i16>() {
            if n > i16::MAX as i32 {
                return Err(TryFromIntError::Overflow);
            } else if n < i16::MIN as i32 {
                return Err(TryFromIntError::Underflow);
            }
        }
        Ok(n as i16)
    }
}

impl TryFrom<i64> for i16 {
    type Err = TryFromIntError;

    open spec fn outcome(n: i64) -> Result<i16, TryFromIntError> {
        checked_i16(n as int)
    }

    fn try_from(n: i64) -> (r: Result<i16, TryFromIntError>) {
        if mem::size_of::<i64>() > mem::size_of::<i16>() {
            if n > i16::MAX as i64 {
                return Err(TryFromIntError::Overflow);
            } else if n < i16::MIN as i64 {
                return Err(TryFromIntError::Underflow);
            }
        }
        Ok(n as i16)
    }
}

impl TryFrom<isize> for i16 {
    type Err = TryFromIntError;

    open spec fn outcome(n: isize) -> Result<i16, TryFromIntError> {
        checked_i16(n as int)
    }

    fn try_from(n: isize) -> (r: Result<i16, TryFromIntError>) {
        if mem::size_of::<isize>() > mem::size_of::<i16>() {
            if n > i16::MAX as isize {
                return Err(TryFromIntError::Overflow);
            } else if n < i16::MIN as isize {
                return Err(TryFromIntError::Underflow);
            }
        }
        Ok(n as i16)
    }
}

impl TryFrom<i64> for i32 {
    type Err = TryFromIntError;

    open spec fn outcome(n: i64) -> Result<i32, TryFromIntError> {
        checked_i32(n as int)
    }

    fn try_from(n: i64) -> (r: Result<i32, TryFromIntError>) {
        if mem::size_of::<i64>() > mem::size_of::<i32>() {
            if n > i32::MAX as i64 {
                return Err(TryFromIntError::Overflow);
            } else if n < i32::MIN as i64 {
                return Err(TryFromIntError::Underflow);
            }
        }
        Ok(n as i32)
    }
}

impl TryFrom<isize> for i32 {
    type Err = TryFromIntError;

    open spec fn outcome(n: isize) -> Result<i32, TryFromIntError> {
        checked_i32(n as int)
    }

    fn try_from(n: isize) -> (r: Result<i32, TryFromIntError>) {
        if mem::size_of::<isize>() > mem::size_of::<i32>() {
            if n > i32::MAX as isize {
                return Err(TryFromIntError::Overflow);
            } else if n < i32::MIN as isize {
                return Err(TryFromIntError::Underflow);
            }
        }
        Ok(n as i32)
    }
}

impl TryFrom<i64> for isize {
    type Err = TryFromIntError;

    open spec fn outcome(n: i64) -> Result<isize, TryFromIntError> {
        checked_isize(n as int)
    }

    fn try_from(n: i64) -> (r: Result<isize, TryFromIntError>) {
        if mem::size_of::<i64>() > mem::size_of::<isize>() {
            if n > isize::MAX as i64 {
                return Err(TryFromIntError::Overflow);
            } else if n < isize::MIN as i64 {
                return Err(TryFromIntError::Underflow);
            }
        }
        Ok(n as isize)
    }
}

} // verus!
