//! The errors of a conversion.

use vstd::prelude::*;

verus! {

/// The error of a conversion that never fails: a type without values.
pub type Void = std::convert::Infallible;

/// Error which occurs when conversion from one integer type to another fails.
#[derive(Clone, Copy, Debug, PartialEq, Eq, Structural)]
pub enum TryFromIntError {
    /// The value is above the destination's maximum.
    Overflow,
    /// The value is below the destination's minimum.
    Underflow,
}

impl TryFromIntError {
    /// The text that describes each kind of failure.
    pub open spec fn description(self) -> Seq<char> {
        match self {
            TryFromIntError::Overflow => "integer overflow"@,
            TryFromIntError::Underflow => "integer underflow"@,
        }
    }

    /// Which bound was crossed.
    pub fn kind(&self) -> (k: TryFromIntError)
        ensures
            k == *self,
    {
        *self
    }

    /// A short description of the failure.
    pub fn as_str(self) -> (s: &'static str)
        ensures
            s@ == self.description(),
    {
        match self {
            TryFromIntError::Overflow => "integer overflow",
            TryFromIntError::Underflow => "integer underflow",
        }
    }
}

} // verus!
