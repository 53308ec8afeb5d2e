//! The conversion trait.

use vstd::prelude::*;

verus! {

/// A conversion from `T` that may fail.
pub trait TryFrom<T>: Sized {
    /// The error of a failed conversion.
    type Err;

    /// The outcome that `try_from` owes for `n`.
    spec fn outcome(n: T) -> Result<Self, Self::Err>;

    /// Converts `n`, or says why it has no counterpart in `Self`.
    fn try_from(n: T) -> (r: Result<Self, Self::Err>)
        ensures
            r == Self::outcome(n),
    ;
}

} // verus!
