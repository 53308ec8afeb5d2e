//! Checked conversions between machine integers.
//!
//! A conversion succeeds exactly when the source value lies within the range
//! of the destination type, and then it keeps the mathematical value. When it
//! does not, the error says which bound was crossed.
//!
//! The conversions are impls of [`TryFrom`], one for each ordered pair of
//! integer types, grouped by the signedness of the two types.

pub mod convert;
pub mod error;
pub mod infallible;
pub mod range;
pub mod signed_from_signed;
pub mod signed_from_unsigned;
pub mod unsigned_from_signed;
pub mod unsigned_from_unsigned;

pub use convert::TryFrom;
pub use error::TryFromIntError;
pub use error::Void;
