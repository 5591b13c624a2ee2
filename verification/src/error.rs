//! The error type of the configuration layer.

use vstd::prelude::*;
use vstd::string::StringExecFns;

use crate::decimal::{decimal_seq, i32_to_decimal, signed_decimal_seq, u64_to_decimal};

verus! {

/// An error raised by the configuration layer.
///
/// Exactly two conditions exist: an override that would violate the
/// extended-dimension invariant, and an integer code that decodes to no
/// variant of an enumerated tag type. Everything else in this crate is total
/// and cannot fail.
#[derive(Debug, Clone, PartialEq, Eq)]
pub enum Error {
    /// The requested `extended_dimension` is not a multiple of 16, or is
    /// smaller than the declared dimension.
    InvalidExtendedDimension { extended_dimension: usize },
    /// The integer code matches no variant of the enumerated type it was
    /// decoded into.
    UnrecognizedCode { code: i32 },
}

impl Error {
    /// The message text, as a sequence of characters.
    pub open spec fn spec_message(self) -> Seq<char> {
        match self {
            Error::InvalidExtendedDimension { extended_dimension } => "Invalid extended_dimension: "@
                + decimal_seq(extended_dimension as nat)
                + ", must be a multiple of 16 greater or equal to dimension"@,
            Error::UnrecognizedCode { code } => "Unrecognized code: "@
                + signed_decimal_seq(code as int) + ", no variant of the type carries this value"@,
        }
    }

    /// A descriptive message naming the rejected value and restating the
    /// violated constraint.
    pub fn message(&self) -> (s: String)
        ensures
            s@ == self.spec_message(),
    {
        match self {
            Error::InvalidExtendedDimension { extended_dimension } => {
                let value: usize = *extended_dimension;
                let s = String::from_str("Invalid extended_dimension: ");
                let s = s.concat(u64_to_decimal(value as u64).as_str());
                let s = s.concat(", must be a multiple of 16 greater or equal to dimension");
                s
            },
            Error::UnrecognizedCode { code } => {
                let value: i32 = *code;
                let s = String::from_str("Unrecognized code: ");
                let s = s.concat(i32_to_decimal(value).as_str());
                let s = s.concat(", no variant of the type carries this value");
                s
            },
        }
    }
}

} // verus!
