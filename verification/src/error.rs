//! Failures of schema derivation and batch production.

use vstd::prelude::*;
use vstd::string::StringExecFns;

verus! {

/// Why a schema could not be derived or a batch could not be produced.
#[derive(Debug, Clone, Copy, PartialEq, Eq, Structural)]
pub enum Error {
    /// A header definition has a value kind with no columnar mapping.
    NoConversion,
    /// A record does not fit the header it is read against.
    Decode,
    /// A column would exceed the 32-bit offsets of the columnar format.
    Overflow,
    /// A list column declared without nulls holds a null item.
    NullValue,
}

impl Error {
    /// The text shown to a user for this failure.
    pub fn message(&self) -> (text: String)
        ensures
            text@ == match *self {
                Error::NoConversion => "Conversion of arrow type in noodles type isn't supported."@,
                Error::Decode => "Record doesn't match the header."@,
                Error::Overflow => "Column is too large for 32-bit offsets."@,
                Error::NullValue => "Column declared without nulls holds a null item."@,
            },
    {
        match self {
            Error::NoConversion => String::from_str(
                "Conversion of arrow type in noodles type isn't supported.",
            ),
            Error::Decode => String::from_str("Record doesn't match the header."),
            Error::Overflow => String::from_str("Column is too large for 32-bit offsets."),
            Error::NullValue => String::from_str(
                "Column declared without nulls holds a null item.",
            ),
        }
    }
}

} // verus!
