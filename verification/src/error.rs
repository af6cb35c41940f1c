//! The library's error type.
use vstd::prelude::*;

verus! {

/// The decoding error that `String::from_utf16` reports.
#[verifier::external_type_specification]
#[verifier::external_body]
pub struct ExFromUtf16Error(std::string::FromUtf16Error);

/// What an operation of the library can fail with.
#[derive(Debug)]
pub enum Error {
    Unknown,
    Generic(String),
    MissingValue,
    NotFound,
    DataMismatch,
    InitializationError,
    ConversionError,
    ForeignFunctionError,
    /// A UTF-16 name from the trace is not valid UTF-16.
    Utf16Error(std::string::FromUtf16Error),
    /// A trace path holds a NUL character, which the native path cannot carry.
    Null,
}

impl Default for Error {
    fn default() -> (e: Error)
        ensures
            e is Unknown,
    {
        Error::Unknown
    }
}

} // verus!
