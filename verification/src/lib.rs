//! Handling Microsoft Time Travel Debugging traces: the decisions and conversions of the
//! replay API, over plain values that the native engine reports.
use vstd::prelude::*;

pub mod error;
pub mod replay;
pub mod text;
pub mod unpack;

pub use crate::error::Error;

verus! {

/// The result type of the library.
pub type Result<T> = core::result::Result<T, Error>;

} // verus!
