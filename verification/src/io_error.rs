//! The operating system's I/O error, carried through but never looked into.

use vstd::prelude::*;

verus! {

/// Declares `std::io::Error` as a type of which nothing is known but that
/// it exists: a value of it is carried along, never looked into.
#[verifier::external_type_specification]
#[verifier::external_body]
pub struct ExIoError(std::io::Error);

/// Writes out an I/O error with its `Display` impl (`ToString::to_string`).
/// The wording is the operating system's: nothing is promised of it.
#[verifier::external_body]
pub(crate) fn io_error_text(e: &std::io::Error) -> (r: String) {
    e.to_string()
}

} // verus!
