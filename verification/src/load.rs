//! The error taxonomy of loading a model file: an I/O failure is kept
//! distinguishable from malformed file content. The loading itself is done
//! by the surrounding application; the core only consumes the result.

use vstd::prelude::*;

verus! {

/// Declares std::io::Error, so that a read failure can carry the operating
/// system's error through the core untouched.
#[verifier::external_type_specification]
#[verifier::external_body]
pub struct ExIoError(std::io::Error);

/// Why a model file could not be loaded.
#[derive(Debug)]
pub enum LoadError<T> {
    /// The file could not be read.
    FailedToRead(std::io::Error),
    /// The file's content did not parse as a model.
    InvalidFile(T),
}

} // verus!
