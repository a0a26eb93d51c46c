//! Trusted declarations for the error types of the excluded collaborators.
//!
//! The transport stage and the file-reading stage report failures with their
//! own error types. The verified logic never looks inside those values; it
//! only needs each one's rendered text, which these wrappers produce.

use vstd::prelude::*;

verus! {

#[verifier::external_type_specification]
#[verifier::external_body]
pub struct ExTransportError(tonic::transport::Error);

/// Relies on the Debug rendering of `tonic::transport::Error`: one line that
/// names the error kind and, when present, the underlying source error.
#[verifier::external_body]
pub(crate) fn transport_error_text(error: &tonic::transport::Error) -> String {
    format!("{:?}", error)
}

#[verifier::external_type_specification]
#[verifier::external_body]
pub struct ExIoError(std::io::Error);

/// Relies on the Display rendering of `std::io::Error`: the message of the
/// wrapped custom error, or the system's description of the OS error.
#[verifier::external_body]
pub(crate) fn io_error_text(error: &std::io::Error) -> String {
    error.to_string()
}

} // verus!
