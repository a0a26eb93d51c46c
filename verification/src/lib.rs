//! Connection-error reporting for a client that dials a remote daemon.
//!
//! The crate offers one outward-facing error type, [`error::ConnectError`],
//! which hides a closed set of internal failure causes behind a stable
//! surface: a one-line human-readable rendering and a source-message lookup.

pub mod error;
pub mod outside;
