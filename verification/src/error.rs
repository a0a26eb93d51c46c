//! The opaque connect error and its internal cause taxonomy.
//!
//! Connection setup can fail at several independent stages: reading a
//! certificate file, parsing the certificate, validating the target address,
//! and the transport handshake itself. Each stage reports its own underlying
//! error. This module captures every such failure in one internal cause
//! variant and wraps it in the single outward-facing type [`ConnectError`],
//! which exposes only a one-line rendering and the underlying error's
//! message, never the active variant.
//!
//! The taxonomy is six kinds: transport/handshake failure, combined connect
//! failure, file read failure, certificate parse failure, invalid address,
//! and unclassified. The combined connect failure coexists with the invalid
//! address and transport causes: it is for the case where the transport
//! stage reports address resolution and dial as one failure.

use vstd::prelude::*;

verus! {

/// Ghost model of an internal cause: which stage of connection setup failed,
/// the context captured at that stage (file path or address), and the
/// rendered message of the underlying error.
pub enum Cause {
    /// The transport/handshake stage failed; `text` is the transport error's
    /// own rendering, which is already descriptive.
    Transport { text: Seq<char> },
    /// Address resolution and transport dial were reported as one combined
    /// failure against `address`.
    Connect { address: Seq<char>, message: Seq<char> },
    /// Reading the file at `file` failed with an I/O error.
    ReadFile { file: Seq<char>, message: Seq<char> },
    /// The certificate read from `file` could not be parsed.
    ParseCert { file: Seq<char>, message: Seq<char> },
    /// `address` is not a valid target address.
    InvalidAddress { address: Seq<char>, message: Seq<char> },
    /// A failure outside the recognized stages.
    Other { message: Seq<char> },
}

/// The one-line human-readable rendering of a cause.
pub open spec fn display_of(c: Cause) -> Seq<char> {
    match c {
        Cause::Transport { text } => text,
        Cause::Connect { address, message } => "failed to connect to "@ + address + " "@
            + message,
        Cause::ReadFile { file, message: _ } => "failed to read file "@ + file,
        Cause::ParseCert { file, message: _ } => "failed to parse certificate "@ + file,
        Cause::InvalidAddress { address, message: _ } => "invalid address "@ + address,
        Cause::Other { message } => "unknown error: "@ + message,
    }
}

/// The message of the underlying error owned by a cause: what a walk of the
/// source chain reaches.
pub open spec fn source_of(c: Cause) -> Seq<char> {
    match c {
        Cause::Transport { text } => text,
        Cause::Connect { address: _, message } => message,
        Cause::ReadFile { file: _, message } => message,
        Cause::ParseCert { file: _, message } => message,
        Cause::InvalidAddress { address: _, message } => message,
        Cause::Other { message } => message,
    }
}

/// Error that could happen while connecting to the remote daemon.
///
/// The type is opaque: it wraps exactly one internal cause, fixed at
/// construction, and no method tells callers which variant is active. They
/// get the one-line rendering ([`Self::display_text`]) and the underlying
/// error's message ([`Self::source_text`]), nothing more, so the internal
/// taxonomy can change without breaking them.
#[derive(Debug)]
pub struct ConnectError {
    internal: InternalConnectError,
}

#[derive(Debug)]
enum InternalConnectError {
    Transport { text: String },
    Connect { address: String, message: String },
    ReadFile { file: String, message: String },
    ParseCert { file: String, message: String },
    InvalidAddress { address: String, message: String },
    Other { message: String },
}

impl ConnectError {
    /// The internal cause, visible only to specifications.
    pub closed spec fn cause(&self) -> Cause {
        match self.internal {
            InternalConnectError::Transport { text } => Cause::Transport { text: text@ },
            InternalConnectError::Connect { address, message } => Cause::Connect {
                address: address@,
                message: message@,
            },
            InternalConnectError::ReadFile { file, message } => Cause::ReadFile {
                file: file@,
                message: message@,
            },
            InternalConnectError::ParseCert { file, message } => Cause::ParseCert {
                file: file@,
                message: message@,
            },
            InternalConnectError::InvalidAddress { address, message } => Cause::InvalidAddress {
                address: address@,
                message: message@,
            },
            InternalConnectError::Other { message } => Cause::Other { message: message@ },
        }
    }

    /// Build a transport/handshake failure from the transport error's own
    /// rendered text.
    pub fn transport_failure(text: String) -> (r: ConnectError)
        ensures
            r.cause() == (Cause::Transport { text: text@ }),
    {
        ConnectError { internal: InternalConnectError::Transport { text } }
    }

    /// Build a transport/handshake failure directly from the transport
    /// library's own error type, rendering it with
    /// [`crate::outside::transport_error_text`]. Always selects the
    /// transport cause, never any other.
    pub fn from_transport(error: &tonic::transport::Error) -> (r: ConnectError)
        ensures
            r.cause() is Transport,
    {
        ConnectError::transport_failure(crate::outside::transport_error_text(error))
    }

    /// Build a file read failure for the path `file` directly from the I/O
    /// error that reading it produced, rendering the error with
    /// [`crate::outside::io_error_text`]. Always selects the file read
    /// cause, with `file` as its path.
    pub fn from_read_file(file: String, error: &std::io::Error) -> (r: ConnectError)
        ensures
            r.cause() is ReadFile,
            r.cause()->ReadFile_file == file@,
    {
        let message = crate::outside::io_error_text(error);
        ConnectError::read_file_failure(file, message)
    }

    /// Build a combined connect failure against `address`, whose underlying
    /// error rendered as `message`.
    pub fn connect_failure(address: String, message: String) -> (r: ConnectError)
        ensures
            r.cause() == (Cause::Connect { address: address@, message: message@ }),
    {
        ConnectError { internal: InternalConnectError::Connect { address, message } }
    }

    /// Build a file read failure for the path `file`, whose I/O error
    /// rendered as `message`.
    pub fn read_file_failure(file: String, message: String) -> (r: ConnectError)
        ensures
            r.cause() == (Cause::ReadFile { file: file@, message: message@ }),
    {
        ConnectError { internal: InternalConnectError::ReadFile { file, message } }
    }

    /// Build a certificate parse failure for the path `file`, whose
    /// underlying error rendered as `message`.
    pub fn certificate_parse_failure(file: String, message: String) -> (r: ConnectError)
        ensures
            r.cause() == (Cause::ParseCert { file: file@, message: message@ }),
    {
        ConnectError { internal: InternalConnectError::ParseCert { file, message } }
    }

    /// Build an invalid address failure for `address`, whose underlying
    /// error rendered as `message`.
    pub fn invalid_address_failure(address: String, message: String) -> (r: ConnectError)
        ensures
            r.cause() == (Cause::InvalidAddress { address: address@, message: message@ }),
    {
        ConnectError { internal: InternalConnectError::InvalidAddress { address, message } }
    }

    /// Build an unclassified failure, whose underlying error rendered as
    /// `message`.
    pub fn other_failure(message: String) -> (r: ConnectError)
        ensures
            r.cause() == (Cause::Other { message: message@ }),
    {
        ConnectError { internal: InternalConnectError::Other { message } }
    }

    /// The one-line human-readable rendering of this error, exactly as
    /// [`display_of`] states it for the active cause.
    pub fn display_text(&self) -> (r: String)
        ensures
            r@ == display_of(self.cause()),
    {
        match &self.internal {
            InternalConnectError::Transport { text } => text.clone(),
            InternalConnectError::Connect { address, message } => {
                let mut s = "failed to connect to ".to_owned();
                s.append(address.as_str());
                s.append(" ");
                s.append(message.as_str());
                s
            },
            InternalConnectError::ReadFile { file, message: _ } => {
                let mut s = "failed to read file ".to_owned();
                s.append(file.as_str());
                s
            },
            InternalConnectError::ParseCert { file, message: _ } => {
                let mut s = "failed to parse certificate ".to_owned();
                s.append(file.as_str());
                s
            },
            InternalConnectError::InvalidAddress { address, message: _ } => {
                let mut s = "invalid address ".to_owned();
                s.append(address.as_str());
                s
            },
            InternalConnectError::Other { message } => {
                let mut s = "unknown error: ".to_owned();
                s.append(message.as_str());
                s
            },
        }
    }

    /// The message of the underlying error owned by the active cause: the
    /// content that a walk of the source chain reaches.
    pub fn source_text(&self) -> (r: String)
        ensures
            r@ == source_of(self.cause()),
    {
        match &self.internal {
            InternalConnectError::Transport { text } => text.clone(),
            InternalConnectError::Connect { address: _, message } => message.clone(),
            InternalConnectError::ReadFile { file: _, message } => message.clone(),
            InternalConnectError::ParseCert { file: _, message } => message.clone(),
            InternalConnectError::InvalidAddress { address: _, message } => message.clone(),
            InternalConnectError::Other { message } => message.clone(),
        }
    }
}

/// Wrapping an underlying error and then looking the source up reproduces
/// that error's message: for every cause, the source message is exactly the
/// message the cause was built with.
pub proof fn lemma_source_round_trip(
    text: Seq<char>,
    address: Seq<char>,
    file: Seq<char>,
    message: Seq<char>,
)
    ensures
        source_of(Cause::Transport { text }) == text,
        source_of(Cause::Connect { address, message }) == message,
        source_of(Cause::ReadFile { file, message }) == message,
        source_of(Cause::ParseCert { file, message }) == message,
        source_of(Cause::InvalidAddress { address, message }) == message,
        source_of(Cause::Other { message }) == message,
{
}

} // verus!
