//! Error taxonomy of a transfer run.
//!
//! Path errors and network errors abort the run they occur in; a protocol
//! violation is fatal for its one connection only; an I/O error aborts the
//! affected transfer. Nothing is retried: every failure is reported once and
//! the run returns to an idle state.

use vstd::prelude::*;

verus! {

/// Why a transfer run, or one connection of it, stopped early.
#[derive(Clone, Copy, PartialEq, Eq, Structural, Debug)]
pub enum TransferError {
    /// The source path to send does not exist.
    SourceMissing,
    /// The source path is a filesystem root and has no parent to serve as
    /// the transfer root.
    NoTransferRoot,
    /// A path to send is not valid UTF-8.
    InvalidPathEncoding,
    /// A relative path's UTF-8 encoding is longer than the two-byte length
    /// field of the wire format can carry.
    PathTooLong,
    /// The destination address did not resolve to any socket address.
    AddressResolution,
    /// Connecting to the destination failed or timed out.
    ConnectFailed,
    /// Binding the listening socket failed, e.g. the port is in use.
    BindFailed,
    /// Accepting a connection failed with an error other than would-block.
    AcceptFailed,
    /// The peer's byte stream ended in the middle of a frame.
    ProtocolViolation,
    /// Reading or writing a file or socket failed mid-transfer.
    Io,
}

/// The four classes of failure, which differ in how far they reach: a path
/// or network error aborts the current run; a protocol violation is fatal
/// for its one connection and leaves other connections alone; an I/O error
/// aborts the affected transfer.
#[derive(Clone, Copy, PartialEq, Eq, Structural, Debug)]
pub enum ErrorCategory {
    Path,
    Network,
    Protocol,
    Io,
}

impl TransferError {
    /// Which class this failure belongs to.
    pub fn category(&self) -> (c: ErrorCategory)
        ensures
            c is Path <==> (self is SourceMissing || self is NoTransferRoot
                || self is InvalidPathEncoding || self is PathTooLong),
            c is Network <==> (self is AddressResolution || self is ConnectFailed
                || self is BindFailed || self is AcceptFailed),
            c is Protocol <==> self is ProtocolViolation,
            c is Io <==> self is Io,
    {
        match self {
            TransferError::SourceMissing => ErrorCategory::Path,
            TransferError::NoTransferRoot => ErrorCategory::Path,
            TransferError::InvalidPathEncoding => ErrorCategory::Path,
            TransferError::PathTooLong => ErrorCategory::Path,
            TransferError::AddressResolution => ErrorCategory::Network,
            TransferError::ConnectFailed => ErrorCategory::Network,
            TransferError::BindFailed => ErrorCategory::Network,
            TransferError::AcceptFailed => ErrorCategory::Network,
            TransferError::ProtocolViolation => ErrorCategory::Protocol,
            TransferError::Io => ErrorCategory::Io,
        }
    }

    /// A short human-readable description, for the log line that reports the
    /// failure.
    pub fn message(&self) -> (r: &'static str)
        ensures
            r@.len() > 0,
    {
        proof {
            reveal_strlit("the source path does not exist");
            reveal_strlit("the source path has no parent directory");
            reveal_strlit("a path is not valid UTF-8");
            reveal_strlit("a relative path is longer than 65535 bytes");
            reveal_strlit("the address did not resolve");
            reveal_strlit("could not connect to the destination");
            reveal_strlit("could not bind the listening socket");
            reveal_strlit("could not accept a connection");
            reveal_strlit("the stream ended in the middle of a frame");
            reveal_strlit("an I/O operation failed");
        }
        match self {
            TransferError::SourceMissing => "the source path does not exist",
            TransferError::NoTransferRoot => "the source path has no parent directory",
            TransferError::InvalidPathEncoding => "a path is not valid UTF-8",
            TransferError::PathTooLong => "a relative path is longer than 65535 bytes",
            TransferError::AddressResolution => "the address did not resolve",
            TransferError::ConnectFailed => "could not connect to the destination",
            TransferError::BindFailed => "could not bind the listening socket",
            TransferError::AcceptFailed => "could not accept a connection",
            TransferError::ProtocolViolation => "the stream ended in the middle of a frame",
            TransferError::Io => "an I/O operation failed",
        }
    }
}

} // verus!
