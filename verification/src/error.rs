//! The single error channel shared by transport failures, decode failures and
//! framing violations.

use vstd::prelude::*;

verus! {

/// What went wrong, in the vocabulary of socket I/O plus the two framing
/// violations this crate detects itself.
#[derive(Clone, Copy, Debug, PartialEq, Eq, Structural)]
pub enum ErrorKind {
    PermissionDenied,
    ConnectionRefused,
    ConnectionReset,
    HostUnreachable,
    NetworkUnreachable,
    /// The peer ended the session. A zero-length transfer is reported as this
    /// kind.
    ConnectionAborted,
    NotConnected,
    AddrInUse,
    AddrNotAvailable,
    NetworkDown,
    BrokenPipe,
    /// The transport had nothing to read, or no room to write, right now.
    WouldBlock,
    InvalidInput,
    InvalidData,
    TimedOut,
    WriteZero,
    /// The system call was interrupted before it transferred anything.
    Interrupted,
    Unsupported,
    UnexpectedEof,
    OutOfMemory,
    /// A read filled the scratch buffer, so the message may have been cut or
    /// merged with the next one.
    FrameTooLarge,
    /// The transport accepted a different number of bytes than the frame has.
    PartialWrite,
    Other,
}

/// An error as the framers report it: a kind, and the operating system's code
/// where the transport supplied one.
#[derive(Clone, Copy, Debug, PartialEq, Eq, Structural)]
pub struct Error {
    pub kind: ErrorKind,
    pub code: Option<i32>,
}

impl Error {
    /// The error of the given kind that carries no system code.
    pub open spec fn of_kind(kind: ErrorKind) -> Error {
        Error { kind, code: None }
    }

    /// The error reported for a zero-length transfer.
    pub open spec fn aborted() -> Error {
        Error::of_kind(ErrorKind::ConnectionAborted)
    }

    /// True for the two kinds that mean "try again later" rather than failure.
    pub open spec fn is_transient(self) -> bool {
        self.kind == ErrorKind::WouldBlock || self.kind == ErrorKind::Interrupted
    }

    /// An error of the given kind, with the system's code if there is one.
    pub fn new(kind: ErrorKind, code: Option<i32>) -> (e: Error)
        ensures
            e == (Error { kind, code }),
    {
        Error { kind, code }
    }

    /// The kind, by which callers tell errors apart.
    pub fn kind(&self) -> (k: ErrorKind)
        ensures
            k == self.kind,
    {
        self.kind
    }

    /// The operating system's code, if the error came with one.
    pub fn raw_os_error(&self) -> (c: Option<i32>)
        ensures
            c == self.code,
    {
        self.code
    }
}

impl From<ErrorKind> for Error {
    /// The error of the given kind that carries no system code.
    fn from(kind: ErrorKind) -> (e: Error) {
        Error { kind, code: None }
    }
}

impl vstd::std_specs::convert::FromSpecImpl<ErrorKind> for Error {
    open spec fn obeys_from_spec() -> bool {
        true
    }

    open spec fn from_spec(kind: ErrorKind) -> Error {
        Error::of_kind(kind)
    }
}

} // verus!
