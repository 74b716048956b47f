//! Optimistic framing: every read carries exactly one message and every write
//! is accepted whole.
//!
//! This module holds what both framers share: the capacity default, the policy
//! on framing violations, and the reading of what a transport call returned.

pub mod laws;
pub mod tcp;
pub mod udp;

pub use tcp::FramedTcp;
pub use udp::FramedUdp;

use crate::codec::Codec;
use crate::error::{Error, ErrorKind};
use vstd::prelude::*;

verus! {

/// Capacity of the scratch buffer unless the caller picks another: large enough
/// for one frame on common links.
pub const MTU_DEFAULT: usize = 1600;

/// How a framer treats a transfer that breaks the one-call-one-message
/// assumption: a read that fills the scratch buffer, or a write that the
/// transport accepted only in part.
#[derive(Clone, Copy, Debug, PartialEq, Eq, Structural)]
pub enum Policy {
    /// Report the violation as an error.
    Strict,
    /// Trust the transport and carry on.
    Permissive,
}

/// The configuration a framer expects of the socket it is paired with.
#[derive(Clone, Copy, Debug, PartialEq, Eq, Structural)]
pub struct SocketOptions {
    /// Calls return at once instead of waiting for data or room.
    pub nonblocking: bool,
    /// Small writes leave at once instead of being gathered.
    pub nodelay: bool,
}

/// What one read attempt brought.
#[derive(Clone, Copy, Debug, PartialEq, Eq, Structural)]
pub enum Arrival {
    /// The transport had nothing to read; poll again later.
    Nothing,
    /// The read returned zero bytes: the peer is gone.
    Closed,
    /// One message lies in the first bytes of the scratch buffer.
    Frame(usize),
    /// The read left no spare room in the scratch buffer, so the message
    /// boundary cannot be trusted.
    Oversized,
    /// The transport failed.
    Failed(Error),
}

/// A framer as contracts see it: the codec in its current state, the contents
/// of the scratch buffer, and the policy. Both framers have this view.
pub struct FramerState<C> {
    /// The codec, as the last call left it.
    pub codec: C,
    /// Every byte of the scratch buffer; its length is the capacity.
    pub scratch: Seq<u8>,
    /// The policy on framing violations.
    pub policy: Policy,
}

/// Whether a read of `n` bytes into a buffer of `limit` bytes is taken as one
/// whole message. A read that fills the buffer is taken only on trust; one that
/// claims more than the buffer holds never is.
pub open spec fn within_limit(n: usize, limit: nat, policy: Policy) -> bool {
    n < limit || (n == limit && policy == Policy::Permissive)
}

/// The meaning of what a read into a buffer of `limit` bytes returned.
pub open spec fn arrival(read: Result<usize, Error>, limit: nat, policy: Policy) -> Arrival {
    match read {
        Ok(n) => if n == 0 {
            Arrival::Closed
        } else if within_limit(n, limit, policy) {
            Arrival::Frame(n)
        } else {
            Arrival::Oversized
        },
        Err(e) => if e.is_transient() {
            Arrival::Nothing
        } else {
            Arrival::Failed(e)
        },
    }
}

/// What a send attempt yields, given the length of the staged frame and what
/// the write returned. Unlike a read, a write that would block is a failure:
/// the message was not sent.
pub open spec fn send_outcome(staged: usize, policy: Policy, written: Result<usize, Error>) -> Result<
    (),
    Error,
> {
    match written {
        Ok(n) => if n == 0 {
            Err(Error::aborted())
        } else if n != staged && policy == Policy::Strict {
            Err(Error::of_kind(ErrorKind::PartialWrite))
        } else {
            Ok(())
        },
        Err(e) => Err(e),
    }
}

impl<C> FramerState<C> {
    /// The capacity of the scratch buffer, fixed when the framer is made.
    pub open spec fn limit(self) -> nat {
        self.scratch.len()
    }

    /// Whether what a read returned hands bytes to the codec.
    pub open spec fn reaches_codec(self, read: Result<usize, Error>) -> bool {
        arrival(read, self.limit(), self.policy) is Frame
    }
}

impl<C: Codec> FramerState<C> {
    /// The frame that encoding `msg` stages in the scratch buffer.
    pub open spec fn frame(self, msg: C::EncodeMsg) -> Seq<u8> {
        self.codec.encoded(msg, self.limit())
    }

    /// What a receive attempt yields, given the scratch buffer as the read
    /// left it and what the read returned.
    ///
    /// `None` means no message this tick. Where a message arrived, the codec's
    /// verdict on its bytes is final.
    pub open spec fn recv_outcome(self, read: Result<usize, Error>) -> Option<
        Result<C::DecodeMsg, Error>,
    > {
        match arrival(read, self.limit(), self.policy) {
            Arrival::Nothing => None,
            Arrival::Closed => Some(Err(Error::aborted())),
            Arrival::Frame(n) => Some(self.codec.decoded(self.scratch.subrange(0, n as int))),
            Arrival::Oversized => Some(Err(Error::of_kind(ErrorKind::FrameTooLarge))),
            Arrival::Failed(e) => Some(Err(e)),
        }
    }
}

/// Reads the answer of one read into a buffer of `limit` bytes.
pub fn classify_read(read: Result<usize, Error>, limit: usize, policy: Policy) -> (a: Arrival)
    ensures
        a == arrival(read, limit as nat, policy),
{
    match read {
        Ok(n) => {
            let trusted: bool = match policy {
                Policy::Strict => false,
                Policy::Permissive => n == limit,
            };
            if n == 0 {
                Arrival::Closed
            } else if n < limit || trusted {
                Arrival::Frame(n)
            } else {
                Arrival::Oversized
            }
        },
        Err(e) => match e.kind {
            ErrorKind::WouldBlock | ErrorKind::Interrupted => Arrival::Nothing,
            _ => Arrival::Failed(e),
        },
    }
}

/// Turns the answer of one read into the message it delivered, or says why
/// there is none. The codec is consulted, and may change, only when a message
/// arrived.
pub fn receive<C: Codec>(
    codec: &mut C,
    scratch: &[u8],
    policy: Policy,
    read: Result<usize, Error>,
) -> (r: Option<Result<C::DecodeMsg, Error>>)
    ensures
        ({
            let state = FramerState { codec: *old(codec), scratch: scratch@, policy };
            &&& state.reaches_codec(read) ==> r is Some
            &&& C::obeys_codec_model() || !state.reaches_codec(read) ==> r == state.recv_outcome(
                read,
            )
            &&& !state.reaches_codec(read) ==> *final(codec) == *old(codec)
        }),
{
    match classify_read(read, scratch.len(), policy) {
        Arrival::Nothing => None,
        Arrival::Closed => Some(Err(Error::new(ErrorKind::ConnectionAborted, None))),
        Arrival::Frame(n) => Some(codec.decode(vstd::slice::slice_subrange(scratch, 0, n))),
        Arrival::Oversized => Some(Err(Error::new(ErrorKind::FrameTooLarge, None))),
        Arrival::Failed(e) => Some(Err(e)),
    }
}

/// Reads the answer of the one write made for a frame of `staged` bytes.
pub fn settle(staged: usize, policy: Policy, written: Result<usize, Error>) -> (r: Result<
    (),
    Error,
>)
    ensures
        r == send_outcome(staged, policy, written),
{
    match written {
        Ok(n) => {
            let tolerated: bool = match policy {
                Policy::Strict => n == staged,
                Policy::Permissive => true,
            };
            if n == 0 {
                Err(Error::new(ErrorKind::ConnectionAborted, None))
            } else if tolerated {
                Ok(())
            } else {
                Err(Error::new(ErrorKind::PartialWrite, None))
            }
        },
        Err(e) => Err(e),
    }
}

} // verus!
