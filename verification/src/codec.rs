//! The contract between a framer and the transform that turns messages into
//! bytes and back.

use crate::error::Error;
use vstd::prelude::*;

verus! {

/// A transform between application messages and their wire form, applied to one
/// message per call.
///
/// An implementation may keep state (a counter, a key), which is why both
/// operations take `&mut self`. The framers treat each operation as a function
/// of that state and its input; [`Codec::decoded`] and [`Codec::encoded`] name
/// those functions so that contracts can speak of them. Nothing is said about
/// the state an operation leaves behind.
///
/// The clauses on `decode` and `encode` are obligations on whoever implements
/// the trait. An implementation that has a model overrides the three
/// specification functions and lets [`Codec::obeys_codec_model`] be true; what
/// this crate proves of a message's contents then holds for it. One that
/// leaves them alone promises only to stay inside the buffer.
pub trait Codec {
    /// The message type that decoding produces.
    type DecodeMsg;

    /// The message type that encoding consumes.
    type EncodeMsg;

    /// Whether `decode` and `encode` answer to `decoded` and `encoded`.
    open spec fn obeys_codec_model() -> bool {
        false
    }

    /// What `decode` yields, in this state, for the bytes of one read.
    open spec fn decoded(&self, bytes: Seq<u8>) -> Result<Self::DecodeMsg, Error> {
        arbitrary()
    }

    /// What `encode` writes, in this state, for `msg` into a buffer of
    /// `capacity` bytes. For a message whose wire form fits, this is the wire
    /// form; what stands for one that does not fit is the implementation's
    /// choice.
    open spec fn encoded(&self, msg: Self::EncodeMsg, capacity: nat) -> Seq<u8> {
        arbitrary()
    }

    /// Decodes exactly the bytes received in a single read. A failure is
    /// handed to the framer's caller unchanged.
    fn decode(&mut self, buf: &[u8]) -> (r: Result<Self::DecodeMsg, Error>)
        ensures
            Self::obeys_codec_model() ==> r == old(self).decoded(buf@),
    ;

    /// Writes the wire form of `msg` at the start of `buf` and returns the
    /// number of bytes written, never more than `buf` holds. There is no way
    /// to report a failure: whatever goes wrong is dealt with inside.
    fn encode(&mut self, msg: Self::EncodeMsg, buf: &mut [u8]) -> (n: usize)
        ensures
            n <= old(buf)@.len(),
            final(buf)@.len() == old(buf)@.len(),
            Self::obeys_codec_model() ==> final(buf)@.subrange(0, n as int) == old(self).encoded(
                msg,
                old(buf)@.len(),
            ),
    ;
}

} // verus!
