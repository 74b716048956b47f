//! The framer for a datagram socket.

use super::{receive, send_outcome, settle};
use super::{FramerState, Policy, SocketOptions, MTU_DEFAULT};
use crate::codec::Codec;
use crate::error::Error;
use vstd::prelude::*;

verus! {

/// Frames messages over a non-blocking datagram socket, one message per
/// datagram.
///
/// The framer owns a scratch buffer of fixed capacity and a codec. It performs
/// no I/O: to receive, the caller lets its socket fill
/// [`FramedUdp::recv_buffer`] and passes what the call returned to
/// [`FramedUdp::try_recv`]; to send, it hands the socket the frame that
/// [`FramedUdp::encode`] staged and passes what the call returned to
/// [`FramedUdp::send`]. The socket keeps message boundaries by itself; a
/// datagram that fills the buffer may still have been cut short, and the
/// [`Policy`] decides what happens then.
pub struct FramedUdp<C> {
    buf: Vec<u8>,
    codec: C,
    policy: Policy,
}

impl<C> View for FramedUdp<C> {
    type V = FramerState<C>;

    closed spec fn view(&self) -> FramerState<C> {
        FramerState { codec: self.codec, scratch: self.buf@, policy: self.policy }
    }
}

impl<C> FramedUdp<C> {
    /// A strict framer with the default capacity.
    pub fn new(codec: C) -> (framer: Self)
        ensures
            framer@ == (FramerState {
                codec,
                scratch: Seq::new(MTU_DEFAULT as nat, |i: int| 0u8),
                policy: Policy::Strict,
            }),
    {
        Self::with_limit(codec, MTU_DEFAULT)
    }

    /// A strict framer whose scratch buffer holds `limit` bytes.
    pub fn with_limit(codec: C, limit: usize) -> (framer: Self)
        ensures
            framer@ == (FramerState {
                codec,
                scratch: Seq::new(limit as nat, |i: int| 0u8),
                policy: Policy::Strict,
            }),
    {
        let buf: Vec<u8> = vec![0u8; limit];
        assert(buf@ =~= Seq::new(limit as nat, |i: int| 0u8));
        FramedUdp { buf, codec, policy: Policy::Strict }
    }

    /// The same framer under another policy.
    pub fn with_policy(self, policy: Policy) -> (framer: Self)
        ensures
            framer@ == (FramerState { policy, ..self@ }),
    {
        FramedUdp { buf: self.buf, codec: self.codec, policy }
    }

    /// What the socket must be set to before the framer is used: calls that
    /// never wait. A datagram leaves when it is sent, so there is no delay to
    /// switch off.
    pub fn socket_options() -> (options: SocketOptions)
        ensures
            options == (SocketOptions { nonblocking: true, nodelay: false }),
    {
        SocketOptions { nonblocking: true, nodelay: false }
    }

    /// The capacity of the scratch buffer: a message must be shorter than this
    /// to be received.
    pub fn capacity(&self) -> (limit: usize)
        ensures
            limit == self@.limit(),
    {
        self.buf.len()
    }

    /// The codec in its current state.
    pub fn codec(&self) -> (codec: &C)
        ensures
            *codec == self@.codec,
    {
        &self.codec
    }

    /// The policy on framing violations.
    pub fn policy(&self) -> (policy: Policy)
        ensures
            policy == self@.policy,
    {
        self.policy
    }

    /// The whole scratch buffer, for the caller's one receive call. What the
    /// caller leaves in it is what [`FramedUdp::try_recv`] decodes.
    pub fn recv_buffer(&mut self) -> (buf: &mut [u8])
        ensures
            buf@ == old(self)@.scratch,
            final(self)@ == (FramerState { scratch: final(buf)@, ..old(self)@ }),
    {
        self.buf.as_mut_slice()
    }
}

impl<C: Codec> FramedUdp<C> {
    /// Takes what one receive call into [`FramedUdp::recv_buffer`] returned and
    /// yields the message it delivered, if any.
    ///
    /// `None` means no datagram was waiting; nothing changes and the caller
    /// polls again later. An empty datagram is read as the peer having gone
    /// away, as an empty read is on a stream. Only a datagram that delivers a
    /// message reaches the codec, whose verdict is returned as it is.
    pub fn try_recv(&mut self, read: Result<usize, Error>) -> (r: Option<
        Result<C::DecodeMsg, Error>,
    >)
        ensures
            old(self)@.reaches_codec(read) ==> r is Some,
            C::obeys_codec_model() || !old(self)@.reaches_codec(read) ==> r == old(
                self,
            )@.recv_outcome(read),
            !old(self)@.reaches_codec(read) ==> *final(self) == *old(self),
            final(self)@.scratch == old(self)@.scratch,
            final(self)@.policy == old(self)@.policy,
    {
        receive(&mut self.codec, self.buf.as_slice(), self.policy, read)
    }

    /// Encodes `msg` into the scratch buffer and returns the frame to send as
    /// one datagram.
    pub fn encode(&mut self, msg: C::EncodeMsg) -> (frame: &[u8])
        ensures
            C::obeys_codec_model() ==> frame@ == old(self)@.frame(msg),
            frame@.len() <= old(self)@.limit(),
            final(self)@.scratch.subrange(0, frame@.len() as int) == frame@,
            final(self)@.limit() == old(self)@.limit(),
            final(self)@.policy == old(self)@.policy,
    {
        let n: usize = self.codec.encode(msg, self.buf.as_mut_slice());
        vstd::slice::slice_subrange(self.buf.as_slice(), 0, n)
    }

    /// Takes the length of the staged frame and what the one send call
    /// returned, and says whether the message was sent.
    ///
    /// Zero bytes sent is read as the peer having gone away. Every failure of
    /// the call, a full send buffer included, is the caller's to handle.
    pub fn send(&self, staged: usize, written: Result<usize, Error>) -> (r: Result<(), Error>)
        ensures
            r == send_outcome(staged, self@.policy, written),
    {
        settle(staged, self.policy, written)
    }
}

} // verus!
