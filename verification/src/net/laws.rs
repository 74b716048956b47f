//! What holds of every receive and every send, whichever framer makes it.
//!
//! Both framers are viewed as a [`FramerState`] and state their results
//! through [`FramerState::recv_outcome`] and [`send_outcome`], so each law
//! below is a law of both.

use super::{arrival, send_outcome, Arrival, FramerState, Policy};
use crate::codec::Codec;
use crate::error::{Error, ErrorKind};
use vstd::prelude::*;

verus! {

/// A message whose frame is not empty and shorter than the receiver's buffer,
/// written whole and read whole, is sent successfully and arrives as whatever
/// the receiver's codec makes of the frame: if the two codecs turn `msg` into
/// `echo`, `echo` is what the receiver gets.
pub proof fn lemma_loopback_round_trip<C: Codec>(
    sender: FramerState<C>,
    receiver: FramerState<C>,
    msg: C::EncodeMsg,
    echo: C::DecodeMsg,
    n: usize,
)
    requires
        n == sender.frame(msg).len(),
        0 < n < receiver.limit(),
        receiver.scratch.subrange(0, n as int) == sender.frame(msg),
        receiver.codec.decoded(sender.frame(msg)) == Ok::<C::DecodeMsg, Error>(echo),
    ensures
        send_outcome(n, sender.policy, Ok(n)) == Ok::<(), Error>(()),
        receiver.recv_outcome(Ok(n)) == Some(Ok::<C::DecodeMsg, Error>(echo)),
{
}

/// A transfer of zero bytes, in either direction and under either policy, is
/// reported as the peer having gone away, and as nothing else.
pub proof fn lemma_zero_length_transfer_aborts<C: Codec>(framer: FramerState<C>, staged: usize)
    ensures
        framer.recv_outcome(Ok(0)) == Some(Err::<C::DecodeMsg, Error>(Error::aborted())),
        send_outcome(staged, framer.policy, Ok(0)) == Err::<(), Error>(Error::aborted()),
        Error::aborted().kind == ErrorKind::ConnectionAborted,
{
}

/// A read that would block, or was interrupted, is no message and no error,
/// and it is the only kind of answer that is neither. Such an answer does not
/// reach the codec, so the framer that receives it stays exactly as it was.
pub proof fn lemma_transient_read_is_no_message<C: Codec>(
    framer: FramerState<C>,
    read: Result<usize, Error>,
)
    ensures
        framer.recv_outcome(read) is None <==> (read matches Err(e) && e.is_transient()),
        framer.recv_outcome(read) is None <==> arrival(read, framer.limit(), framer.policy)
            == Arrival::Nothing,
        framer.recv_outcome(read) is None ==> !framer.reaches_codec(read),
{
}

/// Under the strict policy a send succeeds exactly when the transport accepted
/// the whole of a non-empty frame in its one write.
pub proof fn lemma_strict_send_succeeds_iff_whole_frame_written(
    staged: usize,
    written: Result<usize, Error>,
)
    ensures
        send_outcome(staged, Policy::Strict, written) is Ok <==> (staged > 0 && written == Ok::<
            usize,
            Error,
        >(staged)),
{
}

/// Under either policy a send never succeeds unless the transport accepted at
/// least one byte, and a failed write is handed back as it came.
pub proof fn lemma_send_never_hides_a_failure(
    staged: usize,
    policy: Policy,
    written: Result<usize, Error>,
)
    ensures
        send_outcome(staged, policy, written) is Ok ==> (written matches Ok(n) && n > 0),
        written matches Err(e) ==> send_outcome(staged, policy, written) == Err::<(), Error>(e),
{
}

} // verus!
