//! One system call, one message: a framing layer for transports that never
//! split or merge messages.
//!
//! The crate holds the decisions of that layer and none of its I/O. A framer
//! owns a scratch buffer and a [`codec::Codec`]; the caller performs each read
//! or write on its own socket and hands the framer what the call returned.

pub mod codec;
pub mod error;
pub mod net;
