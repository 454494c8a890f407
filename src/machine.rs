//! What the transitions of a connection's state machine hand back to the loop
//! that drives it.

use vstd::prelude::*;

use crate::response::{Reply, Status};

verus! {

/// The largest body a buffered request may carry, and the largest chunk a
/// progressive one is delivered in.
pub const BODY_CAP: usize = 1024;

/// Seconds from header receipt until a request's deadline.
pub const DEADLINE_SECS: u64 = 10;

/// How the transport delivers a request body to the machine.
#[derive(Debug, Clone, Copy, PartialEq, Eq, Structural)]
pub enum RecvMode {
    /// Up to this many bytes, accumulated and delivered at once to
    /// `request_received`.
    Buffered(usize),
    /// Chunks of up to this many bytes, each delivered to `request_chunk`,
    /// followed by `request_end`.
    Progressive(usize),
}

/// The result of header receipt: the machine's first state, how the body is
/// to be delivered, and how long the request may take.
#[derive(Debug, Clone)]
pub struct Admission<S> {
    pub machine: S,
    pub mode: RecvMode,
    pub timeout_secs: u64,
}

/// The result of one transition after header receipt.
///
/// `next` is the following state, or `None` when this request is finished and
/// the connection may be released. `reply` is the complete response to write
/// to the client now, if any. `forward` is body data to relay to the
/// downstream target now, if any.
#[derive(Debug, Clone)]
pub struct Step<S> {
    pub next: Option<S>,
    pub reply: Option<Reply>,
    pub forward: Option<Vec<u8>>,
}

/// A response as the status and the bytes of its body.
pub open spec fn reply_view(r: Option<Reply>) -> Option<(Status, Seq<u8>)> {
    match r {
        Some(rep) => Some((rep.status, rep.body@)),
        None => None,
    }
}

/// Relayed data as its bytes.
pub open spec fn forward_view(f: Option<Vec<u8>>) -> Option<Seq<u8>> {
    match f {
        Some(v) => Some(v@),
        None => None,
    }
}

/// The events that drive a machine after header receipt.
#[derive(Debug, Clone, Copy, PartialEq, Eq, Structural)]
pub enum Event {
    /// The whole buffered body has arrived.
    Received,
    /// One chunk of a progressive body has arrived.
    Chunk,
    /// A progressive body has ended.
    End,
    /// The deadline has passed.
    Timeout,
    /// Something outside the connection signalled it.
    Wakeup,
}

} // verus!
