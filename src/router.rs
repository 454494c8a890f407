//! The router: a machine that forwards requests for one path to a downstream
//! target and answers every other path with 404.

use vstd::prelude::*;

use crate::context::{Counter, ServerContext};
use crate::machine::{forward_view, reply_view, Admission, Event, RecvMode, Step, BODY_CAP, DEADLINE_SECS};
use crate::response::{reply_with, send_string, Status};
use crate::text::{
    bytes_equal, downstream_path, downstream_path_bytes, downstream_reply, downstream_reply_bytes,
    push_all, route_not_found, route_not_found_bytes, timed_out, timed_out_bytes,
};

verus! {

/// A backend that a request is forwarded to.
#[derive(Debug, Clone, Copy, PartialEq, Eq, Structural)]
pub struct Downstream {}

/// The router's states for one request.
#[derive(Debug, Clone, Copy, PartialEq, Eq, Structural)]
pub enum Router {
    /// The body is being relayed to the target.
    ForwardingRequest(Downstream),
    /// The body has ended and the target's reply has been relayed back.
    ForwardingResponse(Downstream),
    /// No target serves the path; the body is read and dropped.
    NoRoute,
}

/// The target for a path, if any.
pub open spec fn route_for(path: Seq<u8>) -> Option<Downstream> {
    if path == downstream_path() {
        Some(Downstream {})
    } else {
        None
    }
}

/// The state a request for `path` starts in.
pub open spec fn route_state(path: Seq<u8>) -> Router {
    match route_for(path) {
        Some(d) => Router::ForwardingRequest(d),
        None => Router::NoRoute,
    }
}

/// Selects the downstream target for a path: only `/downstream` has one.
pub fn lookup_route(path: &[u8]) -> (r: Option<Downstream>)
    ensures
        r == route_for(path@),
{
    let target = downstream_path_bytes();
    if bytes_equal(path, target.as_slice()) {
        Some(Downstream {})
    } else {
        None
    }
}

/// Relays one chunk of a request body toward `downstream`: the bytes handed
/// back are the ones to send there.
pub fn stream_chunk(data: &[u8], downstream: &Downstream) -> (r: Vec<u8>)
    ensures
        r@ == data@,
{
    let mut out: Vec<u8> = Vec::new();
    push_all(&mut out, data);
    assert(out@ == data@);
    out
}

impl Router {
    /// Whether the response of this request has been written.
    pub open spec fn responded(self) -> bool {
        self is ForwardingResponse
    }

    /// The state after event `e`, or `None` when the request is finished.
    pub open spec fn next_on(self, e: Event) -> Option<Router> {
        match e {
            Event::Chunk | Event::Wakeup => if self.responded() {
                None
            } else {
                Some(self)
            },
            Event::Received | Event::End => match self {
                Router::ForwardingRequest(d) => Some(Router::ForwardingResponse(d)),
                _ => None,
            },
            Event::Timeout => None,
        }
    }

    /// The response written on event `e`, if any.
    pub open spec fn reply_on(self, e: Event) -> Option<(Status, Seq<u8>)> {
        match e {
            Event::Received | Event::End => match self {
                Router::ForwardingRequest(_) => Some((Status::Success, downstream_reply())),
                Router::NoRoute => Some((Status::NotFound, route_not_found())),
                Router::ForwardingResponse(_) => None,
            },
            Event::Timeout => if self.responded() {
                None
            } else {
                Some((Status::RequestTimeout, timed_out()))
            },
            _ => None,
        }
    }

    /// The data relayed downstream on event `e`, which carries `data`.
    pub open spec fn forward_on(self, e: Event, data: Seq<u8>) -> Option<Seq<u8>> {
        match e {
            Event::Received | Event::Chunk => match self {
                Router::ForwardingRequest(_) => Some(data),
                _ => None,
            },
            _ => None,
        }
    }

    /// Counts a visit on `ctx` and picks the state for `path`. Bodies come
    /// in capped chunks, and the request has ten seconds.
    pub fn headers_received(ctx: &ServerContext, path: &[u8]) -> (r: Admission<Router>)
        ensures
            r.machine == route_state(path@),
            r.mode == RecvMode::Progressive(BODY_CAP),
            r.timeout_secs == DEADLINE_SECS,
    {
        ctx.increment();
        let machine = match lookup_route(path) {
            Some(destination) => Router::ForwardingRequest(destination),
            None => Router::NoRoute,
        };
        Admission { machine, mode: RecvMode::Progressive(BODY_CAP), timeout_secs: DEADLINE_SECS }
    }

    /// A whole body delivered at once: relayed as one chunk, then ended.
    pub fn request_received(self, data: &[u8]) -> (r: Step<Router>)
        ensures
            r.next == self.next_on(Event::Received),
            reply_view(r.reply) == self.reply_on(Event::Received),
            forward_view(r.forward) == self.forward_on(Event::Received, data@),
    {
        let forward = match self {
            Router::ForwardingRequest(downstream) => Some(stream_chunk(data, &downstream)),
            _ => None,
        };
        let end = self.request_end();
        Step { next: end.next, reply: end.reply, forward }
    }

    /// One chunk of the body: relayed when forwarding, dropped otherwise.
    pub fn request_chunk(self, chunk: &[u8]) -> (r: Step<Router>)
        ensures
            r.next == self.next_on(Event::Chunk),
            reply_view(r.reply) == self.reply_on(Event::Chunk),
            forward_view(r.forward) == self.forward_on(Event::Chunk, chunk@),
    {
        match self {
            Router::ForwardingRequest(downstream) => {
                let data = stream_chunk(chunk, &downstream);
                Step { next: Some(self), reply: None, forward: Some(data) }
            },
            Router::NoRoute => Step { next: Some(self), reply: None, forward: None },
            Router::ForwardingResponse(_) => Step { next: None, reply: None, forward: None },
        }
    }

    /// The end of the body: the downstream reply is relayed back, or 404 is
    /// sent when there is no route.
    pub fn request_end(self) -> (r: Step<Router>)
        ensures
            r.next == self.next_on(Event::End),
            reply_view(r.reply) == self.reply_on(Event::End),
            r.forward.is_none(),
    {
        match self {
            Router::ForwardingRequest(downstream) => {
                let body = downstream_reply_bytes();
                let reply = send_string(body.as_slice());
                Step { next: Some(Router::ForwardingResponse(downstream)), reply: Some(reply), forward: None }
            },
            Router::NoRoute => {
                let body = route_not_found_bytes();
                let reply = reply_with(Status::NotFound, body.as_slice());
                Step { next: None, reply: Some(reply), forward: None }
            },
            Router::ForwardingResponse(_) => Step { next: None, reply: None, forward: None },
        }
    }

    /// The deadline passed: the request ends, with 408 unless its response
    /// was already written.
    pub fn timeout(self) -> (r: Step<Router>)
        ensures
            r.next.is_none(),
            reply_view(r.reply) == self.reply_on(Event::Timeout),
            r.reply.is_some() == !self.responded(),
            r.forward.is_none(),
    {
        if let Router::ForwardingResponse(_) = self {
            Step { next: None, reply: None, forward: None }
        } else {
            let body = timed_out_bytes();
            let reply = reply_with(Status::RequestTimeout, body.as_slice());
            Step { next: None, reply: Some(reply), forward: None }
        }
    }

    /// An outside signal: a request whose reply was relayed is finished; any
    /// other keeps waiting for its body.
    pub fn wakeup(self) -> (r: Step<Router>)
        ensures
            r.next == self.next_on(Event::Wakeup),
            r.reply.is_none(),
            r.forward.is_none(),
    {
        match self {
            Router::ForwardingResponse(_) => Step { next: None, reply: None, forward: None },
            _ => Step { next: Some(self), reply: None, forward: None },
        }
    }
}

/// A body delivered as `n` chunks.
pub open spec fn chunks(n: nat) -> Seq<Event> {
    Seq::new(n, |i: int| Event::Chunk)
}

/// The state after `events`, or `None` once the request has finished.
pub open spec fn run(s: Router, events: Seq<Event>) -> Option<Router>
    decreases events.len(),
{
    if events.len() == 0 {
        Some(s)
    } else {
        match s.next_on(events[0]) {
            Some(t) => run(t, events.drop_first()),
            None => None,
        }
    }
}

/// How many responses are written while `events` drive the machine from `s`;
/// events after the request has finished are not seen by it.
pub open spec fn reply_count(s: Router, events: Seq<Event>) -> nat
    decreases events.len(),
{
    if events.len() == 0 {
        0
    } else {
        let here: nat = if s.reply_on(events[0]) is Some {
            1
        } else {
            0
        };
        match s.next_on(events[0]) {
            Some(t) => here + reply_count(t, events.drop_first()),
            None => here,
        }
    }
}

proof fn lemma_responded_silent(s: Router, events: Seq<Event>)
    requires
        s.responded(),
    ensures
        reply_count(s, events) == 0,
{
}

proof fn lemma_chunks_keep_state(s: Router, n: nat, tail: Seq<Event>)
    requires
        !s.responded(),
    ensures
        run(s, chunks(n)) == Some(s),
        reply_count(s, chunks(n) + tail) == reply_count(s, tail),
    decreases n,
{
    if n > 0 {
        lemma_chunks_keep_state(s, (n - 1) as nat, tail);
        assert(chunks(n).drop_first() == chunks((n - 1) as nat));
        assert((chunks(n) + tail).drop_first() == chunks((n - 1) as nat) + tail);
        assert((chunks(n) + tail)[0] == Event::Chunk);
    }
}

/// Whatever its path, however many chunks its body arrives in, and whatever
/// events follow the end of its body, a request is answered exactly once:
/// chunks leave the state as it was and hold no body data in it, and the end
/// of the body writes the one response, the downstream reply for
/// `/downstream` and 404 for any other path.
pub proof fn lemma_one_reply_per_request(path: Seq<u8>, n: nat, rest: Seq<Event>)
    ensures
        run(route_state(path), chunks(n)) == Some(route_state(path)),
        reply_count(route_state(path), chunks(n) + seq![Event::End] + rest) == 1,
        route_state(path).reply_on(Event::End) == (if path == downstream_path() {
            Some((Status::Success, downstream_reply()))
        } else {
            Some((Status::NotFound, route_not_found()))
        }),
{
    let s = route_state(path);
    let tail = seq![Event::End] + rest;
    lemma_chunks_keep_state(s, n, tail);
    assert(chunks(n) + seq![Event::End] + rest == chunks(n) + tail);
    assert(tail[0] == Event::End);
    assert(tail.drop_first() == rest);
    if let Router::ForwardingRequest(d) = s {
        lemma_responded_silent(Router::ForwardingResponse(d), rest);
    }
}

/// A request for any path but `/downstream` relays none of its body and is
/// answered 404, whatever its method and however large its body.
pub proof fn lemma_unrouted_drops_body(path: Seq<u8>, data: Seq<u8>)
    requires
        path != downstream_path(),
    ensures
        route_state(path) == Router::NoRoute,
        route_state(path).forward_on(Event::Chunk, data).is_none(),
        route_state(path).next_on(Event::Chunk) == Some(Router::NoRoute),
        route_state(path).reply_on(Event::End) == Some((Status::NotFound, route_not_found())),
{
}

} // verus!
