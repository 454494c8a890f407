//! The static responder: a greeting at `/`, the visit count at `/num`, an
//! echo of any other path that starts with `/`, and 404 for the rest.

use vstd::prelude::*;

use crate::context::{Counter, ServerContext};
use crate::machine::{reply_view, Admission, RecvMode, Step, BODY_CAP, DEADLINE_SECS};
use crate::response::{Reply, Status};
use crate::text::{
    bytes_equal, decimal, escaped, greeting_prefix, greeting_prefix_bytes, greeting_suffix,
    greeting_suffix_bytes, hello_world, hello_world_bytes, num_path, num_path_bytes,
    page_not_found, page_not_found_bytes, push_all, push_decimal, push_escaped, timed_out,
    timed_out_bytes, visited_prefix, visited_prefix_bytes, visited_suffix, visited_suffix_bytes,
};

verus! {

/// The responder's states: the page that the request asked for.
#[derive(Debug, Clone)]
pub enum Responder {
    Root,
    VisitCount,
    /// A greeting for this name, the path after its leading `/`.
    EchoName(Vec<u8>),
    NotFound,
}

impl Responder {
    /// Whether this is the page that `path` asks for.
    pub open spec fn serves(self, path: Seq<u8>) -> bool {
        if path == seq![47u8] {
            self is Root
        } else if path == num_path() {
            self is VisitCount
        } else if path.len() > 0 && path[0] == 47 {
            match self {
                Responder::EchoName(name) => name@ == path.drop_first(),
                _ => false,
            }
        } else {
            self is NotFound
        }
    }

    /// The status this page is answered with.
    pub open spec fn page_status(self) -> Status {
        match self {
            Responder::NotFound => Status::NotFound,
            _ => Status::Success,
        }
    }

    /// The body of this page when the counter reads `count`. Only the
    /// visit-count page depends on it; a name is echoed with its control
    /// bytes escaped.
    pub open spec fn page_body(self, count: nat) -> Seq<u8> {
        match self {
            Responder::Root => hello_world(),
            Responder::VisitCount => visited_prefix() + decimal(count) + visited_suffix(),
            Responder::EchoName(name) => greeting_prefix() + escaped(name@) + greeting_suffix(),
            Responder::NotFound => page_not_found(),
        }
    }

    /// The page that `path` asks for.
    pub fn for_path(path: &[u8]) -> (r: Responder)
        ensures
            r.serves(path@),
    {
        let num = num_path_bytes();
        if path.len() == 1 && path[0] == 47 {
            assert(path@ == seq![47u8]);
            Responder::Root
        } else if bytes_equal(path, num.as_slice()) {
            Responder::VisitCount
        } else if path.len() > 0 && path[0] == 47 {
            let mut name: Vec<u8> = Vec::new();
            push_all(&mut name, &path[1..path.len()]);
            assert(name@ == path@.drop_first());
            Responder::EchoName(name)
        } else {
            Responder::NotFound
        }
    }

    /// The complete response for this page when the counter reads `count`.
    pub fn reply(&self, count: usize) -> (r: Reply)
        ensures
            r.status == self.page_status(),
            r.body@ == self.page_body(count as nat),
    {
        match self {
            Responder::Root => Reply { status: Status::Success, body: hello_world_bytes() },
            Responder::VisitCount => {
                let mut body = visited_prefix_bytes();
                push_decimal(&mut body, count);
                let suffix = visited_suffix_bytes();
                push_all(&mut body, suffix.as_slice());
                Reply { status: Status::Success, body }
            },
            Responder::EchoName(name) => {
                let mut body = greeting_prefix_bytes();
                push_escaped(&mut body, name.as_slice());
                let suffix = greeting_suffix_bytes();
                push_all(&mut body, suffix.as_slice());
                Reply { status: Status::Success, body }
            },
            Responder::NotFound => Reply { status: Status::NotFound, body: page_not_found_bytes() },
        }
    }

    /// Counts a visit on `ctx` and picks the page for `path`. The body is
    /// buffered up to the cap, and the request has ten seconds.
    pub fn headers_received(ctx: &ServerContext, path: &[u8]) -> (r: Admission<Responder>)
        ensures
            r.machine.serves(path@),
            r.mode == RecvMode::Buffered(BODY_CAP),
            r.timeout_secs == DEADLINE_SECS,
    {
        ctx.increment();
        let machine = Responder::for_path(path);
        Admission { machine, mode: RecvMode::Buffered(BODY_CAP), timeout_secs: DEADLINE_SECS }
    }

    /// The whole body has arrived: the page is answered, with the count
    /// that `ctx` reads now, and the request is finished.
    pub fn request_received(self, data: &[u8], ctx: &ServerContext) -> (r: Step<Responder>)
        ensures
            r.next.is_none(),
            r.forward.is_none(),
            r.reply.is_some(),
            r.reply.unwrap().status == self.page_status(),
            exists|c: usize| r.reply.unwrap().body@ == self.page_body(c as nat),
    {
        let count = ctx.get();
        let reply = self.reply(count);
        Step { next: None, reply: Some(reply), forward: None }
    }

    /// A chunk arrives only under progressive delivery, which this machine
    /// never asks for: it is dropped and the state stays.
    pub fn request_chunk(self, chunk: &[u8]) -> (r: Step<Responder>)
        ensures
            r.next == Some(self),
            r.reply.is_none(),
            r.forward.is_none(),
    {
        Step { next: Some(self), reply: None, forward: None }
    }

    /// The end of a body delivered in chunks: answered as a whole body.
    pub fn request_end(self, ctx: &ServerContext) -> (r: Step<Responder>)
        ensures
            r.next.is_none(),
            r.forward.is_none(),
            r.reply.is_some(),
            r.reply.unwrap().status == self.page_status(),
            exists|c: usize| r.reply.unwrap().body@ == self.page_body(c as nat),
    {
        let count = ctx.get();
        let reply = self.reply(count);
        Step { next: None, reply: Some(reply), forward: None }
    }

    /// The deadline passed before the page was answered: 408, and the
    /// request ends.
    pub fn timeout(self) -> (r: Step<Responder>)
        ensures
            r.next.is_none(),
            r.forward.is_none(),
            reply_view(r.reply) == Some((Status::RequestTimeout, timed_out())),
    {
        let body = timed_out_bytes();
        Step { next: None, reply: Some(Reply { status: Status::RequestTimeout, body }), forward: None }
    }

    /// No page waits on anything outside the connection: the state stays.
    pub fn wakeup(self) -> (r: Step<Responder>)
        ensures
            r.next == Some(self),
            r.reply.is_none(),
            r.forward.is_none(),
    {
        Step { next: Some(self), reply: None, forward: None }
    }
}

} // verus!
