//! Complete HTTP responses as plain values: a status and a body whose length
//! becomes the `Content-Length` header.

use vstd::prelude::*;

use crate::text::push_all;

verus! {

/// The statuses that the applications answer with.
#[derive(Debug, Clone, Copy, PartialEq, Eq, Structural)]
pub enum Status {
    Success,
    NotFound,
    RequestTimeout,
}

impl Status {
    /// The numeric code of this status.
    pub open spec fn spec_code(self) -> u16 {
        match self {
            Status::Success => 200,
            Status::NotFound => 404,
            Status::RequestTimeout => 408,
        }
    }

    /// The numeric status code.
    pub fn code(&self) -> (r: u16)
        ensures
            r == self.spec_code(),
    {
        match self {
            Status::Success => 200,
            Status::NotFound => 404,
            Status::RequestTimeout => 408,
        }
    }

    /// The reason phrase of this status.
    pub open spec fn spec_reason(self) -> Seq<char> {
        match self {
            Status::Success => "OK"@,
            Status::NotFound => "Not Found"@,
            Status::RequestTimeout => "Request Timeout"@,
        }
    }

    /// The reason phrase of the status line.
    pub fn reason(&self) -> (r: &'static str)
        ensures
            r@ == self.spec_reason(),
    {
        match self {
            Status::Success => "OK",
            Status::NotFound => "Not Found",
            Status::RequestTimeout => "Request Timeout",
        }
    }
}

/// A complete response: status line, an explicit length and the body.
#[derive(Debug, Clone)]
pub struct Reply {
    pub status: Status,
    pub body: Vec<u8>,
}

impl Reply {
    /// The value of the `Content-Length` header.
    pub fn content_length(&self) -> (r: u64)
        ensures
            r == self.body@.len(),
    {
        self.body.len() as u64
    }
}

/// A response with the given status whose body is `data`.
pub fn reply_with(status: Status, data: &[u8]) -> (r: Reply)
    ensures
        r.status == status,
        r.body@ == data@,
{
    let mut body: Vec<u8> = Vec::new();
    push_all(&mut body, data);
    assert(body@ == data@);
    Reply { status, body }
}

/// A `200 OK` response whose body is `data`.
pub fn send_string(data: &[u8]) -> (r: Reply)
    ensures
        r.status == Status::Success,
        r.body@ == data@,
{
    reply_with(Status::Success, data)
}

} // verus!
