//! From the bytes of one request to the bytes of its answer.
//!
//! The wire carries no mark that tells the two kinds of request apart. The
//! bytes are tried against the schema of the addition request first, and
//! against that of the echo message only if that fails.

use crate::message::{AddRequest, AddResponse, EchoMessage};
use vstd::prelude::*;

verus! {

/// A request as it came off the wire.
#[derive(Clone, Debug, PartialEq, Eq)]
pub enum Request {
    Add(AddRequest),
    Echo(EchoMessage),
}

/// What a [`Request`] says: the two numbers to add, or the text to send back.
pub enum RequestView {
    Add(AddRequest),
    Echo(Seq<char>),
}

impl View for Request {
    type V = RequestView;

    open spec fn view(&self) -> RequestView {
        match self {
            Request::Add(message) => RequestView::Add(*message),
            Request::Echo(message) => RequestView::Echo(message.content@),
        }
    }
}

/// The answer to a request.
#[derive(Clone, Debug, PartialEq, Eq)]
pub enum Response {
    Add(AddResponse),
    Echo(EchoMessage),
}

/// What a [`Response`] says: the sum, or the text sent back.
pub enum ResponseView {
    Add(AddResponse),
    Echo(Seq<char>),
}

impl View for Response {
    type V = ResponseView;

    open spec fn view(&self) -> ResponseView {
        match self {
            Response::Add(message) => ResponseView::Add(*message),
            Response::Echo(message) => ResponseView::Echo(message.content@),
        }
    }
}

impl ResponseView {
    /// The answer on the wire.
    pub open spec fn wire(self) -> Seq<u8> {
        match self {
            ResponseView::Add(message) => message.wire(),
            ResponseView::Echo(content) => EchoMessage::wire_of(content),
        }
    }
}

/// The sum of two 32-bit numbers, wrapped round into 32 bits.
pub open spec fn wrapped_sum(a: i32, b: i32) -> i32 {
    if a + b > i32::MAX {
        (a + b - 0x1_0000_0000) as i32
    } else if a + b < i32::MIN {
        (a + b + 0x1_0000_0000) as i32
    } else {
        (a + b) as i32
    }
}

/// The request that `buf` holds: an addition request if the bytes can be read
/// as one, else an echo message if they can be read as that, else none.
pub open spec fn request_in(buf: Seq<u8>) -> Option<RequestView> {
    match AddRequest::parse(buf) {
        Some(message) => Some(RequestView::Add(message)),
        None => match EchoMessage::parse(buf) {
            Some(content) => Some(RequestView::Echo(content)),
            None => None,
        },
    }
}

/// The answer that a request is owed.
pub open spec fn answer_to(request: RequestView) -> ResponseView {
    match request {
        RequestView::Add(message) => ResponseView::Add(
            AddResponse { result: wrapped_sum(message.a, message.b) },
        ),
        RequestView::Echo(content) => ResponseView::Echo(content),
    }
}

/// The bytes to send back for the bytes that came in, if they hold a request.
pub open spec fn reply_to(buf: Seq<u8>) -> Option<Seq<u8>> {
    match request_in(buf) {
        Some(request) => Some(answer_to(request).wire()),
        None => None,
    }
}

impl Request {
    /// Reads the request that `buf` holds, trying the addition request first.
    pub fn decode(buf: &[u8]) -> (r: Option<Request>)
        ensures
            match r {
                Some(request) => request_in(buf@) == Some(request@),
                None => request_in(buf@) is None,
            },
    {
        match AddRequest::decode(buf) {
            Some(message) => Some(Request::Add(message)),
            None => match EchoMessage::decode(buf) {
                Some(message) => Some(Request::Echo(message)),
                None => None,
            },
        }
    }
}

impl Response {
    /// The answer as bytes.
    pub fn encode_to_vec(&self) -> (out: Vec<u8>)
        ensures
            out@ == self@.wire(),
    {
        match self {
            Response::Add(message) => message.encode_to_vec(),
            Response::Echo(message) => message.encode_to_vec(),
        }
    }
}

/// Answers a request: the sum of the two numbers, wrapped round into 32 bits,
/// or the text as it came.
pub fn dispatch(request: Request) -> (response: Response)
    ensures
        response@ == answer_to(request@),
{
    match request {
        Request::Add(message) => Response::Add(
            AddResponse { result: message.a.wrapping_add(message.b) },
        ),
        Request::Echo(message) => Response::Echo(message),
    }
}

/// Reads one request from `buf` and returns the bytes of its answer; `None`
/// where the bytes hold no request.
pub fn respond(buf: &[u8]) -> (r: Option<Vec<u8>>)
    ensures
        match r {
            Some(out) => reply_to(buf@) == Some(out@),
            None => reply_to(buf@) is None,
        },
{
    match Request::decode(buf) {
        Some(request) => Some(dispatch(request).encode_to_vec()),
        None => None,
    }
}

} // verus!
