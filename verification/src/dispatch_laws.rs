//! What holds of the dispatch: an addition request is answered with the sum, an
//! echo message with itself, and the kind of the answer is the kind of the
//! request.

use crate::dispatch::{answer_to, reply_to, request_in, wrapped_sum, RequestView, ResponseView};
use crate::message::{AddRequest, AddResponse, EchoMessage};
use crate::message_laws::{
    lemma_add_request_round_trip, lemma_echo_is_no_add_request, lemma_echo_round_trip,
};
use vstd::prelude::*;
use vstd::utf8::*;

verus! {

/// The bytes of an addition request are read as that request and answered with
/// the bytes of the sum. Where the sum of the two numbers fits in 32 bits, it
/// is the sum itself.
pub proof fn lemma_add_request_is_answered(message: AddRequest)
    ensures
        request_in(message.wire()) == Some(RequestView::Add(message)),
        reply_to(message.wire()) == Some(
            AddResponse { result: wrapped_sum(message.a, message.b) }.wire(),
        ),
        i32::MIN <= message.a + message.b <= i32::MAX ==> wrapped_sum(message.a, message.b)
            == message.a + message.b,
{
    lemma_add_request_round_trip(message);
}

/// The bytes of an echo message with a text in it are read as that message and
/// answered with the same bytes.
pub proof fn lemma_echo_is_answered(content: Seq<char>)
    requires
        content.len() > 0,
        encode_utf8(content).len() <= u64::MAX,
    ensures
        request_in(EchoMessage::wire_of(content)) == Some(RequestView::Echo(content)),
        reply_to(EchoMessage::wire_of(content)) == Some(EchoMessage::wire_of(content)),
{
    lemma_echo_is_no_add_request(content);
    lemma_echo_round_trip(content);
}

/// The schema that the bytes match decides the kind of the answer, and the
/// addition request goes first: bytes that can be read as an addition request
/// get a sum, never an echo; bytes that cannot, but can be read as an echo
/// message, get an echo, never a sum; all others get no answer.
pub proof fn lemma_routing(buf: Seq<u8>)
    ensures
        match AddRequest::parse(buf) {
            Some(message) => request_in(buf) == Some(RequestView::Add(message)) && answer_to(
                RequestView::Add(message),
            ) is Add,
            None => match EchoMessage::parse(buf) {
                Some(content) => request_in(buf) == Some(RequestView::Echo(content))
                    && answer_to(RequestView::Echo(content)) == ResponseView::Echo(content),
                None => request_in(buf) is None && reply_to(buf) is None,
            },
        },
{
}

} // verus!
