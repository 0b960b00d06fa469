//! What holds of the messages: each is read back from its own bytes as it was
//! written, and the bytes of an echo message with a text in it are never taken
//! for an addition request.

use crate::message::{AddRequest, AddResponse, EchoMessage};
use crate::wire::{
    field_key, int32_field, key_bytes, sign_extended, string_field, varint_bytes, WireKind,
};
use crate::wire_laws::{
    lemma_int32_of_bytes, lemma_key_of_bytes, lemma_string_of_bytes, lemma_varint_of_bytes,
};
use vstd::prelude::*;
use vstd::utf8::*;

verus! {

/// An `int32` field is never empty on the wire.
pub proof fn lemma_int32_field_len(tag: u32, value: i32)
    ensures
        int32_field(tag, value).len() >= 2,
{
    lemma_varint_of_bytes((tag * 8) as u64, Seq::empty());
    lemma_varint_of_bytes(sign_extended(value), Seq::empty());
}

/// Reading an addition request that starts with one of its two fields sets
/// that field and goes on with what follows.
pub proof fn lemma_add_request_field(tag: u32, value: i32, tail: Seq<u8>, start: AddRequest)
    requires
        tag == 1 || tag == 2,
    ensures
        AddRequest::fields(int32_field(tag, value) + tail, start) == AddRequest::fields(
            tail,
            if tag == 1 {
                AddRequest { a: value, b: start.b }
            } else {
                AddRequest { a: start.a, b: value }
            },
        ),
{
    let number = varint_bytes(sign_extended(value) as nat);
    let buf = int32_field(tag, value) + tail;
    lemma_int32_field_len(tag, value);
    assert(buf == key_bytes(tag, WireKind::Varint) + (number + tail));
    lemma_key_of_bytes(tag, WireKind::Varint, number + tail);
    lemma_int32_of_bytes(value, tail);
}

/// An addition request is read back from its own bytes as it was written.
pub proof fn lemma_add_request_round_trip(message: AddRequest)
    ensures
        AddRequest::parse(message.wire()) == Some(message),
{
    let zero = AddRequest { a: 0, b: 0 };
    let first = AddRequest { a: message.a, b: 0 };
    let second = if message.b != 0 {
        int32_field(2, message.b)
    } else {
        Seq::empty()
    };
    assert(AddRequest::fields(second, first) == Some(message)) by {
        if message.b != 0 {
            lemma_add_request_field(2, message.b, Seq::empty(), first);
            assert(second + Seq::<u8>::empty() == second);
        }
    }
    if message.a != 0 {
        lemma_add_request_field(1, message.a, second, zero);
    } else {
        assert(message.wire() == second);
    }
}

/// An answer is read back from its own bytes as it was written.
pub proof fn lemma_add_response_round_trip(message: AddResponse)
    ensures
        AddResponse::parse(message.wire()) == Some(message),
{
    if message.result != 0 {
        let number = varint_bytes(sign_extended(message.result) as nat);
        let buf = message.wire();
        lemma_int32_field_len(1, message.result);
        assert(buf == key_bytes(1, WireKind::Varint) + (number + Seq::<u8>::empty()));
        lemma_key_of_bytes(1, WireKind::Varint, number + Seq::<u8>::empty());
        lemma_int32_of_bytes(message.result, Seq::empty());
        assert(AddResponse::fields(Seq::empty(), message) == Some(message));
    }
}

/// An echo message takes bytes on the wire exactly when its text is not
/// empty, and then starts with the key of field 1 as a length-delimited field.
pub proof fn lemma_echo_key(content: Seq<char>)
    requires
        encode_utf8(content).len() <= u64::MAX,
    ensures
        EchoMessage::wire_of(content).len() > 0 <==> content.len() > 0,
        content.len() > 0 ==> field_key(EchoMessage::wire_of(content)) == Some(
            (
                1u32,
                WireKind::LengthDelimited,
                varint_bytes(encode_utf8(content).len()) + encode_utf8(content),
            ),
        ),
{
    if content.len() > 0 {
        let body = varint_bytes(encode_utf8(content).len()) + encode_utf8(content);
        lemma_varint_of_bytes(10u64, body);
        assert(string_field(1, content) == key_bytes(1, WireKind::LengthDelimited) + body);
        lemma_key_of_bytes(1, WireKind::LengthDelimited, body);
    }
}

/// An echo message is read back from its own bytes with the content it was
/// written with, whatever the text, as long as its length in bytes fits in 64
/// bits.
pub proof fn lemma_echo_round_trip(content: Seq<char>)
    requires
        encode_utf8(content).len() <= u64::MAX,
    ensures
        EchoMessage::parse(EchoMessage::wire_of(content)) == Some(content),
{
    lemma_echo_key(content);
    if content.len() > 0 {
        let body = varint_bytes(encode_utf8(content).len()) + encode_utf8(content);
        lemma_string_of_bytes(content, Seq::empty());
        assert(body + Seq::<u8>::empty() == body);
        assert(EchoMessage::fields(Seq::empty(), content) == Some(content));
    } else {
        assert(content == Seq::<char>::empty());
    }
}

/// The bytes of an echo message with a text in it cannot be read as an
/// addition request: they start with field 1 as a length-delimited field,
/// where the addition request has a varint.
pub proof fn lemma_echo_is_no_add_request(content: Seq<char>)
    requires
        content.len() > 0,
        encode_utf8(content).len() <= u64::MAX,
    ensures
        AddRequest::parse(EchoMessage::wire_of(content)) is None,
{
    lemma_echo_key(content);
}

} // verus!
