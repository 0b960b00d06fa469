//! The three messages of the service and their protobuf schemas.
//!
//! An addition request carries two `int32` fields, `a` with number 1 and `b`
//! with number 2; its answer carries the `int32` field `result` with number 1;
//! an echo message carries the `string` field `content` with number 1. A field
//! that holds its default, zero or the empty text, is left off the wire. On
//! reading, fields may come in any order, the last value of a field counts,
//! fields with other numbers are skipped, and a known field with the wrong
//! wire kind makes the whole message unreadable.

use crate::wire::{
    field_key, int32_field, int32_value, read_int32, read_key, read_string, skip_unknown,
    skipped_field, string_field, string_value, write_int32, write_string, WireKind,
};
use crate::wire_laws::{lemma_field_key_rest, lemma_string_value_rest, lemma_varint_rest};
use vstd::prelude::*;

verus! {

/// A request to add two numbers.
#[derive(Clone, Copy, Debug, PartialEq, Eq, Structural)]
pub struct AddRequest {
    pub a: i32,
    pub b: i32,
}

impl AddRequest {
    /// The message that the fields in `buf` make of `start`, each field
    /// overwriting what was there; `None` where the bytes are no run of
    /// well-formed fields.
    pub open spec fn fields(buf: Seq<u8>, start: AddRequest) -> Option<AddRequest>
        decreases buf.len(),
    {
        if buf.len() == 0 {
            Some(start)
        } else {
            match field_key(buf) {
                Some((tag, kind, value)) => {
                    if tag == 1 || tag == 2 {
                        if kind != WireKind::Varint {
                            None
                        } else {
                            match int32_value(value) {
                                Some((number, rest)) => {
                                    proof {
                                        lemma_field_key_rest(buf);
                                        lemma_varint_rest(value);
                                    }
                                    AddRequest::fields(
                                        rest,
                                        if tag == 1 {
                                            AddRequest { a: number, b: start.b }
                                        } else {
                                            AddRequest { a: start.a, b: number }
                                        },
                                    )
                                },
                                None => None,
                            }
                        }
                    } else {
                        match skipped_field(kind, tag, value) {
                            Some(rest) => {
                                if rest.len() <= value.len() {
                                    proof {
                                        lemma_field_key_rest(buf);
                                    }
                                    AddRequest::fields(rest, start)
                                } else {
                                    None
                                }
                            },
                            None => None,
                        }
                    }
                },
                None => None,
            }
        }
    }

    /// The request that `buf` holds, if it holds one.
    pub open spec fn parse(buf: Seq<u8>) -> Option<AddRequest> {
        AddRequest::fields(buf, AddRequest { a: 0, b: 0 })
    }

    /// The request on the wire.
    pub open spec fn wire(self) -> Seq<u8> {
        (if self.a != 0 {
            int32_field(1, self.a)
        } else {
            Seq::empty()
        }) + (if self.b != 0 {
            int32_field(2, self.b)
        } else {
            Seq::empty()
        })
    }

    /// Reads a request from `buf`, which must hold it whole and nothing else.
    pub fn decode(buf: &[u8]) -> (r: Option<AddRequest>)
        ensures
            r == AddRequest::parse(buf@),
    {
        let mut message = AddRequest { a: 0, b: 0 };
        let mut rest: &[u8] = buf;
        while rest.len() > 0
            invariant
                AddRequest::parse(buf@) == AddRequest::fields(rest@, message),
            decreases rest@.len(),
        {
            proof {
                lemma_field_key_rest(rest@);
            }
            let (tag, kind, value) = match read_key(rest) {
                Ok(key) => key,
                Err(_) => {
                    return None;
                },
            };
            if tag == 1 || tag == 2 {
                proof {
                    lemma_varint_rest(value@);
                }
                match kind {
                    WireKind::Varint => {},
                    _ => {
                        return None;
                    },
                }
                match read_int32(value) {
                    Ok((number, after)) => {
                        if tag == 1 {
                            message.a = number;
                        } else {
                            message.b = number;
                        }
                        rest = after;
                    },
                    Err(_) => {
                        return None;
                    },
                }
            } else {
                match skip_unknown(kind, tag, value) {
                    Ok(after) => {
                        rest = after;
                    },
                    Err(_) => {
                        return None;
                    },
                }
            }
        }
        Some(message)
    }

    /// Appends the request to `out`.
    pub fn encode(&self, out: &mut Vec<u8>)
        ensures
            final(out)@ == old(out)@ + self.wire(),
    {
        if self.a != 0 {
            write_int32(1, self.a, out);
        }
        if self.b != 0 {
            write_int32(2, self.b, out);
        }
    }

    /// The request as bytes of its own.
    pub fn encode_to_vec(&self) -> (out: Vec<u8>)
        ensures
            out@ == self.wire(),
    {
        let mut out: Vec<u8> = Vec::new();
        self.encode(&mut out);
        out
    }
}

impl Default for AddRequest {
    /// The request with two zeros, which takes no bytes on the wire.
    fn default() -> (message: AddRequest)
        ensures
            message == (AddRequest { a: 0, b: 0 }),
    {
        AddRequest { a: 0, b: 0 }
    }
}

/// The answer to an addition request.
#[derive(Clone, Copy, Debug, PartialEq, Eq, Structural)]
pub struct AddResponse {
    pub result: i32,
}

impl AddResponse {
    /// The message that the fields in `buf` make of `start`; `None` where the
    /// bytes are no run of well-formed fields.
    pub open spec fn fields(buf: Seq<u8>, start: AddResponse) -> Option<AddResponse>
        decreases buf.len(),
    {
        if buf.len() == 0 {
            Some(start)
        } else {
            match field_key(buf) {
                Some((tag, kind, value)) => {
                    if tag == 1 {
                        if kind != WireKind::Varint {
                            None
                        } else {
                            match int32_value(value) {
                                Some((number, rest)) => {
                                    proof {
                                        lemma_field_key_rest(buf);
                                        lemma_varint_rest(value);
                                    }
                                    AddResponse::fields(rest, AddResponse { result: number })
                                },
                                None => None,
                            }
                        }
                    } else {
                        match skipped_field(kind, tag, value) {
                            Some(rest) => {
                                if rest.len() <= value.len() {
                                    proof {
                                        lemma_field_key_rest(buf);
                                    }
                                    AddResponse::fields(rest, start)
                                } else {
                                    None
                                }
                            },
                            None => None,
                        }
                    }
                },
                None => None,
            }
        }
    }

    /// The answer that `buf` holds, if it holds one.
    pub open spec fn parse(buf: Seq<u8>) -> Option<AddResponse> {
        AddResponse::fields(buf, AddResponse { result: 0 })
    }

    /// The answer on the wire.
    pub open spec fn wire(self) -> Seq<u8> {
        if self.result != 0 {
            int32_field(1, self.result)
        } else {
            Seq::empty()
        }
    }

    /// Reads an answer from `buf`, which must hold it whole and nothing else.
    pub fn decode(buf: &[u8]) -> (r: Option<AddResponse>)
        ensures
            r == AddResponse::parse(buf@),
    {
        let mut message = AddResponse { result: 0 };
        let mut rest: &[u8] = buf;
        while rest.len() > 0
            invariant
                AddResponse::parse(buf@) == AddResponse::fields(rest@, message),
            decreases rest@.len(),
        {
            proof {
                lemma_field_key_rest(rest@);
            }
            let (tag, kind, value) = match read_key(rest) {
                Ok(key) => key,
                Err(_) => {
                    return None;
                },
            };
            if tag == 1 {
                proof {
                    lemma_varint_rest(value@);
                }
                match kind {
                    WireKind::Varint => {},
                    _ => {
                        return None;
                    },
                }
                match read_int32(value) {
                    Ok((number, after)) => {
                        message.result = number;
                        rest = after;
                    },
                    Err(_) => {
                        return None;
                    },
                }
            } else {
                match skip_unknown(kind, tag, value) {
                    Ok(after) => {
                        rest = after;
                    },
                    Err(_) => {
                        return None;
                    },
                }
            }
        }
        Some(message)
    }

    /// Appends the answer to `out`.
    pub fn encode(&self, out: &mut Vec<u8>)
        ensures
            final(out)@ == old(out)@ + self.wire(),
    {
        if self.result != 0 {
            write_int32(1, self.result, out);
        }
    }

    /// The answer as bytes of its own.
    pub fn encode_to_vec(&self) -> (out: Vec<u8>)
        ensures
            out@ == self.wire(),
    {
        let mut out: Vec<u8> = Vec::new();
        self.encode(&mut out);
        out
    }
}

impl Default for AddResponse {
    /// The answer zero, which takes no bytes on the wire.
    fn default() -> (message: AddResponse)
        ensures
            message == (AddResponse { result: 0 }),
    {
        AddResponse { result: 0 }
    }
}

/// A text to be sent back as it is.
#[derive(Clone, Debug, PartialEq, Eq)]
pub struct EchoMessage {
    pub content: String,
}

impl EchoMessage {
    /// The content that the fields in `buf` make of `start`; `None` where the
    /// bytes are no run of well-formed fields.
    pub open spec fn fields(buf: Seq<u8>, start: Seq<char>) -> Option<Seq<char>>
        decreases buf.len(),
    {
        if buf.len() == 0 {
            Some(start)
        } else {
            match field_key(buf) {
                Some((tag, kind, value)) => {
                    if tag == 1 {
                        if kind != WireKind::LengthDelimited {
                            None
                        } else {
                            match string_value(value) {
                                Some((text, rest)) => {
                                    proof {
                                        lemma_field_key_rest(buf);
                                        lemma_string_value_rest(value);
                                    }
                                    EchoMessage::fields(rest, text)
                                },
                                None => None,
                            }
                        }
                    } else {
                        match skipped_field(kind, tag, value) {
                            Some(rest) => {
                                if rest.len() <= value.len() {
                                    proof {
                                        lemma_field_key_rest(buf);
                                    }
                                    EchoMessage::fields(rest, start)
                                } else {
                                    None
                                }
                            },
                            None => None,
                        }
                    }
                },
                None => None,
            }
        }
    }

    /// The content of the echo message that `buf` holds, if it holds one.
    pub open spec fn parse(buf: Seq<u8>) -> Option<Seq<char>> {
        EchoMessage::fields(buf, Seq::empty())
    }

    /// An echo message with the given content on the wire.
    pub open spec fn wire_of(content: Seq<char>) -> Seq<u8> {
        if content.len() != 0 {
            string_field(1, content)
        } else {
            Seq::empty()
        }
    }

    /// The message on the wire.
    pub open spec fn wire(self) -> Seq<u8> {
        EchoMessage::wire_of(self.content@)
    }

    /// Reads an echo message from `buf`, which must hold it whole and nothing
    /// else.
    pub fn decode(buf: &[u8]) -> (r: Option<EchoMessage>)
        ensures
            match r {
                Some(message) => EchoMessage::parse(buf@) == Some(message.content@),
                None => EchoMessage::parse(buf@) is None,
            },
    {
        let mut content = String::new();
        let mut rest: &[u8] = buf;
        while rest.len() > 0
            invariant
                EchoMessage::parse(buf@) == EchoMessage::fields(rest@, content@),
            decreases rest@.len(),
        {
            proof {
                lemma_field_key_rest(rest@);
            }
            let (tag, kind, value) = match read_key(rest) {
                Ok(key) => key,
                Err(_) => {
                    return None;
                },
            };
            if tag == 1 {
                proof {
                    lemma_string_value_rest(value@);
                }
                match kind {
                    WireKind::LengthDelimited => {},
                    _ => {
                        return None;
                    },
                }
                match read_string(value) {
                    Ok((text, after)) => {
                        content = text;
                        rest = after;
                    },
                    Err(_) => {
                        return None;
                    },
                }
            } else {
                match skip_unknown(kind, tag, value) {
                    Ok(after) => {
                        rest = after;
                    },
                    Err(_) => {
                        return None;
                    },
                }
            }
        }
        Some(EchoMessage { content })
    }

    /// Appends the message to `out`.
    pub fn encode(&self, out: &mut Vec<u8>)
        ensures
            final(out)@ == old(out)@ + self.wire(),
    {
        if !self.content.as_str().is_empty() {
            write_string(1, &self.content, out);
        }
    }

    /// The message as bytes of its own.
    pub fn encode_to_vec(&self) -> (out: Vec<u8>)
        ensures
            out@ == self.wire(),
    {
        let mut out: Vec<u8> = Vec::new();
        self.encode(&mut out);
        out
    }
}

impl Default for EchoMessage {
    /// The message with the empty text, which takes no bytes on the wire.
    fn default() -> (message: EchoMessage)
        ensures
            message.content@ == Seq::<char>::empty(),
    {
        EchoMessage { content: String::new() }
    }
}

} // verus!
