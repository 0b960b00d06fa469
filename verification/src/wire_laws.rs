//! What holds of the wire format: a reader always moves forward, and every
//! value that a writer puts on the wire is read back as it was.

use crate::wire::{
    field_key, int32_value, key_bytes, leb128, low_word, sign_extended, string_value, varint,
    varint_bytes, WireKind, MAX_TAG,
};
use vstd::prelude::*;
use vstd::utf8::*;

verus! {

/// 128 to the power `groups`: the first number that `groups` base-128 digits
/// cannot hold.
pub open spec fn limit(groups: nat) -> nat
    decreases groups,
{
    if groups == 0 {
        1
    } else {
        128 * limit((groups - 1) as nat)
    }
}

/// A base-128 number takes at least one byte, and what follows it is the rest
/// of the buffer.
pub proof fn lemma_leb128_rest(buf: Seq<u8>, room: nat)
    ensures
        match leb128(buf, room) {
            Some((_, rest)) => rest.len() < buf.len() && rest == buf.skip(buf.len() - rest.len()),
            None => true,
        },
    decreases room,
{
    if room == 0 || buf.len() == 0 {
    } else if buf[0] < 0x80 {
    } else {
        lemma_leb128_rest(buf.skip(1), (room - 1) as nat);
        match leb128(buf.skip(1), (room - 1) as nat) {
            Some((_, rest)) => {
                assert(buf.skip(1).skip(buf.skip(1).len() - rest.len()) == buf.skip(
                    buf.len() - rest.len(),
                ));
            },
            None => {},
        }
    }
}

/// A varint takes at least one byte, and what follows it is the rest of the
/// buffer.
pub proof fn lemma_varint_rest(buf: Seq<u8>)
    ensures
        match varint(buf) {
            Some((_, rest)) => rest.len() < buf.len() && rest == buf.skip(buf.len() - rest.len()),
            None => true,
        },
{
    lemma_leb128_rest(buf, 10);
}

/// A field key takes at least one byte.
pub proof fn lemma_field_key_rest(buf: Seq<u8>)
    ensures
        match field_key(buf) {
            Some((_, _, rest)) => rest.len() < buf.len() && rest == buf.skip(
                buf.len() - rest.len(),
            ),
            None => true,
        },
{
    lemma_varint_rest(buf);
}

/// The value of a string field takes at least one byte.
pub proof fn lemma_string_value_rest(buf: Seq<u8>)
    ensures
        match string_value(buf) {
            Some((_, rest)) => rest.len() < buf.len(),
            None => true,
        },
{
    lemma_varint_rest(buf);
}

/// A number below 128 to the power `groups` is written in at most `groups`
/// bytes, and in at least one.
pub proof fn lemma_varint_bytes_len(value: nat, groups: nat)
    requires
        groups >= 1,
        value < limit(groups),
    ensures
        1 <= varint_bytes(value).len() <= groups,
    decreases groups,
{
    if value < 0x80 {
    } else {
        assert(limit(1) == 128) by {
            reveal_with_fuel(limit, 2);
        }
        assert(groups >= 2);
        assert(value / 128 < limit((groups - 1) as nat));
        lemma_varint_bytes_len(value / 128, (groups - 1) as nat);
    }
}

/// Reading back what was written: the bytes of `value`, followed by anything,
/// read as a base-128 number with room for them, give `value` and leave what
/// followed.
pub proof fn lemma_leb128_of_bytes(value: nat, tail: Seq<u8>, room: nat)
    requires
        varint_bytes(value).len() <= room,
    ensures
        leb128(varint_bytes(value) + tail, room) == Some((value, tail)),
    decreases value,
{
    let buf = varint_bytes(value) + tail;
    if value < 0x80 {
        assert(buf.skip(1) == tail);
    } else {
        let high = varint_bytes(value / 128);
        assert(buf.skip(1) == high + tail);
        lemma_leb128_of_bytes(value / 128, tail, (room - 1) as nat);
        assert(buf[0] == (value % 128 + 128) as u8);
    }
}

/// A 64-bit number is written in at most ten bytes, and the varint read from
/// them, whatever follows, is that number.
pub proof fn lemma_varint_of_bytes(value: u64, tail: Seq<u8>)
    ensures
        1 <= varint_bytes(value as nat).len() <= 10,
        varint(varint_bytes(value as nat) + tail) == Some((value, tail)),
{
    assert(limit(10) > u64::MAX) by {
        reveal_with_fuel(limit, 11);
    }
    lemma_varint_bytes_len(value as nat, 10);
    lemma_leb128_of_bytes(value as nat, tail, 10);
}

/// A key that was written is read back: its field number and wire kind, and
/// after it what followed.
pub proof fn lemma_key_of_bytes(tag: u32, kind: WireKind, tail: Seq<u8>)
    requires
        1 <= tag <= MAX_TAG,
    ensures
        field_key(key_bytes(tag, kind) + tail) == Some((tag, kind, tail)),
{
    let key: u64 = (tag * 8 + kind.code()) as u64;
    lemma_varint_of_bytes(key, tail);
    assert(key % 8 == kind.code());
    assert(key / 8 == tag);
}

/// An `int32` value that was written is read back, negative ones too.
pub proof fn lemma_int32_of_bytes(value: i32, tail: Seq<u8>)
    ensures
        int32_value(varint_bytes(sign_extended(value) as nat) + tail) == Some((value, tail)),
{
    lemma_varint_of_bytes(sign_extended(value), tail);
    assert(low_word(sign_extended(value)) == value);
}

/// A text that was written is read back, whatever its characters.
pub proof fn lemma_string_of_bytes(text: Seq<char>, tail: Seq<u8>)
    requires
        encode_utf8(text).len() <= u64::MAX,
    ensures
        string_value(varint_bytes(encode_utf8(text).len()) + encode_utf8(text) + tail) == Some(
            (text, tail),
        ),
{
    let body = encode_utf8(text);
    let len: u64 = body.len() as u64;
    lemma_varint_of_bytes(len, body + tail);
    assert(varint_bytes(body.len()) + body + tail == varint_bytes(len as nat) + (body + tail));
    assert((body + tail).take(len as int) == body);
    assert((body + tail).skip(len as int) == tail);
    encode_utf8_valid_utf8(text);
    encode_utf8_decode_utf8(text);
}

} // verus!
