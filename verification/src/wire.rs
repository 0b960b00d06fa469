//! The protobuf wire format, as far as the message schemas of this crate need
//! it: base-128 varints, field keys, `int32` and `string` field values.
//!
//! The spec functions say what the bytes mean. The executable readers and
//! writers are prost's; each is reached through one function whose contract is
//! taken on trust and is stated over those spec functions.

use vstd::prelude::*;
use vstd::utf8::*;

verus! {

/// The largest field number that a key can carry.
pub const MAX_TAG: u32 = 0x1fff_ffff;

/// How the value of a field is laid out after its key.
#[derive(Clone, Copy, Debug, PartialEq, Eq, Structural)]
pub enum WireKind {
    Varint,
    SixtyFourBit,
    LengthDelimited,
    StartGroup,
    EndGroup,
    ThirtyTwoBit,
}

impl WireKind {
    /// The number that stands for this kind in the low three bits of a key.
    pub open spec fn code(self) -> nat {
        match self {
            WireKind::Varint => 0,
            WireKind::SixtyFourBit => 1,
            WireKind::LengthDelimited => 2,
            WireKind::StartGroup => 3,
            WireKind::EndGroup => 4,
            WireKind::ThirtyTwoBit => 5,
        }
    }

    /// The kind that a code stands for; codes 6 and 7 stand for none.
    pub open spec fn of_code(code: nat) -> Option<WireKind> {
        if code == 0 {
            Some(WireKind::Varint)
        } else if code == 1 {
            Some(WireKind::SixtyFourBit)
        } else if code == 2 {
            Some(WireKind::LengthDelimited)
        } else if code == 3 {
            Some(WireKind::StartGroup)
        } else if code == 4 {
            Some(WireKind::EndGroup)
        } else if code == 5 {
            Some(WireKind::ThirtyTwoBit)
        } else {
            None
        }
    }
}

/// The base-128 number at the head of `buf`, least significant group first,
/// read from at most `room` bytes, and the bytes that follow it. Every byte but
/// the last has its high bit set. `None` when none of the first `room` bytes
/// ends the number.
pub open spec fn leb128(buf: Seq<u8>, room: nat) -> Option<(nat, Seq<u8>)>
    decreases room,
{
    if room == 0 || buf.len() == 0 {
        None
    } else if buf[0] < 0x80 {
        Some((buf[0] as nat, buf.skip(1)))
    } else {
        match leb128(buf.skip(1), (room - 1) as nat) {
            Some((high, rest)) => Some(((buf[0] - 0x80) as nat + 128 * high, rest)),
            None => None,
        }
    }
}

/// The varint at the head of `buf` and the bytes that follow it: a base-128
/// number of at most ten bytes that fits in 64 bits. Nine bytes hold 63 bits,
/// so a tenth byte, where there is one, must be 0 or 1.
pub open spec fn varint(buf: Seq<u8>) -> Option<(u64, Seq<u8>)> {
    match leb128(buf, 10) {
        Some((value, rest)) => if value <= u64::MAX {
            Some((value as u64, rest))
        } else {
            None
        },
        None => None,
    }
}

/// The bytes of `value` as a base-128 number, in the fewest bytes.
pub open spec fn varint_bytes(value: nat) -> Seq<u8>
    decreases value,
{
    if value < 0x80 {
        seq![value as u8]
    } else {
        seq![(value % 128 + 128) as u8] + varint_bytes(value / 128)
    }
}

/// The field key at the head of `buf` and the bytes that follow it: a varint
/// that fits in 32 bits, whose low three bits name a wire kind and whose other
/// bits are a field number of at least one.
pub open spec fn field_key(buf: Seq<u8>) -> Option<(u32, WireKind, Seq<u8>)> {
    match varint(buf) {
        Some((key, rest)) => match WireKind::of_code((key % 8) as nat) {
            Some(kind) => if key <= u32::MAX && key / 8 >= 1 {
                Some(((key / 8) as u32, kind, rest))
            } else {
                None
            },
            None => None,
        },
        None => None,
    }
}

/// The bytes of the key of field `tag` with wire kind `kind`.
pub open spec fn key_bytes(tag: u32, kind: WireKind) -> Seq<u8> {
    varint_bytes(tag as nat * 8 + kind.code())
}

/// A signed 32-bit number extended by its sign to 64 bits: a negative number
/// counts down from two to the power 64.
pub open spec fn sign_extended(value: i32) -> u64 {
    if value >= 0 {
        value as u64
    } else {
        (value + 0x1_0000_0000_0000_0000) as u64
    }
}

/// The low 32 bits of a 64-bit number, read as a signed number.
pub open spec fn low_word(value: u64) -> i32 {
    if value % 0x1_0000_0000 >= 0x8000_0000 {
        (value % 0x1_0000_0000 - 0x1_0000_0000) as i32
    } else {
        (value % 0x1_0000_0000) as i32
    }
}

/// The value of an `int32` field at the head of `buf`: a varint, of which the
/// low 32 bits count, read as a signed number.
pub open spec fn int32_value(buf: Seq<u8>) -> Option<(i32, Seq<u8>)> {
    match varint(buf) {
        Some((value, rest)) => Some((low_word(value), rest)),
        None => None,
    }
}

/// An `int32` field on the wire: its key, then the value extended by its sign
/// to 64 bits, as a varint.
pub open spec fn int32_field(tag: u32, value: i32) -> Seq<u8> {
    key_bytes(tag, WireKind::Varint) + varint_bytes(sign_extended(value) as nat)
}

/// The value of a `string` field at the head of `buf`: a varint length, then
/// that many bytes, which must be well-formed UTF-8.
pub open spec fn string_value(buf: Seq<u8>) -> Option<(Seq<char>, Seq<u8>)> {
    match varint(buf) {
        Some((len, rest)) => if len <= rest.len() && valid_utf8(rest.take(len as int)) {
            Some((decode_utf8(rest.take(len as int)), rest.skip(len as int)))
        } else {
            None
        },
        None => None,
    }
}

/// A `string` field on the wire: its key, the length of the text in bytes as a
/// varint, then the text in UTF-8.
pub open spec fn string_field(tag: u32, text: Seq<char>) -> Seq<u8> {
    key_bytes(tag, WireKind::LengthDelimited) + varint_bytes(encode_utf8(text).len())
        + encode_utf8(text)
}

/// prost's error for bytes that it cannot decode. Nothing is read from it here.
#[verifier::external_type_specification]
#[verifier::external_body]
pub struct ExDecodeError(prost::DecodeError);

/// What is left of `buf` once prost has skipped the value of a field that has
/// the given wire kind and number and whose value starts at the head of `buf`;
/// `None` where prost rejects the bytes. A group is skipped up to its matching
/// end key, groups inside it included, to prost's nesting limit.
pub uninterp spec fn skipped_field(kind: WireKind, tag: u32, buf: Seq<u8>) -> Option<Seq<u8>>;

/// Reads a field key with `prost::encoding::decode_key`.
///
/// Taken on trust: prost accepts exactly the keys that [`field_key`] describes,
/// returns the field number and wire kind it gives, and leaves the bytes it
/// gives.
#[verifier::external_body]
pub(crate) fn read_key<'a>(buf: &'a [u8]) -> (r: Result<
    (u32, WireKind, &'a [u8]),
    prost::DecodeError,
>)
    ensures
        match r {
            Ok((tag, kind, rest)) => field_key(buf@) == Some((tag, kind, rest@)),
            Err(_) => field_key(buf@) is None,
        },
{
    let mut rest = buf;
    let (tag, wire_type) = prost::encoding::decode_key(&mut rest)?;
    let kind = match wire_type {
        prost::encoding::WireType::Varint => WireKind::Varint,
        prost::encoding::WireType::SixtyFourBit => WireKind::SixtyFourBit,
        prost::encoding::WireType::LengthDelimited => WireKind::LengthDelimited,
        prost::encoding::WireType::StartGroup => WireKind::StartGroup,
        prost::encoding::WireType::EndGroup => WireKind::EndGroup,
        prost::encoding::WireType::ThirtyTwoBit => WireKind::ThirtyTwoBit,
    };
    Ok((tag, kind, rest))
}

/// Reads the value of an `int32` field with `prost::encoding::int32::merge`,
/// called for a field of wire kind varint.
///
/// Taken on trust: prost reads one varint as [`varint`] describes it, keeps its
/// low 32 bits as a signed number, and fails exactly where there is no varint.
#[verifier::external_body]
pub(crate) fn read_int32<'a>(buf: &'a [u8]) -> (r: Result<(i32, &'a [u8]), prost::DecodeError>)
    ensures
        match r {
            Ok((value, rest)) => int32_value(buf@) == Some((value, rest@)),
            Err(_) => int32_value(buf@) is None,
        },
{
    let mut rest = buf;
    let mut value = 0i32;
    let ctx = prost::encoding::DecodeContext::default();
    prost::encoding::int32::merge(prost::encoding::WireType::Varint, &mut value, &mut rest, ctx)?;
    Ok((value, rest))
}

/// Reads the value of a `string` field with `prost::encoding::string::merge`,
/// called for a field of wire kind length-delimited.
///
/// Taken on trust: prost reads a varint length, fails if fewer bytes than that
/// follow or if they are not well-formed UTF-8, and else returns them as text
/// and leaves what comes after them, as [`string_value`] says.
#[verifier::external_body]
pub(crate) fn read_string<'a>(buf: &'a [u8]) -> (r: Result<
    (String, &'a [u8]),
    prost::DecodeError,
>)
    ensures
        match r {
            Ok((text, rest)) => string_value(buf@) == Some((text@, rest@)),
            Err(_) => string_value(buf@) is None,
        },
{
    let mut rest = buf;
    let mut text = String::new();
    let ctx = prost::encoding::DecodeContext::default();
    let kind = prost::encoding::WireType::LengthDelimited;
    prost::encoding::string::merge(kind, &mut text, &mut rest, ctx)?;
    Ok((text, rest))
}

/// Skips the value of a field that no schema here knows, with
/// `prost::encoding::skip_field`.
///
/// Taken on trust: what prost leaves is a function of the wire kind, the field
/// number and the bytes, named [`skipped_field`], and is never longer than what
/// it was given.
#[verifier::external_body]
pub(crate) fn skip_unknown<'a>(kind: WireKind, tag: u32, buf: &'a [u8]) -> (r: Result<
    &'a [u8],
    prost::DecodeError,
>)
    ensures
        match r {
            Ok(rest) => skipped_field(kind, tag, buf@) == Some(rest@) && rest@.len() <= buf@.len(),
            Err(_) => skipped_field(kind, tag, buf@) is None,
        },
{
    let mut rest = buf;
    let wire_type = match kind {
        WireKind::Varint => prost::encoding::WireType::Varint,
        WireKind::SixtyFourBit => prost::encoding::WireType::SixtyFourBit,
        WireKind::LengthDelimited => prost::encoding::WireType::LengthDelimited,
        WireKind::StartGroup => prost::encoding::WireType::StartGroup,
        WireKind::EndGroup => prost::encoding::WireType::EndGroup,
        WireKind::ThirtyTwoBit => prost::encoding::WireType::ThirtyTwoBit,
    };
    let ctx = prost::encoding::DecodeContext::default();
    prost::encoding::skip_field(wire_type, tag, &mut rest, ctx)?;
    Ok(rest)
}

/// Appends an `int32` field to `out` with `prost::encoding::int32::encode`.
///
/// Taken on trust: prost appends the key of a varint field with this number and
/// then the value, extended by its sign to 64 bits, as a varint in the fewest
/// bytes, which is [`int32_field`].
#[verifier::external_body]
pub(crate) fn write_int32(tag: u32, value: i32, out: &mut Vec<u8>)
    requires
        1 <= tag <= MAX_TAG,
    ensures
        final(out)@ == old(out)@ + int32_field(tag, value),
{
    prost::encoding::int32::encode(tag, &value, out);
}

/// Appends a `string` field to `out` with `prost::encoding::string::encode`.
///
/// Taken on trust: prost appends the key of a length-delimited field with this
/// number, the length of the text in bytes as a varint, and the text's bytes,
/// which is [`string_field`].
#[verifier::external_body]
pub(crate) fn write_string(tag: u32, text: &String, out: &mut Vec<u8>)
    requires
        1 <= tag <= MAX_TAG,
    ensures
        final(out)@ == old(out)@ + string_field(tag, text@),
{
    prost::encoding::string::encode(tag, text, out);
}

} // verus!
