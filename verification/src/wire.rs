//! The protobuf wire format, as far as uSubscription messages use it.
//!
//! The functions marked as trusted read or write one item each by means of the `protobuf`
//! crate. Their contracts state the encoding of that item.

use protobuf::{CodedInputStream, CodedOutputStream, UnknownFields};
use vstd::prelude::*;

verus! {

/// The wire type of fields that hold a variable-length integer.
pub const WIRE_TYPE_VARINT: u32 = 0;

/// The wire type of fields that hold eight bytes.
pub const WIRE_TYPE_FIXED64: u32 = 1;

/// The wire type of fields that hold a length and as many bytes.
pub const WIRE_TYPE_LENGTH_DELIMITED: u32 = 2;

/// The wire type of fields that hold other fields, up to the end of the group.
pub const WIRE_TYPE_START_GROUP: u32 = 3;

/// The wire type of what ends a group.
pub const WIRE_TYPE_END_GROUP: u32 = 4;

/// The wire type of fields that hold four bytes.
pub const WIRE_TYPE_FIXED32: u32 = 5;

/// The largest field number that a message can have.
pub const FIELD_NUMBER_MAX: u32 = 0x1fff_ffff;

/// The number of bytes from which on text or bytes are read piece by piece.
pub const LARGE_LEN: u32 = 10_000_000;

/// What is wrong with bytes that hold no message of the expected type.
#[derive(Clone, Debug, PartialEq, Eq)]
pub struct DecodeError {
    /// The error in words.
    pub message: String,
}

impl View for DecodeError {
    type V = Seq<char>;

    open spec fn view(&self) -> Seq<char> {
        self.message@
    }
}

impl DecodeError {
    /// Makes an error of its description.
    pub fn new(message: &str) -> (r: DecodeError)
        ensures
            r@ == message@,
    {
        DecodeError { message: message.to_owned() }
    }

    /// Describes the error in words.
    pub fn message(&self) -> (r: &str)
        ensures
            r@ == self@,
    {
        self.message.as_str()
    }
}

/// The error of the `protobuf` crate.
#[verifier::external_type_specification]
#[verifier::external_body]
pub struct ExProtobufError(protobuf::Error);

/// The number that stands in front of a field: its field number and its wire type.
pub open spec fn tag(field_number: u32, wire_type: u32) -> nat {
    (field_number * 8 + wire_type) as nat
}

/// A variable-length integer: seven bits in each byte, the lowest first, and the eighth bit set
/// in all bytes but the last.
pub open spec fn varint_bytes(value: nat) -> Seq<u8>
    decreases value,
{
    if value < 128 {
        seq![value as u8]
    } else {
        seq![(128 + value % 128) as u8] + varint_bytes(value / 128)
    }
}

/// The variable-length integer at the start of `bytes` and the number of bytes that it takes up.
/// It may have at most `max_len` bytes, and its byte number `max_len` is at most `last`.
pub open spec fn varint(bytes: Seq<u8>, max_len: nat, last: u8) -> Option<(nat, int)>
    decreases max_len,
{
    if bytes.len() == 0 || max_len == 0 || (max_len == 1 && bytes[0] > last) {
        None
    } else if bytes[0] < 128 {
        Some((bytes[0] as nat, 1))
    } else {
        match varint(bytes.skip(1), (max_len - 1) as nat, last) {
            Some((value, len)) => Some(((bytes[0] - 128) as nat + 128 * value, len + 1)),
            None => None,
        }
    }
}

/// The unsigned integer of up to 32 bits at the start of `bytes`.
pub open spec fn varint32(bytes: Seq<u8>) -> Option<(nat, int)> {
    varint(bytes, 5, 0x0f)
}

/// The unsigned integer of up to 64 bits at the start of `bytes`.
pub open spec fn varint64(bytes: Seq<u8>) -> Option<(nat, int)> {
    varint(bytes, 10, 0x01)
}

/// The unsigned number of 64 bits that stands for a signed one.
pub open spec fn unsigned(value: int) -> nat {
    if value >= 0 {
        value as nat
    } else {
        (value + 0x1_0000_0000_0000_0000) as nat
    }
}

/// The signed integer at the start of `bytes`, written as the 64 bits of its two's complement.
pub open spec fn int64(bytes: Seq<u8>) -> Option<(int, int)> {
    match varint64(bytes) {
        Some((value, len)) => if value <= i64::MAX {
            Some((value as int, len))
        } else {
            Some((value - 0x1_0000_0000_0000_0000, len))
        },
        None => None,
    }
}

/// The signed integer at the start of `bytes`, where it fits 32 bits.
pub open spec fn int32(bytes: Seq<u8>) -> Option<(int, int)> {
    match int64(bytes) {
        Some((value, len)) => if i32::MIN <= value <= i32::MAX {
            Some((value, len))
        } else {
            None
        },
        None => None,
    }
}

/// The text at the start of `bytes`: its length in bytes and its UTF-8 encoding.
pub open spec fn text(bytes: Seq<u8>) -> Option<(Seq<char>, int)> {
    match varint32(bytes) {
        Some((len, start)) => {
            let encoded = bytes.subrange(start, start + len);
            if start + len <= bytes.len() && vstd::utf8::valid_utf8(encoded) {
                Some((vstd::utf8::decode_utf8(encoded), start + len))
            } else {
                None
            }
        },
        None => None,
    }
}

/// Why there is no variable-length integer of up to `max_len` bytes at the start of `bytes`, where
/// there is none: it is not one, or it is cut off.
pub open spec fn varint_error(bytes: Seq<u8>, max_len: nat) -> Seq<char> {
    if bytes.len() >= max_len {
        "Incorrect varint"@
    } else {
        "Unexpected EOF"@
    }
}

/// The decimal digits of a number, behind a sign where it is negative.
pub open spec fn decimal(value: int) -> Seq<char>
    decreases
            if value < 0 {
                1int
            } else {
                0int
            },
            value,
{
    let digits = seq!['0', '1', '2', '3', '4', '5', '6', '7', '8', '9'];
    if value < 0 {
        seq!['-'] + decimal(-value)
    } else if value < 10 {
        seq![digits[value]]
    } else {
        decimal(value / 10).push(digits[value % 10])
    }
}

/// Why there is no signed integer of up to 32 bits at the start of `bytes`, where there is none.
pub open spec fn int32_error(bytes: Seq<u8>) -> Seq<char> {
    match int64(bytes) {
        Some((value, _)) => "Value too large for i32: "@ + decimal(value),
        None => varint_error(bytes, 10),
    }
}

/// Why `len` bytes cannot be read that are not there, where the message around them ends after
/// `bound` bytes.
pub open spec fn missing_bytes_error(len: nat, bound: int) -> Seq<char> {
    if len > bound || len >= LARGE_LEN {
        "Truncated message"@
    } else {
        "Unexpected EOF"@
    }
}

/// Why there is no text at the start of `bytes`, where there is none. The message around it ends
/// after `bound` bytes.
pub open spec fn text_error(bytes: Seq<u8>, bound: int) -> Seq<char> {
    match varint32(bytes) {
        Some((len, start)) => if start + len <= bytes.len() {
            "Invalid UTF-8 sequence"@
        } else {
            missing_bytes_error(len, bound - start)
        },
        None => varint_error(bytes, 5),
    }
}

/// The number of bytes that a group of fields and its end take up at the start of `bytes`, or why
/// there is none. The message around it ends after `bound` bytes, and groups may be nested `depth`
/// levels deep in it.
pub uninterp spec fn group(bytes: Seq<u8>, bound: int, depth: int) -> Result<nat, Seq<char>>;

/// The number of bytes that the field behind the given tag takes up at the start of `bytes`,
/// where the message does not know the field, or why it cannot be skipped. The message ends after
/// `bound` bytes. `group` is the result for a group.
pub open spec fn unknown_field_len(
    tag: u32,
    bytes: Seq<u8>,
    bound: int,
    group: Result<nat, Seq<char>>,
) -> Result<int, Seq<char>> {
    let wire_type = tag % 8;
    if tag / 8 == 0 || wire_type > WIRE_TYPE_FIXED32 {
        Err("Incorrect tag"@)
    } else if wire_type == WIRE_TYPE_VARINT {
        match varint64(bytes) {
            Some((_, len)) => Ok(len),
            None => Err(varint_error(bytes, 10)),
        }
    } else if wire_type == WIRE_TYPE_LENGTH_DELIMITED {
        match varint32(bytes) {
            Some((len, start)) => if start + len <= bytes.len() {
                Ok(start + len)
            } else {
                Err(missing_bytes_error(len, bound - start))
            },
            None => Err(varint_error(bytes, 5)),
        }
    } else if wire_type == WIRE_TYPE_START_GROUP {
        match group {
            Ok(len) => Ok(
                if len <= bytes.len() {
                    len as int
                } else {
                    bytes.len() as int
                },
            ),
            Err(error) => Err(error),
        }
    } else if wire_type == WIRE_TYPE_END_GROUP {
        Err("Unexpected wire type"@)
    } else {
        let len: int = if wire_type == WIRE_TYPE_FIXED64 {
            8
        } else {
            4
        };
        if len <= bytes.len() {
            Ok(len)
        } else {
            Err("Unexpected EOF"@)
        }
    }
}

/// A field that holds an integer.
pub open spec fn integer_field(field_number: u32, value: int) -> Seq<u8> {
    varint_bytes(tag(field_number, WIRE_TYPE_VARINT)) + varint_bytes(unsigned(value))
}

/// A field that holds an integer, where it is left out for zero.
pub open spec fn optional_integer_field(field_number: u32, value: int) -> Seq<u8> {
    if value == 0 {
        seq![]
    } else {
        integer_field(field_number, value)
    }
}

/// A field that holds bytes.
pub open spec fn bytes_field(field_number: u32, bytes: Seq<u8>) -> Seq<u8> {
    varint_bytes(tag(field_number, WIRE_TYPE_LENGTH_DELIMITED)) + varint_bytes(bytes.len()) + bytes
}

/// A field that holds text.
pub open spec fn text_field(field_number: u32, value: Seq<char>) -> Seq<u8> {
    bytes_field(field_number, vstd::utf8::encode_utf8(value))
}

/// Reads the tag at the start of `bytes`, or `None` at their end.
///
/// Trusted: `protobuf::CodedInputStream::read_raw_tag_or_eof`, on a stream over `bytes`, reads
/// an unsigned integer of up to 32 bits, and fails with the stated text where there is none.
#[verifier::external_body]
pub(crate) fn read_tag(bytes: &[u8]) -> (r: Result<Option<(u32, usize)>, DecodeError>)
    ensures
        bytes@.len() == 0 ==> r is Ok && r->Ok_0 is None,
        bytes@.len() > 0 ==> match varint32(bytes@) {
            Some((value, len)) => r is Ok && r->Ok_0 is Some && r->Ok_0->Some_0.0 == value
                && r->Ok_0->Some_0.1 == len,
            None => r is Err && r->Err_0@ == varint_error(bytes@, 5),
        },
{
    let mut is = CodedInputStream::from_bytes(bytes);
    match is.read_raw_tag_or_eof() {
        Ok(tag) => Ok(tag.map(|tag| (tag, is.pos() as usize))),
        Err(error) => Err(DecodeError { message: error.to_string() }),
    }
}

/// Reads the length of a message.
///
/// Trusted: `protobuf::CodedInputStream::read_raw_varint64`, on a stream over `bytes`, reads an
/// unsigned integer of up to 64 bits, and fails with the stated text where there is none.
#[verifier::external_body]
pub(crate) fn read_varint64(bytes: &[u8]) -> (r: Result<(u64, usize), DecodeError>)
    ensures
        match varint64(bytes@) {
            Some((value, len)) => r is Ok && r->Ok_0.0 == value && r->Ok_0.1 == len,
            None => r is Err && r->Err_0@ == varint_error(bytes@, 10),
        },
{
    let mut is = CodedInputStream::from_bytes(bytes);
    match is.read_raw_varint64() {
        Ok(value) => Ok((value, is.pos() as usize)),
        Err(error) => Err(DecodeError { message: error.to_string() }),
    }
}

/// Reads an unsigned integer.
///
/// Trusted: `protobuf::CodedInputStream::read_uint32`, on a stream over `bytes`, reads an
/// unsigned integer of up to 32 bits, and fails with the stated text where there is none.
#[verifier::external_body]
pub(crate) fn read_uint32(bytes: &[u8]) -> (r: Result<(u32, usize), DecodeError>)
    ensures
        match varint32(bytes@) {
            Some((value, len)) => r is Ok && r->Ok_0.0 == value && r->Ok_0.1 == len,
            None => r is Err && r->Err_0@ == varint_error(bytes@, 5),
        },
{
    let mut is = CodedInputStream::from_bytes(bytes);
    match is.read_uint32() {
        Ok(value) => Ok((value, is.pos() as usize)),
        Err(error) => Err(DecodeError { message: error.to_string() }),
    }
}

/// Reads a signed integer, which is also how the number of an enum value is written.
///
/// Trusted: `protobuf::CodedInputStream::read_int32`, on a stream over `bytes`, reads a signed
/// integer of up to 64 bits, and fails with the stated text where there is none or where it does
/// not fit 32 bits.
#[verifier::external_body]
pub(crate) fn read_int32(bytes: &[u8]) -> (r: Result<(i32, usize), DecodeError>)
    ensures
        match int32(bytes@) {
            Some((value, len)) => r is Ok && r->Ok_0.0 == value && r->Ok_0.1 == len,
            None => r is Err && r->Err_0@ == int32_error(bytes@),
        },
{
    let mut is = CodedInputStream::from_bytes(bytes);
    match is.read_int32() {
        Ok(value) => Ok((value, is.pos() as usize)),
        Err(error) => Err(DecodeError { message: error.to_string() }),
    }
}

/// Reads text in a message that ends after `bound` bytes.
///
/// Trusted: `protobuf::CodedInputStream::read_string`, on a stream over `bytes` with the limit
/// `bound`, reads a length of up to 32 bits and as many bytes, and fails with the stated text where
/// they are not there or not valid UTF-8.
#[verifier::external_body]
pub(crate) fn read_string(bytes: &[u8], bound: u64) -> (r: Result<(String, usize), DecodeError>)
    requires
        bytes@.len() <= bound,
    ensures
        match text(bytes@) {
            Some((value, len)) => r is Ok && r->Ok_0.0@ == value && r->Ok_0.1 == len,
            None => r is Err && r->Err_0@ == text_error(bytes@, bound as int),
        },
{
    let mut is = CodedInputStream::from_bytes(bytes);
    match is.push_limit(bound).and_then(|_| is.read_string()) {
        Ok(value) => Ok((value, is.pos() as usize)),
        Err(error) => Err(DecodeError { message: error.to_string() }),
    }
}

/// Skips the field behind the given tag in a message that ends after `bound` bytes, and returns
/// the number of bytes that the field takes up. Groups may be nested `depth` levels deep in it.
///
/// Trusted: `protobuf::rt::read_unknown_or_skip_group`, on a stream over `bytes` with the limit
/// `bound` and the recursion limit `depth`, reads as many bytes as the wire type asks for, and
/// fails with the stated text where they are not there, or where the tag has no field number or a
/// wire type that no field starts with. What becomes of a group is a matter of the bytes and the
/// two limits alone, and it does not reach beyond the end of the bytes. The call uses up stack for
/// each level, so that there are no more of them than a payload may have.
#[verifier::external_body]
pub(crate) fn skip_unknown_field(tag: u32, bytes: &[u8], bound: u64, depth: u32) -> (r: Result<
    usize,
    DecodeError,
>)
    requires
        bytes@.len() <= bound,
        depth <= crate::message::RECURSION_LIMIT,
    ensures
        match unknown_field_len(
            tag,
            bytes@,
            bound as int,
            group(bytes@, bound as int, depth as int),
        ) {
            Ok(len) => r is Ok && r->Ok_0 == len,
            Err(error) => r is Err && r->Err_0@ == error,
        },
{
    let mut is = CodedInputStream::from_bytes(bytes);
    let mut unknown = UnknownFields::new();
    is.set_recursion_limit(depth);
    match is.push_limit(bound).and_then(
        |_| protobuf::rt::read_unknown_or_skip_group(tag, &mut is, &mut unknown),
    ) {
        Ok(()) => Ok(is.pos() as usize),
        Err(error) => Err(DecodeError { message: error.to_string() }),
    }
}

/// Describes an error in words.
///
/// Trusted: `protobuf::Error` has a text, of which nothing is stated.
#[verifier::external_body]
pub(crate) fn error_text(error: &protobuf::Error) -> String {
    error.to_string()
}

/// Appends a field that holds an unsigned integer.
///
/// Trusted: `protobuf::CodedOutputStream::write_uint32`, on a stream into a vector, appends the
/// field's tag and the integer, and does not fail.
#[verifier::external_body]
pub(crate) fn write_uint32(field_number: u32, value: u32, out: &mut Vec<u8>) -> (r: Result<
    (),
    protobuf::Error,
>)
    requires
        0 < field_number <= FIELD_NUMBER_MAX,
    ensures
        r is Ok,
        final(out)@ == old(out)@ + integer_field(field_number, value as int),
{
    let mut os = CodedOutputStream::vec(out);
    os.write_uint32(field_number, value)?;
    os.flush()
}

/// Appends a field that holds the number of an enum value.
///
/// Trusted: `protobuf::CodedOutputStream::write_enum`, on a stream into a vector, appends the
/// field's tag and the number, and does not fail.
#[verifier::external_body]
pub(crate) fn write_enum(field_number: u32, value: i32, out: &mut Vec<u8>) -> (r: Result<
    (),
    protobuf::Error,
>)
    requires
        0 < field_number <= FIELD_NUMBER_MAX,
    ensures
        r is Ok,
        final(out)@ == old(out)@ + integer_field(field_number, value as int),
{
    let mut os = CodedOutputStream::vec(out);
    os.write_enum(field_number, value)?;
    os.flush()
}

/// Appends a field that holds text.
///
/// Trusted: `protobuf::CodedOutputStream::write_string`, on a stream into a vector, appends the
/// field's tag, the number of bytes and the bytes, and does not fail. It writes the number of
/// bytes with 32 bits.
#[verifier::external_body]
pub(crate) fn write_string(field_number: u32, value: &str, out: &mut Vec<u8>) -> (r: Result<
    (),
    protobuf::Error,
>)
    requires
        0 < field_number <= FIELD_NUMBER_MAX,
        vstd::utf8::encode_utf8(value@).len() <= u32::MAX,
    ensures
        r is Ok,
        final(out)@ == old(out)@ + text_field(field_number, value@),
{
    let mut os = CodedOutputStream::vec(out);
    os.write_string(field_number, value)?;
    os.flush()
}

/// Appends a field that holds bytes, which is also how an encoded message is nested.
///
/// Trusted: `protobuf::CodedOutputStream::write_bytes`, on a stream into a vector, appends the
/// field's tag, the number of bytes and the bytes, and does not fail. It writes the number of
/// bytes with 32 bits.
#[verifier::external_body]
pub(crate) fn write_bytes(field_number: u32, value: &[u8], out: &mut Vec<u8>) -> (r: Result<
    (),
    protobuf::Error,
>)
    requires
        0 < field_number <= FIELD_NUMBER_MAX,
        value@.len() <= u32::MAX,
    ensures
        r is Ok,
        final(out)@ == old(out)@ + bytes_field(field_number, value@),
{
    let mut os = CodedOutputStream::vec(out);
    os.write_bytes(field_number, value)?;
    os.flush()
}

/// An integer that is found takes up at least one byte, and none that is not there.
pub proof fn lemma_varint_len(bytes: Seq<u8>, max_len: nat, last: u8)
    ensures
        varint(bytes, max_len, last) matches Some((_, len)) ==> 0 < len <= bytes.len(),
    decreases max_len,
{
    if bytes.len() > 0 && max_len > 0 && bytes[0] >= 128 {
        lemma_varint_len(bytes.skip(1), (max_len - 1) as nat, last);
    }
}

/// The least number for which `max_len` bytes, the last of them up to `last`, do not suffice.
spec fn varint_end(max_len: nat, last: u8) -> nat
    decreases max_len,
{
    if max_len <= 1 {
        (last + 1) as nat
    } else {
        128 * varint_end((max_len - 1) as nat, last)
    }
}

/// Reading an integer gives back what was written.
proof fn lemma_varint(value: nat, rest: Seq<u8>, max_len: nat, last: u8)
    requires
        max_len > 0,
        last < 128,
        value < varint_end(max_len, last),
    ensures
        varint(varint_bytes(value) + rest, max_len, last) == Some(
            (value, varint_bytes(value).len() as int),
        ),
        0 < varint_bytes(value).len() <= max_len,
    decreases max_len,
{
    let bytes = varint_bytes(value) + rest;
    if value < 128 {
        assert(bytes[0] == value);
    } else {
        let high = varint_bytes(value / 128);
        lemma_varint(value / 128, rest, (max_len - 1) as nat, last);
        assert(bytes.skip(1) =~= high + rest);
        assert(bytes[0] == 128 + value % 128);
        assert(varint_bytes(value).len() == 1 + high.len());
    }
}

/// Reading an unsigned integer of up to 32 bits gives back what was written.
pub proof fn lemma_varint32(value: nat, rest: Seq<u8>)
    requires
        value <= u32::MAX,
    ensures
        varint32(varint_bytes(value) + rest) == Some((value, varint_bytes(value).len() as int)),
        0 < varint_bytes(value).len() <= 5,
{
    reveal_with_fuel(varint_end, 5);
    lemma_varint(value, rest, 5, 0x0f);
}

/// Reading an unsigned integer of up to 64 bits gives back what was written.
pub proof fn lemma_varint64(value: nat, rest: Seq<u8>)
    requires
        value <= u64::MAX,
    ensures
        varint64(varint_bytes(value) + rest) == Some((value, varint_bytes(value).len() as int)),
        0 < varint_bytes(value).len() <= 10,
{
    reveal_with_fuel(varint_end, 10);
    lemma_varint(value, rest, 10, 0x01);
}

/// Reading a signed integer of up to 64 bits gives back what was written.
pub proof fn lemma_int64(value: int, rest: Seq<u8>)
    requires
        i64::MIN <= value <= i64::MAX,
    ensures
        int64(varint_bytes(unsigned(value)) + rest) == Some(
            (value, varint_bytes(unsigned(value)).len() as int),
        ),
        0 < varint_bytes(unsigned(value)).len() <= 10,
{
    lemma_varint64(unsigned(value), rest);
}

/// Reading text gives back what was written.
pub proof fn lemma_text(value: Seq<char>, rest: Seq<u8>)
    requires
        vstd::utf8::encode_utf8(value).len() <= u32::MAX,
    ensures
        ({
            let encoded = vstd::utf8::encode_utf8(value);
            let len = varint_bytes(encoded.len());
            text(len + encoded + rest) == Some((value, (len.len() + encoded.len()) as int))
        }),
{
    let encoded = vstd::utf8::encode_utf8(value);
    let len = varint_bytes(encoded.len());
    let bytes = len + encoded + rest;
    lemma_varint32(encoded.len(), encoded + rest);
    assert(bytes =~= len + (encoded + rest));
    assert(bytes.subrange(len.len() as int, (len.len() + encoded.len()) as int) =~= encoded);
    vstd::utf8::encode_utf8_valid_utf8(value);
    vstd::utf8::encode_utf8_decode_utf8(value);
}

} // verus!
