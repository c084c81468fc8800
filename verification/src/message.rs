//! Messages: sequences of fields, each of them a tag and a value.

use crate::wire;
use crate::wire::DecodeError;
use vstd::prelude::*;
use vstd::slice::slice_subrange;

verus! {

/// The number of levels that messages and groups may be nested deep in a payload.
pub const RECURSION_LIMIT: u32 = 100;

/// How far bytes reach that hold a message or the rest of one.
pub struct Limits {
    /// The number of bytes after which the message ends.
    pub bound: int,
    /// The number of bytes after which positions in the payload do not fit 64 bits any more.
    pub room: int,
    /// The number of levels that messages and groups may be nested deep in the message.
    pub depth: int,
}

impl Limits {
    /// The limits of a payload.
    pub open spec fn payload() -> Limits {
        Limits { bound: u64::MAX as int, room: u64::MAX as int, depth: RECURSION_LIMIT as int }
    }

    /// What is left of the limits after `len` bytes.
    pub open spec fn after(self, len: int) -> Limits {
        Limits { bound: self.bound - len, room: self.room - len, depth: self.depth }
    }

    /// Whether a message of `len` bytes with messages nested `levels` deep in it keeps the limits.
    pub open spec fn fit(self, len: int, levels: int) -> bool {
        len <= self.bound <= self.room && levels <= self.depth
    }

    /// The limits of a message of `len` bytes that starts after `start` bytes.
    pub open spec fn nested(self, start: int, len: int) -> Limits {
        Limits { bound: len, room: self.room - start, depth: self.depth - 1 }
    }
}

/// The limits for reading a message or the rest of one.
#[derive(Clone, Copy, Debug, PartialEq, Eq, Structural)]
pub struct ReadLimits {
    /// The number of bytes after which the message ends.
    pub bound: u64,
    /// The number of bytes after which positions in the payload do not fit 64 bits any more.
    pub room: u64,
    /// The number of levels that messages and groups may be nested deep in the message.
    pub depth: u32,
}

impl View for ReadLimits {
    type V = Limits;

    open spec fn view(&self) -> Limits {
        Limits { bound: self.bound as int, room: self.room as int, depth: self.depth as int }
    }
}

impl ReadLimits {
    /// Returns the limits of a payload.
    pub fn payload() -> (r: ReadLimits)
        ensures
            r@ == Limits::payload(),
    {
        ReadLimits { bound: u64::MAX, room: u64::MAX, depth: RECURSION_LIMIT }
    }

    /// Returns what is left of the limits after `len` bytes.
    pub fn after(self, len: usize) -> (r: ReadLimits)
        requires
            len <= self.bound <= self.room,
        ensures
            r@ == self@.after(len as int),
    {
        ReadLimits {
            bound: self.bound - len as u64,
            room: self.room - len as u64,
            depth: self.depth,
        }
    }
}

/// The fields of a type of message.
pub trait MessageFormat: View + Sized {
    /// The message without any field.
    spec fn empty() -> Self::V;

    /// The message after the field behind `tag` has been read, and the number of bytes that the
    /// field takes up at the start of `bytes`, or why it cannot be read.
    spec fn with_field(message: Self::V, tag: u32, bytes: Seq<u8>, limits: Limits) -> Result<
        (Self::V, int),
        Seq<char>,
    >;

    /// A field takes up no bytes that are not there.
    proof fn lemma_with_field(message: Self::V, tag: u32, bytes: Seq<u8>, limits: Limits)
        ensures
            Self::with_field(message, tag, bytes, limits) matches Ok((_, len)) ==> 0 <= len
                <= bytes.len(),
    ;
}

/// The message after all fields in `bytes` have been read, or why the first field that cannot be
/// read cannot be.
///
/// Where the message is announced to be longer than what is there, the end of the input ends it.
pub open spec fn merged<T: MessageFormat>(message: T::V, bytes: Seq<u8>, limits: Limits) -> Result<
    T::V,
    Seq<char>,
>
    decreases bytes.len(),
{
    if bytes.len() == 0 {
        Ok(message)
    } else {
        match wire::varint32(bytes) {
            None => Err(wire::varint_error(bytes, 5)),
            Some((tag, start)) => {
                proof {
                    wire::lemma_varint_len(bytes, 5, 0x0f);
                    T::lemma_with_field(
                        message,
                        tag as u32,
                        bytes.skip(start),
                        limits.after(start),
                    );
                }
                match T::with_field(message, tag as u32, bytes.skip(start), limits.after(start)) {
                    Err(error) => Err(error),
                    Ok((message, len)) => merged::<T>(
                        message,
                        bytes.skip(start + len),
                        limits.after(start + len),
                    ),
                }
            },
        }
    }
}

/// Messages that can be read.
pub trait Decode: View + Sized {
    /// The message in `bytes`, or why there is none.
    spec fn decoded(bytes: Seq<u8>, limits: Limits) -> Result<Self::V, Seq<char>>;

    /// Reads a message.
    fn decode(bytes: &[u8], limits: ReadLimits) -> (r: Result<Self, DecodeError>)
        requires
            bytes@.len() <= limits.bound <= limits.room,
            limits.depth <= RECURSION_LIMIT,
        ensures
            match Self::decoded(bytes@, limits@) {
                Ok(message) => r is Ok && r->Ok_0@ == message,
                Err(error) => r is Err && r->Err_0@ == error,
            },
    ;
}

/// Messages that can be written.
pub trait Encode: View + Sized {
    /// The message in bytes.
    spec fn encoded(message: Self::V) -> Seq<u8>;

    /// Writes a message. Its length is one that can be written in front of it.
    fn encode(&self) -> (r: Result<Vec<u8>, protobuf::Error>)
        requires
            Self::encoded(self@).len() <= u32::MAX,
        ensures
            r is Ok,
            r->Ok_0@ == Self::encoded(self@),
    ;
}

/// Messages that are read field by field.
pub trait Fields: MessageFormat {
    /// Creates a message without any field.
    fn new() -> (message: Self)
        ensures
            message@ == Self::empty(),
    ;

    /// Reads the field behind `tag` and returns the number of bytes that it takes up.
    fn read_field(&mut self, tag: u32, bytes: &[u8], limits: ReadLimits) -> (r: Result<
        usize,
        DecodeError,
    >)
        requires
            bytes@.len() <= limits.bound <= limits.room,
            limits.depth <= RECURSION_LIMIT,
        ensures
            match Self::with_field(old(self)@, tag, bytes@, limits@) {
                Ok((message, len)) => r is Ok && r->Ok_0 == len && final(self)@ == message,
                Err(error) => r is Err && r->Err_0@ == error,
            },
    ;
}

/// Reads a message field by field.
pub fn merge<T: Fields>(bytes: &[u8], limits: ReadLimits) -> (r: Result<T, DecodeError>)
    requires
        bytes@.len() <= limits.bound <= limits.room,
        limits.depth <= RECURSION_LIMIT,
    ensures
        match merged::<T>(T::empty(), bytes@, limits@) {
            Ok(message) => r is Ok && r->Ok_0@ == message,
            Err(error) => r is Err && r->Err_0@ == error,
        },
{
    let mut message = T::new();
    let mut at: usize = 0;
    assert(bytes@.skip(0) =~= bytes@);
    loop
        invariant
            at <= bytes@.len() <= limits.bound <= limits.room,
            limits.depth <= RECURSION_LIMIT,
            merged::<T>(T::empty(), bytes@, limits@) == merged::<T>(
                message@,
                bytes@.skip(at as int),
                limits@.after(at as int),
            ),
        decreases bytes@.len() - at,
    {
        let unread = slice_subrange(bytes, at, bytes.len());
        let ghost before = message@;
        assert(unread@ =~= bytes@.skip(at as int));
        match wire::read_tag(unread) {
            Err(error) => {
                return Err(error);
            },
            Ok(None) => {
                return Ok(message);
            },
            Ok(Some((tag, start))) => {
                proof {
                    wire::lemma_varint_len(unread@, 5, 0x0f);
                }
                let start: usize = start;
                let value = slice_subrange(unread, start, unread.len());
                let left = limits.after(at + start);
                assert(value@ =~= unread@.skip(start as int));
                assert(left@ == limits@.after(at as int).after(start as int));
                match message.read_field(tag, value, left) {
                    Err(error) => {
                        return Err(error);
                    },
                    Ok(len) => {
                        proof {
                            T::lemma_with_field(before, tag, value@, left@);
                            assert(unread@.skip(start + len) =~= bytes@.skip(at + start + len));
                            assert(limits@.after(at as int).after(start + len) == limits@.after(
                                at + start + len,
                            ));
                        }
                        at = at + start + len;
                    },
                }
            },
        }
    }
}

/// The message that a field holds at the start of `bytes`: its length and its fields. Or why there
/// is none, which is for one thing that it is longer than the message around it.
pub open spec fn submessage<T: Decode>(bytes: Seq<u8>, limits: Limits) -> Result<
    (T::V, int),
    Seq<char>,
> {
    if limits.depth <= 0 {
        Err("Over recursion limit"@)
    } else {
        match wire::varint64(bytes) {
            None => Err(wire::varint_error(bytes, 10)),
            Some((len, start)) => if len > limits.room - start {
                Err("Limit overflow"@)
            } else if len > limits.bound - start {
                Err("New limit must not be greater than current limit"@)
            } else {
                let end = if start + len <= bytes.len() {
                    start + len
                } else {
                    bytes.len() as int
                };
                match T::decoded(bytes.subrange(start, end), limits.nested(start, len as int)) {
                    Ok(message) => Ok((message, end)),
                    Err(error) => Err(error),
                }
            },
        }
    }
}

/// Reads the message that a field holds.
pub fn read_submessage<T: Decode>(bytes: &[u8], limits: ReadLimits) -> (r: Result<
    (T, usize),
    DecodeError,
>)
    requires
        bytes@.len() <= limits.bound <= limits.room,
        limits.depth <= RECURSION_LIMIT,
    ensures
        match submessage::<T>(bytes@, limits@) {
            Ok((message, len)) => r is Ok && r->Ok_0.0@ == message && r->Ok_0.1 == len,
            Err(error) => r is Err && r->Err_0@ == error,
        },
{
    if limits.depth == 0 {
        return Err(DecodeError::new("Over recursion limit"));
    }
    match wire::read_varint64(bytes) {
        Err(error) => Err(error),
        Ok((len, start)) => {
            proof {
                wire::lemma_varint_len(bytes@, 10, 0x01);
            }
            let start: usize = start;
            let left = limits.after(start);
            if len > left.room {
                return Err(DecodeError::new("Limit overflow"));
            }
            if len > left.bound {
                return Err(DecodeError::new("New limit must not be greater than current limit"));
            }
            let available: usize = bytes.len() - start;
            let end: usize = if len <= available as u64 {
                start + len as usize
            } else {
                bytes.len()
            };
            let inner = ReadLimits { bound: len, room: left.room, depth: left.depth - 1 };
            match T::decode(slice_subrange(bytes, start, end), inner) {
                Ok(message) => Ok((message, end)),
                Err(error) => Err(error),
            }
        },
    }
}

/// The message is left as it is by a field that it does not know.
pub open spec fn unchanged<V>(message: V, tag: u32, bytes: Seq<u8>, limits: Limits) -> Result<
    (V, int),
    Seq<char>,
> {
    match wire::unknown_field_len(
        tag,
        bytes,
        limits.bound,
        wire::group(bytes, limits.bound, limits.depth),
    ) {
        Ok(len) => Ok((message, len)),
        Err(error) => Err(error),
    }
}

/// A field that a message does not know takes up no bytes that are not there.
pub proof fn lemma_unchanged<V>(message: V, tag: u32, bytes: Seq<u8>, limits: Limits)
    ensures
        unchanged(message, tag, bytes, limits) matches Ok((_, len)) ==> 0 <= len <= bytes.len(),
{
    wire::lemma_varint_len(bytes, 5, 0x0f);
    wire::lemma_varint_len(bytes, 10, 0x01);
}

/// Skips a field that a message does not know.
pub fn skip_field(tag: u32, bytes: &[u8], limits: ReadLimits) -> (r: Result<usize, DecodeError>)
    requires
        bytes@.len() <= limits.bound,
        limits.depth <= RECURSION_LIMIT,
    ensures
        match unchanged((), tag, bytes@, limits@) {
            Ok((_, len)) => r is Ok && r->Ok_0 == len,
            Err(error) => r is Err && r->Err_0@ == error,
        },
{
    wire::skip_unknown_field(tag, bytes, limits.bound, limits.depth)
}

/// The first field of a message is read before the rest.
pub proof fn lemma_merged_field<T: MessageFormat>(
    message: T::V,
    next: T::V,
    tag: u32,
    value: Seq<u8>,
    rest: Seq<u8>,
    limits: Limits,
)
    requires
        T::with_field(
            message,
            tag,
            value + rest,
            limits.after(wire::varint_bytes(tag as nat).len() as int),
        ) == Ok::<_, Seq<char>>((next, value.len() as int)),
    ensures
        merged::<T>(message, wire::varint_bytes(tag as nat) + value + rest, limits) == merged::<T>(
            next,
            rest,
            limits.after((wire::varint_bytes(tag as nat).len() + value.len()) as int),
        ),
{
    let start = wire::varint_bytes(tag as nat);
    let bytes = start + value + rest;
    wire::lemma_varint32(tag as nat, value + rest);
    assert(bytes =~= start + (value + rest));
    assert(bytes.skip(start.len() as int) =~= value + rest);
    assert(bytes.skip((start.len() + value.len()) as int) =~= rest);
}

/// Reading the message that a field holds gives back what was written, if reading the message
/// alone does.
pub proof fn lemma_submessage<T: Decode>(
    message: T::V,
    encoded: Seq<u8>,
    rest: Seq<u8>,
    limits: Limits,
)
    requires
        encoded.len() <= u32::MAX,
        limits.fit((wire::varint_bytes(encoded.len()).len() + encoded.len()) as int, 1),
        T::decoded(
            encoded,
            limits.nested(
                wire::varint_bytes(encoded.len()).len() as int,
                encoded.len() as int,
            ),
        ) == Ok::<_, Seq<char>>(message),
    ensures
        submessage::<T>(wire::varint_bytes(encoded.len()) + encoded + rest, limits) == Ok::<
            _,
            Seq<char>,
        >((message, (wire::varint_bytes(encoded.len()).len() + encoded.len()) as int)),
{
    let start = wire::varint_bytes(encoded.len());
    let bytes = start + encoded + rest;
    wire::lemma_varint64(encoded.len(), encoded + rest);
    assert(bytes =~= start + (encoded + rest));
    assert(bytes.subrange(start.len() as int, (start.len() + encoded.len()) as int) =~= encoded);
}

} // verus!
