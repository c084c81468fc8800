//! What each field of a message is for: how it is read in front of other fields, whatever has been
//! read before.

use crate::message::{Decode, Limits, MessageFormat};
use crate::proto::{
    EmptyProto, FetchSubscriptionsRequestMessage, FetchSubscriptionsRequestProto,
    FetchSubscriptionsResponseProto, SubscribeRequestMessage, SubscribeRequestProto,
    SubscribeResponseMessage, SubscribeResponseProto, SubscriptionMessage, SubscriptionProto,
    UnsubscribeRequestMessage, UnsubscribeRequestProto,
};
use crate::timestamp::Timestamp;
use crate::uri::{UUriProto, UriMessage};
use crate::{message, wire};
use vstd::prelude::*;

verus! {

/// The limits of a message of `len` bytes in a field whose tag takes up one byte.
pub open spec fn inside(limits: Limits, len: nat) -> Limits {
    Limits {
        bound: len as int,
        room: limits.room - 1 - wire::varint_bytes(len).len(),
        depth: limits.depth - 1,
    }
}

/// A payload may be as long as positions can be counted, with messages and groups nested a hundred
/// levels deep in it.
pub proof fn law_limits_of_payload()
    ensures
        Limits::payload().bound == 0xffff_ffff_ffff_ffff,
        Limits::payload().room == 0xffff_ffff_ffff_ffff,
        Limits::payload().depth == 100,
{
}

/// No bytes add nothing to a message.
pub proof fn law_end_of_message<T: MessageFormat>(before: T::V, limits: Limits)
    ensures
        message::merged::<T>(before, seq![], limits) == Ok::<_, Seq<char>>(before),
{
}

/// A message whose next tag cannot be read cannot be read.
pub proof fn law_malformed_tag<T: MessageFormat>(before: T::V, bytes: Seq<u8>, limits: Limits)
    requires
        bytes.len() > 0,
        wire::varint32(bytes) is None,
    ensures
        message::merged::<T>(before, bytes, limits) is Err,
        bytes.len() < 5 ==> message::merged::<T>(before, bytes, limits)->Err_0 == "Unexpected EOF"@,
        bytes.len() >= 5 ==> message::merged::<T>(before, bytes, limits)->Err_0
            == "Incorrect varint"@,
{
}

/// A message is read field by field: one that cannot be read ends it, and what one has been read
/// as goes on.
pub proof fn law_field_by_field<T: MessageFormat>(
    before: T::V,
    tag: u32,
    start: int,
    bytes: Seq<u8>,
    limits: Limits,
)
    requires
        bytes.len() > 0,
        wire::varint32(bytes) == Some((tag as nat, start)),
    ensures
        T::with_field(before, tag, bytes.skip(start), limits.after(start)) matches Err(error)
            ==> message::merged::<T>(before, bytes, limits) == Err::<T::V, _>(error),
        T::with_field(before, tag, bytes.skip(start), limits.after(start)) matches Ok((after, len))
            ==> message::merged::<T>(before, bytes, limits) == message::merged::<T>(
            after,
            bytes.skip(start + len),
            limits.after(start + len),
        ),
        limits.after(start).bound == limits.bound - start,
        limits.after(start).room == limits.room - start,
        limits.after(start).depth == limits.depth,
{
}

/// A message in a field may be as long as the message around it goes on. Where it is announced to
/// be longer than the input, it ends with the input.
pub proof fn law_length_of_submessage<S: Decode>(
    bytes: Seq<u8>,
    len: nat,
    start: int,
    limits: Limits,
)
    requires
        wire::varint64(bytes) == Some((len, start)),
        limits.depth > 0,
    ensures
        start + len > limits.room ==> message::submessage::<S>(bytes, limits) == Err::<
            (S::V, int),
            _,
        >("Limit overflow"@),
        limits.bound < start + len <= limits.room ==> message::submessage::<S>(bytes, limits)
            == Err::<(S::V, int), _>("New limit must not be greater than current limit"@),
        ({
            let nested = Limits {
                bound: len as int,
                room: limits.room - start,
                depth: limits.depth - 1,
            };
            let end = if start + len < bytes.len() {
                start + len
            } else {
                bytes.len() as int
            };
            start + len <= limits.bound <= limits.room ==> match S::decoded(
                bytes.subrange(start, end),
                nested,
            ) {
                Ok(value) => message::submessage::<S>(bytes, limits) == Ok::<_, Seq<char>>(
                    (value, end),
                ),
                Err(error) => message::submessage::<S>(bytes, limits) == Err::<(S::V, int), _>(
                    error,
                ),
            }
        }),
{
}

/// Messages may not be nested deeper than the limit.
pub proof fn law_depth_of_submessage<S: Decode>(bytes: Seq<u8>, limits: Limits)
    requires
        limits.depth <= 0,
    ensures
        message::submessage::<S>(bytes, limits) == Err::<(S::V, int), _>("Over recursion limit"@),
{
}

/// A message whose length cannot be read cannot be read.
pub proof fn law_malformed_length<S: Decode>(bytes: Seq<u8>, limits: Limits)
    requires
        limits.depth > 0,
        wire::varint64(bytes) is None,
    ensures
        message::submessage::<S>(bytes, limits) is Err,
        bytes.len() < 10 ==> message::submessage::<S>(bytes, limits)->Err_0 == "Unexpected EOF"@,
        bytes.len() >= 10 ==> message::submessage::<S>(bytes, limits)->Err_0
            == "Incorrect varint"@,
{
}

/// An integer that a message does not know is skipped and leaves the message as it is.
pub proof fn law_unknown_integer<V>(
    before: V,
    number: u32,
    value: u64,
    rest: Seq<u8>,
    limits: Limits,
)
    requires
        0 < number <= 0x1fff_ffff,
    ensures
        ({
            let integer = wire::varint_bytes(value as nat);
            let result = message::unchanged(before, (number * 8) as u32, integer + rest, limits);
            result == Ok::<_, Seq<char>>((before, integer.len() as int))
        }),
{
    wire::lemma_varint64(value as nat, rest);
}

/// Bytes behind their length that a message does not know are skipped and leave the message as it
/// is.
pub proof fn law_unknown_bytes<V>(
    before: V,
    number: u32,
    content: Seq<u8>,
    rest: Seq<u8>,
    limits: Limits,
)
    requires
        0 < number <= 0x1fff_ffff,
        content.len() <= u32::MAX,
    ensures
        ({
            let bytes = wire::varint_bytes(content.len()) + content;
            let result = message::unchanged(before, (number * 8 + 2) as u32, bytes + rest, limits);
            result == Ok::<_, Seq<char>>((before, bytes.len() as int))
        }),
{
    let length = wire::varint_bytes(content.len());
    wire::lemma_varint32(content.len(), content + rest);
    assert(length + content + rest =~= length + (content + rest));
}

/// Eight or four bytes that a message does not know are skipped and leave the message as it is.
/// What no field starts with makes the message fail.
pub proof fn law_unknown_wire_types<V>(before: V, number: u32, bytes: Seq<u8>, limits: Limits)
    requires
        0 < number <= 0x1fff_ffff,
    ensures
        bytes.len() >= 8 ==> message::unchanged(before, (number * 8 + 1) as u32, bytes, limits)
            == Ok::<_, Seq<char>>((before, 8int)),
        bytes.len() >= 4 ==> message::unchanged(before, (number * 8 + 5) as u32, bytes, limits)
            == Ok::<_, Seq<char>>((before, 4int)),
        message::unchanged(before, (number * 8 + 4) as u32, bytes, limits) is Err,
        message::unchanged(before, (number * 8 + 6) as u32, bytes, limits) is Err,
        message::unchanged(before, (number * 8 + 7) as u32, bytes, limits) is Err,
{
}

/// The authority name in an address is field number 1. It takes the place of an earlier one.
pub proof fn law_uri_authority_name(
    before: UriMessage,
    value: Seq<char>,
    rest: Seq<u8>,
    limits: Limits,
)
    requires
        vstd::utf8::encode_utf8(value).len() <= u32::MAX,
    ensures
        message::merged::<UUriProto>(before, wire::text_field(1, value) + rest, limits)
            == message::merged::<UUriProto>(
            UriMessage { authority_name: value, ..before },
            rest,
            limits.after(wire::text_field(1, value).len() as int),
        ),
{
    let encoded = vstd::utf8::encode_utf8(value);
    let content = wire::varint_bytes(encoded.len()) + encoded;
    assert(wire::text_field(1, value) =~= wire::varint_bytes(10) + content);
    wire::lemma_text(value, rest);
    message::lemma_merged_field::<UUriProto>(
        before,
        UriMessage { authority_name: value, ..before },
        10,
        content,
        rest,
        limits,
    );
}

/// The entity in an address is field number 2. It takes the place of an earlier one.
pub proof fn law_uri_ue_id(
    before: UriMessage,
    value: u32,
    rest: Seq<u8>,
    limits: Limits,
)
    ensures
        message::merged::<UUriProto>(
            before,
            wire::integer_field(2, value as int) + rest,
            limits,
        ) == message::merged::<UUriProto>(
            UriMessage { ue_id: value, ..before },
            rest,
            limits.after(wire::integer_field(2, value as int).len() as int),
        ),
{
    wire::lemma_varint32(value as nat, rest);
    message::lemma_merged_field::<UUriProto>(
        before,
        UriMessage { ue_id: value, ..before },
        16,
        wire::varint_bytes(wire::unsigned(value as int)),
        rest,
        limits,
    );
}

/// The version in an address is field number 3. It takes the place of an earlier one.
pub proof fn law_uri_ue_version_major(
    before: UriMessage,
    value: u32,
    rest: Seq<u8>,
    limits: Limits,
)
    ensures
        message::merged::<UUriProto>(
            before,
            wire::integer_field(3, value as int) + rest,
            limits,
        ) == message::merged::<UUriProto>(
            UriMessage { ue_version_major: value, ..before },
            rest,
            limits.after(wire::integer_field(3, value as int).len() as int),
        ),
{
    wire::lemma_varint32(value as nat, rest);
    message::lemma_merged_field::<UUriProto>(
        before,
        UriMessage { ue_version_major: value, ..before },
        24,
        wire::varint_bytes(wire::unsigned(value as int)),
        rest,
        limits,
    );
}

/// The resource in an address is field number 4. It takes the place of an earlier one.
pub proof fn law_uri_resource_id(
    before: UriMessage,
    value: u32,
    rest: Seq<u8>,
    limits: Limits,
)
    ensures
        message::merged::<UUriProto>(
            before,
            wire::integer_field(4, value as int) + rest,
            limits,
        ) == message::merged::<UUriProto>(
            UriMessage { resource_id: value, ..before },
            rest,
            limits.after(wire::integer_field(4, value as int).len() as int),
        ),
{
    wire::lemma_varint32(value as nat, rest);
    message::lemma_merged_field::<UUriProto>(
        before,
        UriMessage { resource_id: value, ..before },
        32,
        wire::varint_bytes(wire::unsigned(value as int)),
        rest,
        limits,
    );
}

/// A tag decides which field of an address is read, however the number or the length behind it is
/// written. A field that cannot be read makes it fail, and any other field is one that it does not
/// know.
pub proof fn law_uri_fields(
    before: UriMessage,
    tag: u32,
    bytes: Seq<u8>,
    limits: Limits,
)
    ensures
        ({
            let result = UUriProto::with_field(before, tag, bytes, limits);
            &&& tag == 10 ==> match wire::text(bytes) {
                Some((value, len)) => result is Ok && result->Ok_0.1 == len
                    && result->Ok_0.0 == (UriMessage { authority_name: value, ..before }),
                None => result is Err && result->Err_0 == wire::text_error(bytes, limits.bound),
            }
            &&& tag == 16 ==> match wire::varint32(bytes) {
                Some((value, len)) => result is Ok && result->Ok_0.1 == len
                    && result->Ok_0.0 == (UriMessage { ue_id: value as u32, ..before }),
                None => result is Err && result->Err_0 == wire::varint_error(bytes, 5),
            }
            &&& tag == 24 ==> match wire::varint32(bytes) {
                Some((value, len)) => result is Ok && result->Ok_0.1 == len
                    && result->Ok_0.0 == (UriMessage { ue_version_major: value as u32, ..before }),
                None => result is Err && result->Err_0 == wire::varint_error(bytes, 5),
            }
            &&& tag == 32 ==> match wire::varint32(bytes) {
                Some((value, len)) => result is Ok && result->Ok_0.1 == len
                    && result->Ok_0.0 == (UriMessage { resource_id: value as u32, ..before }),
                None => result is Err && result->Err_0 == wire::varint_error(bytes, 5),
            }
            &&& tag != 10 && tag != 16 && tag != 24 && tag != 32
                ==> result == message::unchanged(before, tag, bytes, limits)
        }),
{
}

/// Reading an address starts from one without any field.
pub proof fn law_uri_starts_empty(bytes: Seq<u8>, limits: Limits)
    ensures
        UUriProto::decoded(bytes, limits) == message::merged::<
            UUriProto,
        >(UUriProto::empty(), bytes, limits),
        UUriProto::empty().authority_name.len() == 0,
        UUriProto::empty().ue_id == 0,
        UUriProto::empty().ue_version_major == 0,
        UUriProto::empty().resource_id == 0,
{
}

/// The topic in a request to subscribe is field number 1. It takes the place of an earlier one.
pub proof fn law_subscribe_request_topic(
    before: SubscribeRequestMessage,
    value: UriMessage,
    encoded: Seq<u8>,
    rest: Seq<u8>,
    limits: Limits,
)
    requires
        encoded.len() <= u32::MAX,
        limits.fit(wire::bytes_field(1, encoded).len() as int, 1),
        UUriProto::decoded(encoded, inside(limits, encoded.len())) == Ok::<
            _,
            Seq<char>,
        >(value),
    ensures
        message::merged::<SubscribeRequestProto>(
            before,
            wire::bytes_field(1, encoded) + rest,
            limits,
        ) == message::merged::<SubscribeRequestProto>(
            SubscribeRequestMessage { topic: Some(value), ..before },
            rest,
            limits.after(wire::bytes_field(1, encoded).len() as int),
        ),
{
    let start = wire::varint_bytes(10);
    let content = wire::varint_bytes(encoded.len()) + encoded;
    assert(wire::bytes_field(1, encoded) =~= start + content);
    let left = limits.after(start.len() as int);
    message::lemma_submessage::<UUriProto>(value, encoded, rest, left);
    message::lemma_merged_field::<SubscribeRequestProto>(
        before,
        SubscribeRequestMessage { topic: Some(value), ..before },
        10,
        content,
        rest,
        limits,
    );
}

/// The expiration in a request to subscribe is field number 2. It takes the place of an earlier
/// one.
pub proof fn law_subscribe_request_expiration(
    before: SubscribeRequestMessage,
    value: Timestamp,
    encoded: Seq<u8>,
    rest: Seq<u8>,
    limits: Limits,
)
    requires
        encoded.len() <= u32::MAX,
        limits.fit(wire::bytes_field(2, encoded).len() as int, 1),
        Timestamp::decoded(encoded, inside(limits, encoded.len())) == Ok::<
            _,
            Seq<char>,
        >(value),
    ensures
        message::merged::<SubscribeRequestProto>(
            before,
            wire::bytes_field(2, encoded) + rest,
            limits,
        ) == message::merged::<SubscribeRequestProto>(
            SubscribeRequestMessage { expiration: Some(value), ..before },
            rest,
            limits.after(wire::bytes_field(2, encoded).len() as int),
        ),
{
    let start = wire::varint_bytes(18);
    let content = wire::varint_bytes(encoded.len()) + encoded;
    assert(wire::bytes_field(2, encoded) =~= start + content);
    let left = limits.after(start.len() as int);
    message::lemma_submessage::<Timestamp>(value, encoded, rest, left);
    message::lemma_merged_field::<SubscribeRequestProto>(
        before,
        SubscribeRequestMessage { expiration: Some(value), ..before },
        18,
        content,
        rest,
        limits,
    );
}

/// The sample period in a request to subscribe is field number 3. It takes the place of an earlier
/// one.
pub proof fn law_subscribe_request_sample_period(
    before: SubscribeRequestMessage,
    value: u32,
    rest: Seq<u8>,
    limits: Limits,
)
    ensures
        message::merged::<SubscribeRequestProto>(
            before,
            wire::integer_field(3, value as int) + rest,
            limits,
        ) == message::merged::<SubscribeRequestProto>(
            SubscribeRequestMessage { sample_period: Some(value), ..before },
            rest,
            limits.after(wire::integer_field(3, value as int).len() as int),
        ),
{
    wire::lemma_varint32(value as nat, rest);
    message::lemma_merged_field::<SubscribeRequestProto>(
        before,
        SubscribeRequestMessage { sample_period: Some(value), ..before },
        24,
        wire::varint_bytes(wire::unsigned(value as int)),
        rest,
        limits,
    );
}

/// A tag decides which field of a request to subscribe is read, however the number or the length
/// behind it is written. A field that cannot be read makes it fail, and any other field is one that
/// it does not know.
pub proof fn law_subscribe_request_fields(
    before: SubscribeRequestMessage,
    tag: u32,
    bytes: Seq<u8>,
    limits: Limits,
)
    ensures
        ({
            let result = SubscribeRequestProto::with_field(before, tag, bytes, limits);
            &&& tag == 10 ==> match message::submessage::<UUriProto>(bytes, limits) {
                Ok((value, len)) => result is Ok && result->Ok_0.1 == len
                    && result->Ok_0.0 == (SubscribeRequestMessage { topic: Some(value), ..before }),
                Err(error) => result is Err && result->Err_0 == error,
            }
            &&& tag == 18 ==> match message::submessage::<Timestamp>(bytes, limits) {
                Ok((value, len)) => result is Ok && result->Ok_0.1 == len
                    && result->Ok_0.0 == (SubscribeRequestMessage {
                        expiration: Some(value),
                        ..before
                    }),
                Err(error) => result is Err && result->Err_0 == error,
            }
            &&& tag == 24 ==> match wire::varint32(bytes) {
                Some((value, len)) => result is Ok && result->Ok_0.1 == len
                    && result->Ok_0.0 == (SubscribeRequestMessage {
                        sample_period: Some(value as u32),
                        ..before
                    }),
                None => result is Err && result->Err_0 == wire::varint_error(bytes, 5),
            }
            &&& tag != 10 && tag != 18 && tag != 24
                ==> result == message::unchanged(before, tag, bytes, limits)
        }),
{
}

/// Reading a request to subscribe starts from one without any field.
pub proof fn law_subscribe_request_starts_empty(bytes: Seq<u8>, limits: Limits)
    ensures
        SubscribeRequestProto::decoded(bytes, limits) == message::merged::<
            SubscribeRequestProto,
        >(SubscribeRequestProto::empty(), bytes, limits),
        SubscribeRequestProto::empty().topic is None,
        SubscribeRequestProto::empty().expiration is None,
        SubscribeRequestProto::empty().sample_period is None,
{
}

/// The topic in a request to unsubscribe is field number 1. It takes the place of an earlier one.
pub proof fn law_unsubscribe_request_topic(
    before: UnsubscribeRequestMessage,
    value: UriMessage,
    encoded: Seq<u8>,
    rest: Seq<u8>,
    limits: Limits,
)
    requires
        encoded.len() <= u32::MAX,
        limits.fit(wire::bytes_field(1, encoded).len() as int, 1),
        UUriProto::decoded(encoded, inside(limits, encoded.len())) == Ok::<
            _,
            Seq<char>,
        >(value),
    ensures
        message::merged::<UnsubscribeRequestProto>(
            before,
            wire::bytes_field(1, encoded) + rest,
            limits,
        ) == message::merged::<UnsubscribeRequestProto>(
            UnsubscribeRequestMessage { topic: Some(value) },
            rest,
            limits.after(wire::bytes_field(1, encoded).len() as int),
        ),
{
    let start = wire::varint_bytes(10);
    let content = wire::varint_bytes(encoded.len()) + encoded;
    assert(wire::bytes_field(1, encoded) =~= start + content);
    let left = limits.after(start.len() as int);
    message::lemma_submessage::<UUriProto>(value, encoded, rest, left);
    message::lemma_merged_field::<UnsubscribeRequestProto>(
        before,
        UnsubscribeRequestMessage { topic: Some(value) },
        10,
        content,
        rest,
        limits,
    );
}

/// A tag decides which field of a request to unsubscribe is read, however the number or the length
/// behind it is written. A field that cannot be read makes it fail, and any other field is one that
/// it does not know.
pub proof fn law_unsubscribe_request_fields(
    before: UnsubscribeRequestMessage,
    tag: u32,
    bytes: Seq<u8>,
    limits: Limits,
)
    ensures
        ({
            let result = UnsubscribeRequestProto::with_field(before, tag, bytes, limits);
            &&& tag == 10 ==> match message::submessage::<UUriProto>(bytes, limits) {
                Ok((value, len)) => result is Ok && result->Ok_0.1 == len
                    && result->Ok_0.0 == (UnsubscribeRequestMessage { topic: Some(value) }),
                Err(error) => result is Err && result->Err_0 == error,
            }
            &&& tag != 10
                ==> result == message::unchanged(before, tag, bytes, limits)
        }),
{
}

/// Reading a request to unsubscribe starts from one without any field.
pub proof fn law_unsubscribe_request_starts_empty(bytes: Seq<u8>, limits: Limits)
    ensures
        UnsubscribeRequestProto::decoded(bytes, limits) == message::merged::<
            UnsubscribeRequestProto,
        >(UnsubscribeRequestProto::empty(), bytes, limits),
        UnsubscribeRequestProto::empty().topic is None,
{
}

/// The topic in a response to a request to subscribe is field number 1. It takes the place of an
/// earlier one.
pub proof fn law_subscribe_response_topic(
    before: SubscribeResponseMessage,
    value: UriMessage,
    encoded: Seq<u8>,
    rest: Seq<u8>,
    limits: Limits,
)
    requires
        encoded.len() <= u32::MAX,
        limits.fit(wire::bytes_field(1, encoded).len() as int, 1),
        UUriProto::decoded(encoded, inside(limits, encoded.len())) == Ok::<
            _,
            Seq<char>,
        >(value),
    ensures
        message::merged::<SubscribeResponseProto>(
            before,
            wire::bytes_field(1, encoded) + rest,
            limits,
        ) == message::merged::<SubscribeResponseProto>(
            SubscribeResponseMessage { topic: Some(value), ..before },
            rest,
            limits.after(wire::bytes_field(1, encoded).len() as int),
        ),
{
    let start = wire::varint_bytes(10);
    let content = wire::varint_bytes(encoded.len()) + encoded;
    assert(wire::bytes_field(1, encoded) =~= start + content);
    let left = limits.after(start.len() as int);
    message::lemma_submessage::<UUriProto>(value, encoded, rest, left);
    message::lemma_merged_field::<SubscribeResponseProto>(
        before,
        SubscribeResponseMessage { topic: Some(value), ..before },
        10,
        content,
        rest,
        limits,
    );
}

/// The status in a response to a request to subscribe is field number 2. It takes the place of an
/// earlier one.
pub proof fn law_subscribe_response_status(
    before: SubscribeResponseMessage,
    value: i32,
    rest: Seq<u8>,
    limits: Limits,
)
    ensures
        message::merged::<SubscribeResponseProto>(
            before,
            wire::integer_field(2, value as int) + rest,
            limits,
        ) == message::merged::<SubscribeResponseProto>(
            SubscribeResponseMessage { status: value, ..before },
            rest,
            limits.after(wire::integer_field(2, value as int).len() as int),
        ),
{
    wire::lemma_int64(value as int, rest);
    message::lemma_merged_field::<SubscribeResponseProto>(
        before,
        SubscribeResponseMessage { status: value, ..before },
        16,
        wire::varint_bytes(wire::unsigned(value as int)),
        rest,
        limits,
    );
}

/// A tag decides which field of a response to a request to subscribe is read, however the number or
/// the length behind it is written. A field that cannot be read makes it fail, and any other field
/// is one that it does not know.
pub proof fn law_subscribe_response_fields(
    before: SubscribeResponseMessage,
    tag: u32,
    bytes: Seq<u8>,
    limits: Limits,
)
    ensures
        ({
            let result = SubscribeResponseProto::with_field(before, tag, bytes, limits);
            &&& tag == 10 ==> match message::submessage::<UUriProto>(bytes, limits) {
                Ok((value, len)) => result is Ok && result->Ok_0.1 == len
                    && result->Ok_0.0 == (SubscribeResponseMessage {
                        topic: Some(value),
                        ..before
                    }),
                Err(error) => result is Err && result->Err_0 == error,
            }
            &&& tag == 16 ==> match wire::int32(bytes) {
                Some((value, len)) => result is Ok && result->Ok_0.1 == len
                    && result->Ok_0.0 == (SubscribeResponseMessage {
                        status: value as i32,
                        ..before
                    }),
                None => result is Err && result->Err_0 == wire::int32_error(bytes),
            }
            &&& tag != 10 && tag != 16
                ==> result == message::unchanged(before, tag, bytes, limits)
        }),
{
}

/// Reading a response to a request to subscribe starts from one without any field.
pub proof fn law_subscribe_response_starts_empty(bytes: Seq<u8>, limits: Limits)
    ensures
        SubscribeResponseProto::decoded(bytes, limits) == message::merged::<
            SubscribeResponseProto,
        >(SubscribeResponseProto::empty(), bytes, limits),
        SubscribeResponseProto::empty().topic is None,
        SubscribeResponseProto::empty().status == 0,
{
}

/// The topic in a subscription is field number 1. It takes the place of an earlier one.
pub proof fn law_subscription_topic(
    before: SubscriptionMessage,
    value: UriMessage,
    encoded: Seq<u8>,
    rest: Seq<u8>,
    limits: Limits,
)
    requires
        encoded.len() <= u32::MAX,
        limits.fit(wire::bytes_field(1, encoded).len() as int, 1),
        UUriProto::decoded(encoded, inside(limits, encoded.len())) == Ok::<
            _,
            Seq<char>,
        >(value),
    ensures
        message::merged::<SubscriptionProto>(
            before,
            wire::bytes_field(1, encoded) + rest,
            limits,
        ) == message::merged::<SubscriptionProto>(
            SubscriptionMessage { topic: Some(value), ..before },
            rest,
            limits.after(wire::bytes_field(1, encoded).len() as int),
        ),
{
    let start = wire::varint_bytes(10);
    let content = wire::varint_bytes(encoded.len()) + encoded;
    assert(wire::bytes_field(1, encoded) =~= start + content);
    let left = limits.after(start.len() as int);
    message::lemma_submessage::<UUriProto>(value, encoded, rest, left);
    message::lemma_merged_field::<SubscriptionProto>(
        before,
        SubscriptionMessage { topic: Some(value), ..before },
        10,
        content,
        rest,
        limits,
    );
}

/// The subscriber in a subscription is field number 2. It takes the place of an earlier one.
pub proof fn law_subscription_subscriber(
    before: SubscriptionMessage,
    value: UriMessage,
    encoded: Seq<u8>,
    rest: Seq<u8>,
    limits: Limits,
)
    requires
        encoded.len() <= u32::MAX,
        limits.fit(wire::bytes_field(2, encoded).len() as int, 1),
        UUriProto::decoded(encoded, inside(limits, encoded.len())) == Ok::<
            _,
            Seq<char>,
        >(value),
    ensures
        message::merged::<SubscriptionProto>(
            before,
            wire::bytes_field(2, encoded) + rest,
            limits,
        ) == message::merged::<SubscriptionProto>(
            SubscriptionMessage { subscriber: Some(value), ..before },
            rest,
            limits.after(wire::bytes_field(2, encoded).len() as int),
        ),
{
    let start = wire::varint_bytes(18);
    let content = wire::varint_bytes(encoded.len()) + encoded;
    assert(wire::bytes_field(2, encoded) =~= start + content);
    let left = limits.after(start.len() as int);
    message::lemma_submessage::<UUriProto>(value, encoded, rest, left);
    message::lemma_merged_field::<SubscriptionProto>(
        before,
        SubscriptionMessage { subscriber: Some(value), ..before },
        18,
        content,
        rest,
        limits,
    );
}

/// The status in a subscription is field number 3. It takes the place of an earlier one.
pub proof fn law_subscription_status(
    before: SubscriptionMessage,
    value: i32,
    rest: Seq<u8>,
    limits: Limits,
)
    ensures
        message::merged::<SubscriptionProto>(
            before,
            wire::integer_field(3, value as int) + rest,
            limits,
        ) == message::merged::<SubscriptionProto>(
            SubscriptionMessage { status: value, ..before },
            rest,
            limits.after(wire::integer_field(3, value as int).len() as int),
        ),
{
    wire::lemma_int64(value as int, rest);
    message::lemma_merged_field::<SubscriptionProto>(
        before,
        SubscriptionMessage { status: value, ..before },
        24,
        wire::varint_bytes(wire::unsigned(value as int)),
        rest,
        limits,
    );
}

/// The expiration in a subscription is field number 4. It takes the place of an earlier one.
pub proof fn law_subscription_expiration(
    before: SubscriptionMessage,
    value: Timestamp,
    encoded: Seq<u8>,
    rest: Seq<u8>,
    limits: Limits,
)
    requires
        encoded.len() <= u32::MAX,
        limits.fit(wire::bytes_field(4, encoded).len() as int, 1),
        Timestamp::decoded(encoded, inside(limits, encoded.len())) == Ok::<
            _,
            Seq<char>,
        >(value),
    ensures
        message::merged::<SubscriptionProto>(
            before,
            wire::bytes_field(4, encoded) + rest,
            limits,
        ) == message::merged::<SubscriptionProto>(
            SubscriptionMessage { expiration: Some(value), ..before },
            rest,
            limits.after(wire::bytes_field(4, encoded).len() as int),
        ),
{
    let start = wire::varint_bytes(34);
    let content = wire::varint_bytes(encoded.len()) + encoded;
    assert(wire::bytes_field(4, encoded) =~= start + content);
    let left = limits.after(start.len() as int);
    message::lemma_submessage::<Timestamp>(value, encoded, rest, left);
    message::lemma_merged_field::<SubscriptionProto>(
        before,
        SubscriptionMessage { expiration: Some(value), ..before },
        34,
        content,
        rest,
        limits,
    );
}

/// The sample period in a subscription is field number 5. It takes the place of an earlier one.
pub proof fn law_subscription_sample_period(
    before: SubscriptionMessage,
    value: u32,
    rest: Seq<u8>,
    limits: Limits,
)
    ensures
        message::merged::<SubscriptionProto>(
            before,
            wire::integer_field(5, value as int) + rest,
            limits,
        ) == message::merged::<SubscriptionProto>(
            SubscriptionMessage { sample_period: Some(value), ..before },
            rest,
            limits.after(wire::integer_field(5, value as int).len() as int),
        ),
{
    wire::lemma_varint32(value as nat, rest);
    message::lemma_merged_field::<SubscriptionProto>(
        before,
        SubscriptionMessage { sample_period: Some(value), ..before },
        40,
        wire::varint_bytes(wire::unsigned(value as int)),
        rest,
        limits,
    );
}

/// A tag decides which field of a subscription is read, however the number or the length behind it
/// is written. A field that cannot be read makes it fail, and any other field is one that it does
/// not know.
pub proof fn law_subscription_fields(
    before: SubscriptionMessage,
    tag: u32,
    bytes: Seq<u8>,
    limits: Limits,
)
    ensures
        ({
            let result = SubscriptionProto::with_field(before, tag, bytes, limits);
            &&& tag == 10 ==> match message::submessage::<UUriProto>(bytes, limits) {
                Ok((value, len)) => result is Ok && result->Ok_0.1 == len
                    && result->Ok_0.0 == (SubscriptionMessage { topic: Some(value), ..before }),
                Err(error) => result is Err && result->Err_0 == error,
            }
            &&& tag == 18 ==> match message::submessage::<UUriProto>(bytes, limits) {
                Ok((value, len)) => result is Ok && result->Ok_0.1 == len
                    && result->Ok_0.0 == (SubscriptionMessage {
                        subscriber: Some(value),
                        ..before
                    }),
                Err(error) => result is Err && result->Err_0 == error,
            }
            &&& tag == 24 ==> match wire::int32(bytes) {
                Some((value, len)) => result is Ok && result->Ok_0.1 == len
                    && result->Ok_0.0 == (SubscriptionMessage { status: value as i32, ..before }),
                None => result is Err && result->Err_0 == wire::int32_error(bytes),
            }
            &&& tag == 34 ==> match message::submessage::<Timestamp>(bytes, limits) {
                Ok((value, len)) => result is Ok && result->Ok_0.1 == len
                    && result->Ok_0.0 == (SubscriptionMessage {
                        expiration: Some(value),
                        ..before
                    }),
                Err(error) => result is Err && result->Err_0 == error,
            }
            &&& tag == 40 ==> match wire::varint32(bytes) {
                Some((value, len)) => result is Ok && result->Ok_0.1 == len
                    && result->Ok_0.0 == (SubscriptionMessage {
                        sample_period: Some(value as u32),
                        ..before
                    }),
                None => result is Err && result->Err_0 == wire::varint_error(bytes, 5),
            }
            &&& tag != 10 && tag != 18 && tag != 24 && tag != 34 && tag != 40
                ==> result == message::unchanged(before, tag, bytes, limits)
        }),
{
}

/// Reading a subscription starts from one without any field.
pub proof fn law_subscription_starts_empty(bytes: Seq<u8>, limits: Limits)
    ensures
        SubscriptionProto::decoded(bytes, limits) == message::merged::<
            SubscriptionProto,
        >(SubscriptionProto::empty(), bytes, limits),
        SubscriptionProto::empty().topic is None,
        SubscriptionProto::empty().subscriber is None,
        SubscriptionProto::empty().status == 0,
        SubscriptionProto::empty().expiration is None,
        SubscriptionProto::empty().sample_period is None,
{
}

/// The filter for topics in a request for subscriptions is field number 1. It takes the place of an
/// earlier one.
pub proof fn law_fetch_request_topic_filter(
    before: FetchSubscriptionsRequestMessage,
    value: UriMessage,
    encoded: Seq<u8>,
    rest: Seq<u8>,
    limits: Limits,
)
    requires
        encoded.len() <= u32::MAX,
        limits.fit(wire::bytes_field(1, encoded).len() as int, 1),
        UUriProto::decoded(encoded, inside(limits, encoded.len())) == Ok::<
            _,
            Seq<char>,
        >(value),
    ensures
        message::merged::<FetchSubscriptionsRequestProto>(
            before,
            wire::bytes_field(1, encoded) + rest,
            limits,
        ) == message::merged::<FetchSubscriptionsRequestProto>(
            FetchSubscriptionsRequestMessage { topic_filter: Some(value), ..before },
            rest,
            limits.after(wire::bytes_field(1, encoded).len() as int),
        ),
{
    let start = wire::varint_bytes(10);
    let content = wire::varint_bytes(encoded.len()) + encoded;
    assert(wire::bytes_field(1, encoded) =~= start + content);
    let left = limits.after(start.len() as int);
    message::lemma_submessage::<UUriProto>(value, encoded, rest, left);
    message::lemma_merged_field::<FetchSubscriptionsRequestProto>(
        before,
        FetchSubscriptionsRequestMessage { topic_filter: Some(value), ..before },
        10,
        content,
        rest,
        limits,
    );
}

/// The filter for subscribers in a request for subscriptions is field number 2. It takes the place
/// of an earlier one.
pub proof fn law_fetch_request_subscriber_filter(
    before: FetchSubscriptionsRequestMessage,
    value: UriMessage,
    encoded: Seq<u8>,
    rest: Seq<u8>,
    limits: Limits,
)
    requires
        encoded.len() <= u32::MAX,
        limits.fit(wire::bytes_field(2, encoded).len() as int, 1),
        UUriProto::decoded(encoded, inside(limits, encoded.len())) == Ok::<
            _,
            Seq<char>,
        >(value),
    ensures
        message::merged::<FetchSubscriptionsRequestProto>(
            before,
            wire::bytes_field(2, encoded) + rest,
            limits,
        ) == message::merged::<FetchSubscriptionsRequestProto>(
            FetchSubscriptionsRequestMessage { subscriber_filter: Some(value), ..before },
            rest,
            limits.after(wire::bytes_field(2, encoded).len() as int),
        ),
{
    let start = wire::varint_bytes(18);
    let content = wire::varint_bytes(encoded.len()) + encoded;
    assert(wire::bytes_field(2, encoded) =~= start + content);
    let left = limits.after(start.len() as int);
    message::lemma_submessage::<UUriProto>(value, encoded, rest, left);
    message::lemma_merged_field::<FetchSubscriptionsRequestProto>(
        before,
        FetchSubscriptionsRequestMessage { subscriber_filter: Some(value), ..before },
        18,
        content,
        rest,
        limits,
    );
}

/// A tag decides which field of a request for subscriptions is read, however the number or the
/// length behind it is written. A field that cannot be read makes it fail, and any other field is
/// one that it does not know.
pub proof fn law_fetch_request_fields(
    before: FetchSubscriptionsRequestMessage,
    tag: u32,
    bytes: Seq<u8>,
    limits: Limits,
)
    ensures
        ({
            let result = FetchSubscriptionsRequestProto::with_field(before, tag, bytes, limits);
            &&& tag == 10 ==> match message::submessage::<UUriProto>(bytes, limits) {
                Ok((value, len)) => result is Ok && result->Ok_0.1 == len
                    && result->Ok_0.0 == (FetchSubscriptionsRequestMessage {
                        topic_filter: Some(value),
                        ..before
                    }),
                Err(error) => result is Err && result->Err_0 == error,
            }
            &&& tag == 18 ==> match message::submessage::<UUriProto>(bytes, limits) {
                Ok((value, len)) => result is Ok && result->Ok_0.1 == len
                    && result->Ok_0.0 == (FetchSubscriptionsRequestMessage {
                        subscriber_filter: Some(value),
                        ..before
                    }),
                Err(error) => result is Err && result->Err_0 == error,
            }
            &&& tag != 10 && tag != 18
                ==> result == message::unchanged(before, tag, bytes, limits)
        }),
{
}

/// Reading a request for subscriptions starts from one without any field.
pub proof fn law_fetch_request_starts_empty(bytes: Seq<u8>, limits: Limits)
    ensures
        FetchSubscriptionsRequestProto::decoded(bytes, limits) == message::merged::<
            FetchSubscriptionsRequestProto,
        >(FetchSubscriptionsRequestProto::empty(), bytes, limits),
        FetchSubscriptionsRequestProto::empty().topic_filter is None,
        FetchSubscriptionsRequestProto::empty().subscriber_filter is None,
{
}

/// The subscription in a response with subscriptions is field number 1. It joins those before.
pub proof fn law_fetch_response_subscriptions(
    before: Seq<SubscriptionMessage>,
    value: SubscriptionMessage,
    encoded: Seq<u8>,
    rest: Seq<u8>,
    limits: Limits,
)
    requires
        encoded.len() <= u32::MAX,
        limits.fit(wire::bytes_field(1, encoded).len() as int, 1),
        SubscriptionProto::decoded(encoded, inside(limits, encoded.len())) == Ok::<
            _,
            Seq<char>,
        >(value),
    ensures
        message::merged::<FetchSubscriptionsResponseProto>(
            before,
            wire::bytes_field(1, encoded) + rest,
            limits,
        ) == message::merged::<FetchSubscriptionsResponseProto>(
            before.push(value),
            rest,
            limits.after(wire::bytes_field(1, encoded).len() as int),
        ),
{
    let start = wire::varint_bytes(10);
    let content = wire::varint_bytes(encoded.len()) + encoded;
    assert(wire::bytes_field(1, encoded) =~= start + content);
    let left = limits.after(start.len() as int);
    message::lemma_submessage::<SubscriptionProto>(value, encoded, rest, left);
    message::lemma_merged_field::<FetchSubscriptionsResponseProto>(
        before,
        before.push(value),
        10,
        content,
        rest,
        limits,
    );
}

/// A tag decides which field of a response with subscriptions is read, however the number or the
/// length behind it is written. A field that cannot be read makes it fail, and any other field is
/// one that it does not know.
pub proof fn law_fetch_response_fields(
    before: Seq<SubscriptionMessage>,
    tag: u32,
    bytes: Seq<u8>,
    limits: Limits,
)
    ensures
        ({
            let result = FetchSubscriptionsResponseProto::with_field(before, tag, bytes, limits);
            &&& tag == 10 ==> match message::submessage::<SubscriptionProto>(bytes, limits) {
                Ok((value, len)) => result is Ok && result->Ok_0.1 == len
                    && result->Ok_0.0 == before.push(value),
                Err(error) => result is Err && result->Err_0 == error,
            }
            &&& tag != 10
                ==> result == message::unchanged(before, tag, bytes, limits)
        }),
{
}

/// Reading a response with subscriptions starts from one without any field.
pub proof fn law_fetch_response_starts_empty(bytes: Seq<u8>, limits: Limits)
    ensures
        FetchSubscriptionsResponseProto::decoded(bytes, limits) == message::merged::<
            FetchSubscriptionsResponseProto,
        >(FetchSubscriptionsResponseProto::empty(), bytes, limits),
        FetchSubscriptionsResponseProto::empty().len() == 0,
{
    assert(FetchSubscriptionsResponseProto::empty() =~= seq![]);
}

/// A message without fields of its own does not know any field.
pub proof fn law_empty_message(before: (), tag: u32, bytes: Seq<u8>, limits: Limits)
    ensures
        EmptyProto::decoded(bytes, limits) == message::merged::<EmptyProto>((), bytes, limits),
        EmptyProto::with_field(before, tag, bytes, limits) == message::unchanged(
            before,
            tag,
            bytes,
            limits,
        ),
{
}

} // verus!
