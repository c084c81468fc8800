//! What holds between the two sides of the uSubscription service.

use crate::communication::{ServiceInvocationError, SubscriptionStatus, UPayload};
use crate::message::{Decode, Encode, Limits, MessageFormat};
use crate::proto::{
    EmptyProto, FetchSubscriptionsRequestMessage, FetchSubscriptionsRequestProto,
    FetchSubscriptionsResponseProto, SubscribeRequestMessage, SubscribeRequestProto,
    SubscribeResponseMessage, SubscribeResponseProto, SubscriptionMessage, SubscriptionProto,
    UnsubscribeRequestMessage, UnsubscribeRequestProto,
};
use crate::server::{
    IntoProtoResponsePayload, Request, Response, Subscribe, SubscribeResponse, Subscribed,
    Unsubscribe,
};
use crate::status::{Status, UCode};
use crate::timestamp::Timestamp;
use crate::uri::{UUriProto, Uri, UriMessage};
use crate::usubscription::{Subscription, RESOURCE_ID_SUBSCRIBE, RESOURCE_ID_UNSUBSCRIBE};
use crate::{client, communication, message, proto, server, status, time, timestamp, uri, wire};
use vstd::prelude::*;

verus! {

/// Whether an address in a message, where there is one, is short enough to be written.
pub open spec fn writable(message: Option<UriMessage>) -> bool {
    message matches Some(message) ==> UUriProto::encoded(message).len() <= u32::MAX
}

/// What a field with a message holds behind its tag.
spec fn message_value(encoded: Seq<u8>) -> Seq<u8> {
    wire::varint_bytes(encoded.len()) + encoded
}

/// The address that a field holds is read back.
proof fn lemma_uri_value(uri: UriMessage, rest: Seq<u8>, limits: Limits)
    requires
        writable(Some(uri)),
        limits.fit(message_value(UUriProto::encoded(uri)).len() as int, 1),
    ensures
        ({
            let value = message_value(UUriProto::encoded(uri));
            message::submessage::<UUriProto>(value + rest, limits) == Ok::<_, Seq<char>>(
                (uri, value.len() as int),
            )
        }),
{
    let encoded = UUriProto::encoded(uri);
    assert(vstd::utf8::encode_utf8(uri.authority_name).len() <= encoded.len());
    uri::law_uri_message_round_trip(
        uri,
        limits.nested(wire::varint_bytes(encoded.len()).len() as int, encoded.len() as int),
    );
    message::lemma_submessage::<UUriProto>(uri, encoded, rest, limits);
}

/// The point in time that a field holds is read back.
proof fn lemma_timestamp_value(timestamp: Timestamp, rest: Seq<u8>, limits: Limits)
    requires
        limits.fit(message_value(Timestamp::encoded(timestamp)).len() as int, 1),
    ensures
        ({
            let value = message_value(Timestamp::encoded(timestamp));
            message::submessage::<Timestamp>(value + rest, limits) == Ok::<_, Seq<char>>(
                (timestamp, value.len() as int),
            )
        }),
{
    let encoded = Timestamp::encoded(timestamp);
    wire::lemma_varint32(wire::tag(1, 0), seq![]);
    wire::lemma_int64(timestamp.seconds as int, seq![]);
    wire::lemma_varint32(wire::tag(2, 0), seq![]);
    wire::lemma_int64(timestamp.nanos as int, seq![]);
    timestamp::law_timestamp_message_round_trip(
        timestamp,
        limits.nested(wire::varint_bytes(encoded.len()).len() as int, encoded.len() as int),
    );
    message::lemma_submessage::<Timestamp>(timestamp, encoded, rest, limits);
}

/// The topic of a request to subscribe is read first.
proof fn lemma_subscribe_topic(topic: Option<UriMessage>, rest: Seq<u8>, limits: Limits)
    requires
        writable(topic),
        limits.fit(proto::optional_message_field::<UUriProto>(1, topic).len() as int, 1),
    ensures
        ({
            let field = proto::optional_message_field::<UUriProto>(1, topic);
            let message = SubscribeRequestProto::empty();
            message::merged::<SubscribeRequestProto>(message, field + rest, limits)
                == message::merged::<SubscribeRequestProto>(
                SubscribeRequestMessage { topic, ..message },
                rest,
                limits.after(field.len() as int),
            )
        }),
{
    let field = proto::optional_message_field::<UUriProto>(1, topic);
    let before = SubscribeRequestProto::empty();
    match topic {
        None => {
            assert(field + rest =~= rest);
        },
        Some(uri) => {
            let start = wire::varint_bytes(10);
            let value = message_value(UUriProto::encoded(uri));
            let after = SubscribeRequestMessage { topic, ..before };
            assert(field =~= start + value);
            lemma_uri_value(uri, rest, limits.after(start.len() as int));
            message::lemma_merged_field::<SubscribeRequestProto>(
                before,
                after,
                10,
                value,
                rest,
                limits,
            );
        },
    }
}

/// The expiration of a request to subscribe is read after the topic.
proof fn lemma_subscribe_expiration(
    before: SubscribeRequestMessage,
    expiration: Option<Timestamp>,
    rest: Seq<u8>,
    limits: Limits,
)
    requires
        before.expiration is None,
        limits.fit(proto::optional_message_field::<Timestamp>(2, expiration).len() as int, 1),
    ensures
        ({
            let field = proto::optional_message_field::<Timestamp>(2, expiration);
            message::merged::<SubscribeRequestProto>(before, field + rest, limits)
                == message::merged::<SubscribeRequestProto>(
                SubscribeRequestMessage { expiration, ..before },
                rest,
                limits.after(field.len() as int),
            )
        }),
{
    let field = proto::optional_message_field::<Timestamp>(2, expiration);
    match expiration {
        None => {
            assert(field + rest =~= rest);
        },
        Some(timestamp) => {
            let start = wire::varint_bytes(18);
            let value = message_value(Timestamp::encoded(timestamp));
            let after = SubscribeRequestMessage { expiration, ..before };
            assert(field =~= start + value);
            lemma_timestamp_value(timestamp, rest, limits.after(start.len() as int));
            message::lemma_merged_field::<SubscribeRequestProto>(
                before,
                after,
                18,
                value,
                rest,
                limits,
            );
        },
    }
}

/// The sample period of a request to subscribe is read last.
proof fn lemma_subscribe_sample_period(
    before: SubscribeRequestMessage,
    sample_period: u32,
    limits: Limits,
)
    ensures
        message::merged::<SubscribeRequestProto>(
            before,
            wire::integer_field(3, sample_period as int),
            limits,
        ) == Ok::<_, Seq<char>>(
            SubscribeRequestMessage { sample_period: Some(sample_period), ..before },
        ),
{
    let value = wire::varint_bytes(sample_period as nat);
    wire::lemma_varint32(sample_period as nat, seq![]);
    assert(wire::integer_field(3, sample_period as int) =~= wire::varint_bytes(24) + value
        + seq![]);
    message::lemma_merged_field::<SubscribeRequestProto>(
        before,
        SubscribeRequestMessage { sample_period: Some(sample_period), ..before },
        24,
        value,
        seq![],
        limits,
    );
}

/// Reading a request to subscribe gives back what was written.
pub proof fn law_subscribe_request_round_trip(message: SubscribeRequestMessage, limits: Limits)
    requires
        writable(message.topic),
        limits.fit(SubscribeRequestProto::encoded(message).len() as int, 1),
    ensures
        SubscribeRequestProto::decoded(SubscribeRequestProto::encoded(message), limits) == Ok::<
            _,
            Seq<char>,
        >(message),
{
    let f1 = proto::optional_message_field::<UUriProto>(1, message.topic);
    let f2 = proto::optional_message_field::<Timestamp>(2, message.expiration);
    let f3 = match message.sample_period {
        Some(millis) => wire::integer_field(3, millis as int),
        None => seq![],
    };
    let m1 = SubscribeRequestMessage { topic: message.topic, ..SubscribeRequestProto::empty() };
    let m2 = SubscribeRequestMessage { expiration: message.expiration, ..m1 };
    assert(SubscribeRequestProto::encoded(message) =~= f1 + (f2 + f3));
    lemma_subscribe_topic(message.topic, f2 + f3, limits);
    lemma_subscribe_expiration(m1, message.expiration, f3, limits.after(f1.len() as int));
    if let Some(millis) = message.sample_period {
        lemma_subscribe_sample_period(
            m2,
            millis,
            limits.after(f1.len() as int).after(f2.len() as int),
        );
    }
}

/// Reading a request to unsubscribe gives back what was written.
pub proof fn law_unsubscribe_request_round_trip(message: UnsubscribeRequestMessage, limits: Limits)
    requires
        writable(message.topic),
        limits.fit(UnsubscribeRequestProto::encoded(message).len() as int, 1),
    ensures
        UnsubscribeRequestProto::decoded(UnsubscribeRequestProto::encoded(message), limits) == Ok::<
            _,
            Seq<char>,
        >(message),
{
    if let Some(topic) = message.topic {
        let m0 = UnsubscribeRequestProto::empty();
        let start = wire::varint_bytes(10);
        let value = message_value(UUriProto::encoded(topic));
        assert(UnsubscribeRequestProto::encoded(message) =~= start + value + seq![]);
        lemma_uri_value(topic, seq![], limits.after(start.len() as int));
        message::lemma_merged_field::<UnsubscribeRequestProto>(
            m0,
            message,
            10,
            value,
            seq![],
            limits,
        );
    }
}

/// Reading the response to a request to subscribe gives back what was written.
pub proof fn law_subscribe_response_round_trip(message: SubscribeResponseMessage, limits: Limits)
    requires
        writable(message.topic),
        limits.fit(SubscribeResponseProto::encoded(message).len() as int, 1),
    ensures
        SubscribeResponseProto::decoded(SubscribeResponseProto::encoded(message), limits) == Ok::<
            _,
            Seq<char>,
        >(message),
{
    let m0 = SubscribeResponseProto::empty();
    let m1 = SubscribeResponseMessage { topic: message.topic, ..m0 };
    let f1 = proto::optional_message_field::<UUriProto>(1, message.topic);
    let f2 = wire::optional_integer_field(2, message.status as int);
    match message.topic {
        None => {
            assert(f1 + f2 =~= f2);
        },
        Some(topic) => {
            let start = wire::varint_bytes(10);
            let value = message_value(UUriProto::encoded(topic));
            assert(f1 =~= start + value);
            lemma_uri_value(topic, f2, limits.after(start.len() as int));
            message::lemma_merged_field::<SubscribeResponseProto>(m0, m1, 10, value, f2, limits);
        },
    }
    let l1 = limits.after(f1.len() as int);
    if message.status != 0 {
        let value = wire::varint_bytes(wire::unsigned(message.status as int));
        wire::lemma_int64(message.status as int, seq![]);
        assert(f2 =~= wire::varint_bytes(16) + value + seq![]);
        message::lemma_merged_field::<SubscribeResponseProto>(m1, message, 16, value, seq![], l1);
    }
}

/// The filter for topics of a request for subscriptions is read first.
proof fn lemma_topic_filter(topic_filter: Option<UriMessage>, rest: Seq<u8>, limits: Limits)
    requires
        writable(topic_filter),
        limits.fit(proto::optional_message_field::<UUriProto>(1, topic_filter).len() as int, 1),
    ensures
        ({
            let field = proto::optional_message_field::<UUriProto>(1, topic_filter);
            let message = FetchSubscriptionsRequestProto::empty();
            message::merged::<FetchSubscriptionsRequestProto>(message, field + rest, limits)
                == message::merged::<FetchSubscriptionsRequestProto>(
                FetchSubscriptionsRequestMessage { topic_filter, ..message },
                rest,
                limits.after(field.len() as int),
            )
        }),
{
    let field = proto::optional_message_field::<UUriProto>(1, topic_filter);
    let before = FetchSubscriptionsRequestProto::empty();
    match topic_filter {
        None => {
            assert(field + rest =~= rest);
        },
        Some(uri) => {
            let start = wire::varint_bytes(10);
            let value = message_value(UUriProto::encoded(uri));
            let after = FetchSubscriptionsRequestMessage { topic_filter, ..before };
            assert(field =~= start + value);
            lemma_uri_value(uri, rest, limits.after(start.len() as int));
            message::lemma_merged_field::<FetchSubscriptionsRequestProto>(
                before,
                after,
                10,
                value,
                rest,
                limits,
            );
        },
    }
}

/// The filter for subscribers of a request for subscriptions is read last.
proof fn lemma_subscriber_filter(
    before: FetchSubscriptionsRequestMessage,
    subscriber_filter: UriMessage,
    limits: Limits,
)
    requires
        writable(Some(subscriber_filter)),
        limits.fit(
            proto::optional_message_field::<UUriProto>(2, Some(subscriber_filter)).len() as int,
            1,
        ),
    ensures
        message::merged::<FetchSubscriptionsRequestProto>(
            before,
            proto::optional_message_field::<UUriProto>(2, Some(subscriber_filter)),
            limits,
        ) == Ok::<_, Seq<char>>(
            FetchSubscriptionsRequestMessage {
                subscriber_filter: Some(subscriber_filter),
                ..before
            },
        ),
{
    let field = proto::optional_message_field::<UUriProto>(2, Some(subscriber_filter));
    let start = wire::varint_bytes(18);
    let value = message_value(UUriProto::encoded(subscriber_filter));
    let after = FetchSubscriptionsRequestMessage {
        subscriber_filter: Some(subscriber_filter),
        ..before
    };
    assert(field =~= start + value + seq![]);
    lemma_uri_value(subscriber_filter, seq![], limits.after(start.len() as int));
    message::lemma_merged_field::<FetchSubscriptionsRequestProto>(
        before,
        after,
        18,
        value,
        seq![],
        limits,
    );
}

/// Reading a request for subscriptions gives back what was written.
pub proof fn law_fetch_subscriptions_request_round_trip(
    message: FetchSubscriptionsRequestMessage,
    limits: Limits,
)
    requires
        writable(message.topic_filter),
        writable(message.subscriber_filter),
        limits.fit(FetchSubscriptionsRequestProto::encoded(message).len() as int, 1),
    ensures
        FetchSubscriptionsRequestProto::decoded(
            FetchSubscriptionsRequestProto::encoded(message),
            limits,
        ) == Ok::<_, Seq<char>>(message),
{
    let f1 = proto::optional_message_field::<UUriProto>(1, message.topic_filter);
    let f2 = proto::optional_message_field::<UUriProto>(2, message.subscriber_filter);
    let m1 = FetchSubscriptionsRequestMessage {
        topic_filter: message.topic_filter,
        ..FetchSubscriptionsRequestProto::empty()
    };
    lemma_topic_filter(message.topic_filter, f2, limits);
    if let Some(uri) = message.subscriber_filter {
        lemma_subscriber_filter(m1, uri, limits.after(f1.len() as int));
    }
}

/// An address in a subscription is read.
proof fn lemma_subscription_address(
    before: SubscriptionMessage,
    after: SubscriptionMessage,
    field_number: u32,
    address: Option<UriMessage>,
    rest: Seq<u8>,
    limits: Limits,
)
    requires
        field_number == 1 && before.topic is None && after == (SubscriptionMessage {
            topic: address,
            ..before
        }) || field_number == 2 && before.subscriber is None && after == (SubscriptionMessage {
            subscriber: address,
            ..before
        }),
        writable(address),
        limits.fit(
            proto::optional_message_field::<UUriProto>(field_number, address).len() as int,
            1,
        ),
    ensures
        ({
            let field = proto::optional_message_field::<UUriProto>(field_number, address);
            message::merged::<SubscriptionProto>(before, field + rest, limits) == message::merged::<
                SubscriptionProto,
            >(after, rest, limits.after(field.len() as int))
        }),
{
    let field = proto::optional_message_field::<UUriProto>(field_number, address);
    match address {
        None => {
            assert(field + rest =~= rest);
        },
        Some(uri) => {
            let tag: u32 = (field_number * 8 + 2) as u32;
            let start = wire::varint_bytes(tag as nat);
            let value = message_value(UUriProto::encoded(uri));
            assert(field =~= start + value);
            lemma_uri_value(uri, rest, limits.after(start.len() as int));
            message::lemma_merged_field::<SubscriptionProto>(
                before,
                after,
                tag,
                value,
                rest,
                limits,
            );
        },
    }
}

/// The status in a subscription is read after the addresses.
proof fn lemma_subscription_status(
    before: SubscriptionMessage,
    status: i32,
    rest: Seq<u8>,
    limits: Limits,
)
    requires
        before.status == 0,
    ensures
        ({
            let field = wire::optional_integer_field(3, status as int);
            message::merged::<SubscriptionProto>(before, field + rest, limits) == message::merged::<
                SubscriptionProto,
            >(SubscriptionMessage { status, ..before }, rest, limits.after(field.len() as int))
        }),
{
    let field = wire::optional_integer_field(3, status as int);
    let after = SubscriptionMessage { status, ..before };
    if status == 0 {
        assert(field + rest =~= rest);
        assert(after == before);
    } else {
        let value = wire::varint_bytes(wire::unsigned(status as int));
        wire::lemma_int64(status as int, rest);
        assert(field =~= wire::varint_bytes(24) + value);
        message::lemma_merged_field::<SubscriptionProto>(before, after, 24, value, rest, limits);
    }
}

/// The expiration in a subscription is read after the status.
proof fn lemma_subscription_expiration(
    before: SubscriptionMessage,
    expiration: Option<Timestamp>,
    rest: Seq<u8>,
    limits: Limits,
)
    requires
        before.expiration is None,
        limits.fit(proto::optional_message_field::<Timestamp>(4, expiration).len() as int, 1),
    ensures
        ({
            let field = proto::optional_message_field::<Timestamp>(4, expiration);
            message::merged::<SubscriptionProto>(before, field + rest, limits) == message::merged::<
                SubscriptionProto,
            >(SubscriptionMessage { expiration, ..before }, rest, limits.after(field.len() as int))
        }),
{
    let field = proto::optional_message_field::<Timestamp>(4, expiration);
    match expiration {
        None => {
            assert(field + rest =~= rest);
        },
        Some(timestamp) => {
            let start = wire::varint_bytes(34);
            let value = message_value(Timestamp::encoded(timestamp));
            let after = SubscriptionMessage { expiration, ..before };
            assert(field =~= start + value);
            lemma_timestamp_value(timestamp, rest, limits.after(start.len() as int));
            message::lemma_merged_field::<SubscriptionProto>(
                before,
                after,
                34,
                value,
                rest,
                limits,
            );
        },
    }
}

/// The sample period in a subscription is read last.
proof fn lemma_subscription_sample_period(
    before: SubscriptionMessage,
    sample_period: u32,
    limits: Limits,
)
    ensures
        message::merged::<SubscriptionProto>(
            before,
            wire::integer_field(5, sample_period as int),
            limits,
        ) == Ok::<_, Seq<char>>(
            SubscriptionMessage { sample_period: Some(sample_period), ..before },
        ),
{
    let value = wire::varint_bytes(sample_period as nat);
    wire::lemma_varint32(sample_period as nat, seq![]);
    assert(wire::integer_field(5, sample_period as int) =~= wire::varint_bytes(40) + value
        + seq![]);
    message::lemma_merged_field::<SubscriptionProto>(
        before,
        SubscriptionMessage { sample_period: Some(sample_period), ..before },
        40,
        value,
        seq![],
        limits,
    );
}

/// Reading a subscription gives back what was written.
pub proof fn law_subscription_round_trip(message: SubscriptionMessage, limits: Limits)
    requires
        writable(message.topic),
        writable(message.subscriber),
        limits.fit(SubscriptionProto::encoded(message).len() as int, 1),
    ensures
        SubscriptionProto::decoded(SubscriptionProto::encoded(message), limits) == Ok::<
            _,
            Seq<char>,
        >(message),
{
    let f1 = proto::optional_message_field::<UUriProto>(1, message.topic);
    let f2 = proto::optional_message_field::<UUriProto>(2, message.subscriber);
    let f3 = wire::optional_integer_field(3, message.status as int);
    let f4 = proto::optional_message_field::<Timestamp>(4, message.expiration);
    let f5 = match message.sample_period {
        Some(millis) => wire::integer_field(5, millis as int),
        None => seq![],
    };
    let m0 = SubscriptionProto::empty();
    let m1 = SubscriptionMessage { topic: message.topic, ..m0 };
    let m2 = SubscriptionMessage { subscriber: message.subscriber, ..m1 };
    let m3 = SubscriptionMessage { status: message.status, ..m2 };
    let m4 = SubscriptionMessage { expiration: message.expiration, ..m3 };
    let l1 = limits.after(f1.len() as int);
    let l2 = l1.after(f2.len() as int);
    let l3 = l2.after(f3.len() as int);
    let l4 = l3.after(f4.len() as int);
    assert(SubscriptionProto::encoded(message) =~= f1 + (f2 + (f3 + (f4 + f5))));
    lemma_subscription_address(m0, m1, 1, message.topic, f2 + (f3 + (f4 + f5)), limits);
    lemma_subscription_address(m1, m2, 2, message.subscriber, f3 + (f4 + f5), l1);
    lemma_subscription_status(m2, message.status, f4 + f5, l2);
    lemma_subscription_expiration(m3, message.expiration, f5, l3);
    if let Some(millis) = message.sample_period {
        lemma_subscription_sample_period(m4, millis, l4);
    }
}

/// Whether a subscription is short enough to be written.
pub open spec fn writable_subscription(message: SubscriptionMessage) -> bool {
    SubscriptionProto::encoded(message).len() <= u32::MAX
}

/// The addresses in a subscription that is short enough are short enough, too.
proof fn lemma_writable_subscription(message: SubscriptionMessage)
    requires
        writable_subscription(message),
    ensures
        writable(message.topic),
        writable(message.subscriber),
{
}

/// The subscriptions after all fields of a response to a request for subscriptions have been read.
#[verifier::opaque]
spec fn all_subscriptions(
    before: Seq<SubscriptionMessage>,
    bytes: Seq<u8>,
    limits: Limits,
) -> Result<Seq<SubscriptionMessage>, Seq<char>> {
    message::merged::<FetchSubscriptionsResponseProto>(before, bytes, limits)
}

/// A subscription in the response to a request for subscriptions is read.
proof fn lemma_next_subscription(
    before: Seq<SubscriptionMessage>,
    next: SubscriptionMessage,
    rest: Seq<u8>,
    limits: Limits,
)
    requires
        writable_subscription(next),
        limits.fit(wire::bytes_field(1, SubscriptionProto::encoded(next)).len() as int, 2),
    ensures
        ({
            let field = wire::bytes_field(1, SubscriptionProto::encoded(next));
            all_subscriptions(before, field + rest, limits) == all_subscriptions(
                before.push(next),
                rest,
                limits.after(field.len() as int),
            )
        }),
{
    reveal(all_subscriptions);
    let encoded = SubscriptionProto::encoded(next);
    let start = wire::varint_bytes(10);
    let value = message_value(encoded);
    let inside = limits.after(start.len() as int);
    assert(wire::bytes_field(1, encoded) =~= start + value);
    lemma_writable_subscription(next);
    law_subscription_round_trip(
        next,
        inside.nested(wire::varint_bytes(encoded.len()).len() as int, encoded.len() as int),
    );
    message::lemma_submessage::<SubscriptionProto>(next, encoded, rest, inside);
    message::lemma_merged_field::<FetchSubscriptionsResponseProto>(
        before,
        before.push(next),
        10,
        value,
        rest,
        limits,
    );
}

/// Subscriptions are read one after the other.
proof fn lemma_subscriptions(
    before: Seq<SubscriptionMessage>,
    messages: Seq<SubscriptionMessage>,
    rest: Seq<u8>,
    limits: Limits,
)
    requires
        forall|i: int| 0 <= i < messages.len() ==> writable_subscription(#[trigger] messages[i]),
        limits.fit(proto::encoded_subscriptions(messages).len() as int, 2),
    ensures
        ({
            let fields = proto::encoded_subscriptions(messages);
            all_subscriptions(before, fields + rest, limits) == all_subscriptions(
                before + messages,
                rest,
                limits.after(fields.len() as int),
            )
        }),
    decreases messages.len(),
{
    let fields = proto::encoded_subscriptions(messages);
    if messages.len() == 0 {
        assert(fields + rest =~= rest);
        assert(before + messages =~= before);
    } else {
        let front = messages.drop_last();
        let last = messages.last();
        let field = wire::bytes_field(1, SubscriptionProto::encoded(last));
        let others = proto::encoded_subscriptions(front);
        assert(forall|i: int| 0 <= i < front.len() ==> front[i] == #[trigger] messages[i]);
        assert(writable_subscription(messages[messages.len() - 1]));
        lemma_subscriptions(before, front, field + rest, limits);
        lemma_next_subscription(before + front, last, rest, limits.after(others.len() as int));
        assert(fields + rest =~= others + (field + rest));
        assert((before + front).push(last) =~= before + messages);
    }
}

/// Reading the response to a request for subscriptions gives back what was written.
pub proof fn law_fetch_subscriptions_response_round_trip(
    messages: Seq<SubscriptionMessage>,
    limits: Limits,
)
    requires
        forall|i: int| 0 <= i < messages.len() ==> writable_subscription(#[trigger] messages[i]),
        limits.fit(FetchSubscriptionsResponseProto::encoded(messages).len() as int, 2),
    ensures
        FetchSubscriptionsResponseProto::decoded(
            FetchSubscriptionsResponseProto::encoded(messages),
            limits,
        ) == Ok::<_, Seq<char>>(messages),
{
    reveal(all_subscriptions);
    let bytes = FetchSubscriptionsResponseProto::encoded(messages);
    lemma_subscriptions(seq![], messages, seq![], limits);
    assert(bytes + seq![] =~= bytes);
    assert(Seq::<SubscriptionMessage>::empty() + messages =~= messages);
}

/// The status of a subscription survives being put into a message.
pub proof fn law_status_round_trip(status: SubscriptionStatus, unknown: Seq<char>)
    ensures
        communication::status_of_number(
            communication::status_number(communication::proto_of_status(status)),
            unknown,
        ) == Ok::<_, Status>(status),
{
}

/// A number that stands for a status is the one that the status is put into a message as.
pub proof fn law_status_number_is_unique(number: i32, unknown: Seq<char>)
    ensures
        communication::status_of_number(number, unknown) matches Ok(status)
            ==> communication::status_number(communication::proto_of_status(status)) == number,
{
}

/// A server reads from a client's request to subscribe what the client was asked for, and that it
/// comes from where the message comes from. Only an expiration beyond the last date and time that
/// there is makes it refuse the request.
pub proof fn law_server_reads_request_to_subscribe(
    source: Uri,
    topic: Uri,
    expiration: Option<u64>,
    min_sample_period: Option<u32>,
)
    requires
        uri::is_authority_name(topic.authority_name),
    ensures
        ({
            let invocation = client::operation(
                RESOURCE_ID_SUBSCRIBE,
                SubscribeRequestProto::encoded(
                    client::subscribe_message(topic, expiration, min_sample_period),
                ),
            );
            let request = server::usubscription_request(
                invocation.method.resource_id,
                source,
                Some(invocation.payload),
            );
            match expiration {
                Some(millis) if millis / 1000 > time::DATE_TIME_LAST_SECOND => request == Err::<
                    Request,
                    Status,
                >(status::invalid_argument("invalid timestamp: seconds value out of range"@)),
                _ => request == Ok::<Request, Status>(
                    Request::Subscribe(
                        Subscribe {
                            subscriber: source,
                            topic,
                            expiration: match expiration {
                                Some(millis) => Some(
                                    ((millis / 1000) as i64, (millis % 1000 * 1_000_000) as u32),
                                ),
                                None => None,
                            },
                            sample_period: match min_sample_period {
                                Some(millis) => Some(millis * 1_000_000),
                                None => None,
                            },
                        },
                    ),
                ),
            }
        }),
{
    let message = client::subscribe_message(topic, expiration, min_sample_period);
    uri::lemma_encoded_uri_len(topic);
    client::lemma_subscribe_message_len(topic, expiration, min_sample_period);
    law_subscribe_request_round_trip(message, Limits::payload());
    uri::law_uri_round_trip(topic);
}

/// A server reads from a client's request to unsubscribe what the client was asked for, and that
/// it comes from where the message comes from.
pub proof fn law_server_reads_request_to_unsubscribe(source: Uri, topic: Uri)
    requires
        uri::is_authority_name(topic.authority_name),
    ensures
        ({
            let invocation = client::operation(
                RESOURCE_ID_UNSUBSCRIBE,
                UnsubscribeRequestProto::encoded(client::unsubscribe_message(topic)),
            );
            server::usubscription_request(
                invocation.method.resource_id,
                source,
                Some(invocation.payload),
            ) == Ok::<_, Status>(Request::Unsubscribe(Unsubscribe { subscriber: source, topic }))
        }),
{
    uri::lemma_encoded_uri_len(topic);
    client::lemma_uri_field_len(1, topic);
    law_unsubscribe_request_round_trip(client::unsubscribe_message(topic), Limits::payload());
    uri::law_uri_round_trip(topic);
}

/// A client reads from a server's response to a request to subscribe the status that the server
/// has put into it.
pub proof fn law_client_reads_response_to_subscribe(
    topic: Uri,
    status: SubscriptionStatus,
    payload: UPayload,
)
    requires
        uri::is_authority_name(topic.authority_name),
        payload@ == server::payload_of_response(Response::Subscribe(Subscribed { topic, status })),
    ensures
        client::subscribe_result(Ok(Some(payload))) == Ok::<_, Status>(status),
{
    let response = Subscribed { topic, status };
    let message = SubscribeResponse::message(response);
    uri::lemma_encoded_uri_len(topic);
    server::lemma_encoded_subscribe_response_len(response);
    law_subscribe_response_round_trip(message, Limits::payload());
}

/// A client takes a server's response to a request to unsubscribe for a success.
pub proof fn law_client_reads_response_to_unsubscribe(payload: UPayload)
    requires
        payload@ == server::payload_of_response(Response::Unsubscribe),
    ensures
        client::reply_content::<EmptyProto>(Ok(Some(payload))) == Ok::<_, Status>(()),
{
}

/// A failed invocation fails the operation with the status that tells why, whatever the operation
/// is.
pub proof fn law_failed_invocation_fails_operation(error: ServiceInvocationError)
    ensures
        client::subscribe_result(Err(error)) == Err::<SubscriptionStatus, Status>(
            communication::status_of_error(error),
        ),
        client::fetch_result(Err(error)) == Err::<Seq<Subscription>, Status>(
            communication::status_of_error(error),
        ),
        client::reply_content::<EmptyProto>(Err(error)) == Err::<(), Status>(
            communication::status_of_error(error),
        ),
{
}

/// A server refuses a request as unimplemented if, and only if, it does not support the operation.
/// Any other request that it refuses is an invalid argument.
pub proof fn law_reasons_of_refusal(resource_id: u16, source: Uri, payload: Option<Seq<u8>>)
    ensures
        server::usubscription_request(resource_id, source, payload) matches Err(status) ==> {
            &&& status.code == UCode::Unimplemented || status.code == UCode::InvalidArgument
            &&& status.code == UCode::Unimplemented <==> resource_id != RESOURCE_ID_SUBSCRIBE
                && resource_id != RESOURCE_ID_UNSUBSCRIBE
        },
        resource_id != RESOURCE_ID_SUBSCRIBE && resource_id != RESOURCE_ID_UNSUBSCRIBE
            ==> server::usubscription_request(resource_id, source, payload) is Err,
        payload is None ==> server::usubscription_request(resource_id, source, payload) is Err,
{
}

/// A request is one for the operation that it was sent to, from where the message comes from, and
/// about a well-formed topic. Its expiration is a date and time that there is.
pub proof fn law_content_of_request(resource_id: u16, source: Uri, payload: Option<Seq<u8>>)
    ensures
        server::usubscription_request(resource_id, source, payload) matches Ok(request) ==> match
        request {
            Request::Subscribe(request) => {
                &&& resource_id == RESOURCE_ID_SUBSCRIBE
                &&& request.subscriber == source
                &&& uri::is_authority_name(request.topic.authority_name)
                &&& request.expiration matches Some((seconds, nanos)) ==> time::is_date_time(
                    seconds as int,
                    nanos as int,
                )
            },
            Request::Unsubscribe(request) => {
                &&& resource_id == RESOURCE_ID_UNSUBSCRIBE
                &&& request.subscriber == source
                &&& uri::is_authority_name(request.topic.authority_name)
            },
        },
{
}

/// Fetching subscriptions succeeds if, and only if, each of the messages stands for a subscription.
/// The result then holds all of them in their order.
pub proof fn law_all_subscriptions_are_fetched(messages: Seq<SubscriptionMessage>)
    ensures
        client::subscriptions_of_messages(messages) is Ok <==> forall|i: int|
            0 <= i < messages.len() ==> client::subscription_of_message(#[trigger] messages[i])
                is Ok,
        client::subscriptions_of_messages(messages) matches Ok(subscriptions) ==> {
            &&& subscriptions.len() == messages.len()
            &&& forall|i: int|
                0 <= i < messages.len() ==> client::subscription_of_message(#[trigger] messages[i])
                    == Ok::<_, Status>(subscriptions[i])
        },
    decreases messages.len(),
{
    if messages.len() > 0 {
        let front = messages.drop_last();
        law_all_subscriptions_are_fetched(front);
        assert(forall|i: int| 0 <= i < front.len() ==> front[i] == #[trigger] messages[i]);
        assert(messages.last() == messages[messages.len() - 1]);
        if client::subscriptions_of_messages(messages) is Ok {
            assert forall|i: int| 0 <= i < messages.len() implies client::subscription_of_message(
                #[trigger] messages[i],
            ) is Ok by {
                if i < front.len() {
                    assert(client::subscription_of_message(front[i]) is Ok);
                }
            }
        }
    }
}

/// The message that stands for a subscription.
pub open spec fn message_of_subscription(subscription: Subscription) -> SubscriptionMessage {
    SubscriptionMessage {
        topic: Some(uri::message_of_uri(subscription.topic)),
        subscriber: Some(uri::message_of_uri(subscription.subscriber)),
        status: communication::status_number(communication::proto_of_status(subscription.status)),
        expiration: match subscription.expiration {
            Some(millis) => Some(timestamp::timestamp_of_millis(millis)),
            None => None,
        },
        sample_period: subscription.sample_period,
    }
}

/// Whether the addresses in a subscription are well-formed.
pub open spec fn is_subscription(subscription: Subscription) -> bool {
    uri::is_authority_name(subscription.topic.authority_name) && uri::is_authority_name(
        subscription.subscriber.authority_name,
    )
}

/// A subscription survives being put into a message.
pub proof fn law_subscription_survives_message(subscription: Subscription)
    requires
        is_subscription(subscription),
    ensures
        client::subscription_of_message(message_of_subscription(subscription)) == Ok::<_, Status>(
            subscription,
        ),
{
}

/// A subscription takes up few bytes.
proof fn lemma_message_of_subscription_len(subscription: Subscription)
    requires
        is_subscription(subscription),
    ensures
        writable_subscription(message_of_subscription(subscription)),
{
    let message = message_of_subscription(subscription);
    client::lemma_uri_field_len(1, subscription.topic);
    client::lemma_uri_field_len(2, subscription.subscriber);
    wire::lemma_varint32(wire::tag(3, 0), seq![]);
    wire::lemma_varint32(message.status as nat, seq![]);
    if let Some(timestamp) = message.expiration {
        client::lemma_timestamp_field_len(4, timestamp);
    }
    if let Some(millis) = message.sample_period {
        wire::lemma_varint32(wire::tag(5, 0), seq![]);
        wire::lemma_varint32(millis as nat, seq![]);
    }
}

/// A client reads from the response to a request for subscriptions all those that it holds, in
/// their order.
pub proof fn law_client_reads_fetched_subscriptions(
    subscriptions: Seq<Subscription>,
    payload: UPayload,
)
    requires
        forall|i: int| 0 <= i < subscriptions.len() ==> is_subscription(#[trigger] subscriptions[i]),
        payload@ == FetchSubscriptionsResponseProto::encoded(
            subscriptions.map_values(|subscription| message_of_subscription(subscription)),
        ),
        payload@.len() <= u64::MAX,
    ensures
        client::fetch_result(Ok(Some(payload))) == Ok::<_, Status>(subscriptions),
{
    let messages = subscriptions.map_values(|subscription| message_of_subscription(subscription));
    assert forall|i: int| 0 <= i < messages.len() implies writable_subscription(
        #[trigger] messages[i],
    ) && client::subscription_of_message(messages[i]) == Ok::<_, Status>(subscriptions[i]) by {
        lemma_message_of_subscription_len(subscriptions[i]);
        law_subscription_survives_message(subscriptions[i]);
    }
    law_fetch_subscriptions_response_round_trip(messages, Limits::payload());
    law_all_subscriptions_are_fetched(messages);
    match client::subscriptions_of_messages(messages) {
        Ok(fetched) => {
            assert forall|i: int| 0 <= i < messages.len() implies fetched[i]
                == subscriptions[i] by {
                assert(client::subscription_of_message(messages[i]) == Ok::<_, Status>(fetched[i]));
            }
            assert(fetched =~= subscriptions);
        },
        Err(_) => {},
    }
}

} // verus!
