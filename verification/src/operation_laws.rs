//! What the operations of the uSubscription service do, in terms of what goes in and what comes
//! out.

use crate::client::{RpcInvocation, RpcReply};
use crate::communication::{
    ServiceInvocationError, SubscriptionStatus, SubscriptionStatusProto, UPayload,
};
use crate::message::{Decode, Encode, Limits, ReadLimits};
use crate::proto::{
    EmptyProto, FetchSubscriptionsRequestMessage, FetchSubscriptionsRequestProto,
    FetchSubscriptionsResponseProto, SubscribeRequestMessage, SubscribeRequestProto,
    SubscribeResponseMessage, SubscribeResponseProto, SubscriptionMessage, SubscriptionProto,
    UnsubscribeRequestMessage, UnsubscribeRequestProto,
};
use crate::server::{
    IntoProtoResponsePayload, Request, Response, SubscribeRequest, SubscribeResponse, Subscribed,
    USubscriptionRequest, USubscriptionResponse, UnsubscribeRequest, UnsubscribeResponse,
};
use crate::status::{Status, UCode, UStatus};
use crate::timestamp::Timestamp;
use crate::uri::{UUriError, UUriProto, Uri, UriMessage};
use crate::usubscription::{
    Subscription, SubscriptionInfo, RESOURCE_ID_FETCH_SUBSCRIPTIONS,
    RESOURCE_ID_REGISTER_FOR_NOTIFICATIONS, RESOURCE_ID_RESET, RESOURCE_ID_SUBSCRIBE,
    RESOURCE_ID_UNREGISTER_FOR_NOTIFICATIONS, RESOURCE_ID_UNSUBSCRIBE, USUBSCRIPTION_TYPE_ID,
    USUBSCRIPTION_VERSION_MAJOR,
};
use crate::wire::DecodeError;
use crate::{
    client, communication, laws, proto, server, status, time, timestamp, uri, usubscription, wire,
};
use vstd::prelude::*;

verus! {

/// Whether a message is there and holds exactly the given address.
pub open spec fn holds(message: Option<UriMessage>, uri: Uri) -> bool {
    &&& message is Some
    &&& message->Some_0.authority_name == uri.authority_name
    &&& message->Some_0.ue_id == uri.ue_id
    &&& message->Some_0.ue_version_major == uri.ue_version_major
    &&& message->Some_0.resource_id == uri.resource_id
}

/// Whether a message is there exactly if an address is, and then holds it.
pub open spec fn holds_if_any(message: Option<UriMessage>, uri: Option<Uri>) -> bool {
    match uri {
        Some(uri) => holds(message, uri),
        None => message is None,
    }
}

/// Whether a message is there and holds an address: a valid name and numbers that are not too
/// large.
pub open spec fn is_address(message: Option<UriMessage>) -> bool {
    &&& message is Some
    &&& uri::is_authority_name(message->Some_0.authority_name)
    &&& message->Some_0.ue_version_major <= 0xff
    &&& message->Some_0.resource_id <= 0xffff
}

/// The number that a status has in a message.
pub open spec fn number_of(status: SubscriptionStatus) -> int {
    match status {
        SubscriptionStatus::Unsubscribed => 1,
        SubscriptionStatus::SubscribePending => 2,
        SubscriptionStatus::Subscribed => 3,
        SubscriptionStatus::UnsubscribePending => 4,
    }
}

/// Whether a result is the failure with the given code and message.
pub open spec fn fails<T>(result: Result<T, Status>, code: UCode, message: Seq<char>) -> bool {
    &&& result is Err
    &&& result->Err_0.code == code
    &&& result->Err_0.message == message
}

/// Whether a number of milliseconds is that of a point in time, down to what is less than one.
pub open spec fn are_millis_of(millis: u64, timestamp: Timestamp) -> bool {
    millis * 1_000_000 <= timestamp.seconds * 1_000_000_000 + timestamp.nanos < (millis + 1)
        * 1_000_000
}

/// The value of a hexadecimal digit.
pub open spec fn hex_value(digit: char) -> int {
    if '0' <= digit <= '9' {
        digit as int - '0' as int
    } else if 'a' <= digit <= 'f' {
        digit as int - 'a' as int + 10
    } else {
        -1
    }
}

/// The operations of the service have different addresses, all of them at the local service.
pub proof fn law_address_of_operation(resource_id: u16, other: u16)
    ensures
        usubscription::operation_uri(resource_id).authority_name.len() == 0,
        usubscription::operation_uri(resource_id).ue_id == USUBSCRIPTION_TYPE_ID,
        usubscription::operation_uri(resource_id).ue_version_major == USUBSCRIPTION_VERSION_MAJOR,
        usubscription::operation_uri(resource_id).resource_id == resource_id,
        usubscription::operation_uri(resource_id) == usubscription::operation_uri(other)
            <==> resource_id == other,
        USUBSCRIPTION_TYPE_ID == 0,
        USUBSCRIPTION_VERSION_MAJOR == 3,
{
}

/// Each operation has a resource identifier of its own.
pub proof fn law_resource_ids()
    ensures
        RESOURCE_ID_SUBSCRIBE == 1,
        RESOURCE_ID_UNSUBSCRIBE == 2,
        RESOURCE_ID_FETCH_SUBSCRIPTIONS == 3,
        RESOURCE_ID_REGISTER_FOR_NOTIFICATIONS == 6,
        RESOURCE_ID_UNREGISTER_FOR_NOTIFICATIONS == 7,
        RESOURCE_ID_RESET == 9,
{
}

/// An operation is invoked at its own address, with its payload, and has to be answered within five
/// seconds.
pub proof fn law_invocation(resource_id: u16, payload: Seq<u8>)
    ensures
        ({
            let invocation = client::operation(resource_id, payload);
            &&& invocation.method.authority_name.len() == 0
            &&& invocation.method.ue_id == 0
            &&& invocation.method.ue_version_major == 3
            &&& invocation.method.resource_id == resource_id
            &&& invocation.payload == payload
            &&& invocation.options.ttl == 5_000
            &&& invocation.options.message_id is None
            &&& invocation.options.token is None
            &&& invocation.options.priority is None
        }),
{
}

/// The payload that asks to subscribe holds the topic, the expiration to the millisecond and the
/// sample period, each of them exactly if it is given.
pub proof fn law_request_to_subscribe(
    topic: Uri,
    expiration: Option<u64>,
    min_sample_period: Option<u32>,
)
    requires
        uri::is_authority_name(topic.authority_name),
    ensures
        ({
            let payload = SubscribeRequestProto::encoded(
                client::subscribe_message(topic, expiration, min_sample_period),
            );
            let request = SubscribeRequestProto::decoded(payload, Limits::payload());
            &&& request is Ok
            &&& holds(request->Ok_0.topic, topic)
            &&& request->Ok_0.expiration is Some <==> expiration is Some
            &&& expiration matches Some(millis) ==> {
                let timestamp = request->Ok_0.expiration->Some_0;
                &&& timestamp.seconds * 1_000_000_000 + timestamp.nanos == millis * 1_000_000
                &&& 0 <= timestamp.nanos < 1_000_000_000
            }
            &&& request->Ok_0.sample_period == min_sample_period
        }),
{
    let message = client::subscribe_message(topic, expiration, min_sample_period);
    uri::lemma_encoded_uri_len(topic);
    client::lemma_subscribe_message_len(topic, expiration, min_sample_period);
    laws::law_subscribe_request_round_trip(message, Limits::payload());
}

/// The payload that asks to unsubscribe holds the topic.
pub proof fn law_request_to_unsubscribe(topic: Uri)
    requires
        uri::is_authority_name(topic.authority_name),
    ensures
        ({
            let payload = UnsubscribeRequestProto::encoded(client::unsubscribe_message(topic));
            let request = UnsubscribeRequestProto::decoded(payload, Limits::payload());
            request is Ok && holds(request->Ok_0.topic, topic)
        }),
{
    uri::lemma_encoded_uri_len(topic);
    client::lemma_uri_field_len(1, topic);
    laws::law_unsubscribe_request_round_trip(
        client::unsubscribe_message(topic),
        Limits::payload(),
    );
}

/// The payload that asks for subscriptions holds each of the two filters exactly if it is given,
/// whatever the other one is.
pub proof fn law_request_for_subscriptions(
    topic_filter: Option<Uri>,
    subscriber_filter: Option<Uri>,
)
    requires
        topic_filter matches Some(uri) ==> uri::is_authority_name(uri.authority_name),
        subscriber_filter matches Some(uri) ==> uri::is_authority_name(uri.authority_name),
    ensures
        ({
            let payload = FetchSubscriptionsRequestProto::encoded(
                client::fetch_message(topic_filter, subscriber_filter),
            );
            let request = FetchSubscriptionsRequestProto::decoded(payload, Limits::payload());
            &&& request is Ok
            &&& holds_if_any(request->Ok_0.topic_filter, topic_filter)
            &&& holds_if_any(request->Ok_0.subscriber_filter, subscriber_filter)
        }),
{
    let message = client::fetch_message(topic_filter, subscriber_filter);
    if let Some(uri) = topic_filter {
        uri::lemma_encoded_uri_len(uri);
        client::lemma_uri_field_len(1, uri);
    }
    if let Some(uri) = subscriber_filter {
        uri::lemma_encoded_uri_len(uri);
        client::lemma_uri_field_len(2, uri);
    }
    laws::law_fetch_subscriptions_request_round_trip(message, Limits::payload());
}

/// The payload of an operation that has nothing to say is empty.
pub proof fn law_empty_request()
    ensures
        EmptyProto::encoded(()).len() == 0,
{
}

/// A request to subscribe is read exactly if it has a well-formed topic and no expiration that is
/// not a date and time. All that it says is kept: where it comes from, the topic, the expiration to
/// the nanosecond, and the sample period.
pub proof fn law_subscribe_request_is_read(
    source: Uri,
    payload: Seq<u8>,
    message: SubscribeRequestMessage,
)
    requires
        SubscribeRequestProto::decoded(payload, Limits::payload()) == Ok::<_, Seq<char>>(message),
    ensures
        ({
            let request = server::usubscription_request(
                RESOURCE_ID_SUBSCRIBE,
                source,
                Some(payload),
            );
            &&& request is Ok <==> is_address(message.topic) && (message.expiration matches Some(
                timestamp,
            ) ==> 0 <= timestamp.nanos < 1_000_000_000 && -8_334_601_228_800 <= timestamp.seconds
                <= 8_210_266_876_799)
            &&& request is Ok ==> request->Ok_0 is Subscribe
            &&& request matches Ok(Request::Subscribe(request)) ==> {
                &&& request.subscriber == source
                &&& holds(message.topic, request.topic)
                &&& request.expiration is Some <==> message.expiration is Some
                &&& request.expiration matches Some((seconds, nanos)) ==> seconds
                    == message.expiration->Some_0.seconds && nanos
                    == message.expiration->Some_0.nanos
                &&& request.sample_period is Some <==> message.sample_period is Some
                &&& request.sample_period matches Some(nanos) ==> nanos
                    == message.sample_period->Some_0 * 1_000_000
            }
        }),
{
}

/// What is told of a request to subscribe that is refused: what is wrong with the topic, or else
/// with the expiration.
pub proof fn law_subscribe_request_is_refused(
    source: Uri,
    payload: Seq<u8>,
    message: SubscribeRequestMessage,
)
    requires
        SubscribeRequestProto::decoded(payload, Limits::payload()) == Ok::<_, Seq<char>>(message),
    ensures
        ({
            let request = server::usubscription_request(
                RESOURCE_ID_SUBSCRIBE,
                source,
                Some(payload),
            );
            &&& message.topic is None ==> fails(request, UCode::InvalidArgument, "missing topic"@)
            &&& message.topic matches Some(topic) ==> (uri::uri_of_message(topic) matches Err(error)
                ==> fails(
                request,
                UCode::InvalidArgument,
                "invalid topic URI: "@ + error.text(),
            ))
            &&& is_address(message.topic) ==> (message.expiration matches Some(timestamp) ==> {
                &&& timestamp.nanos < 0 || timestamp.nanos >= 1_000_000_000 ==> fails(
                    request,
                    UCode::InvalidArgument,
                    "invalid timestamp: nanos value out of range"@,
                )
                &&& 0 <= timestamp.nanos < 1_000_000_000 && !(-8_334_601_228_800
                    <= timestamp.seconds <= 8_210_266_876_799) ==> fails(
                    request,
                    UCode::InvalidArgument,
                    "invalid timestamp: seconds value out of range"@,
                )
            })
        }),
{
}

/// A request to unsubscribe is read exactly if it has a well-formed topic. Where it comes from and
/// the topic are kept.
pub proof fn law_unsubscribe_request_is_read(
    source: Uri,
    payload: Seq<u8>,
    message: UnsubscribeRequestMessage,
)
    requires
        UnsubscribeRequestProto::decoded(payload, Limits::payload()) == Ok::<_, Seq<char>>(message),
    ensures
        ({
            let request = server::usubscription_request(
                RESOURCE_ID_UNSUBSCRIBE,
                source,
                Some(payload),
            );
            &&& request is Ok <==> is_address(message.topic)
            &&& request is Ok ==> request->Ok_0 is Unsubscribe
            &&& request matches Ok(Request::Unsubscribe(request)) ==> request.subscriber == source
                && holds(message.topic, request.topic)
            &&& message.topic is None ==> fails(request, UCode::InvalidArgument, "missing topic"@)
            &&& message.topic matches Some(topic) ==> (uri::uri_of_message(topic) matches Err(error)
                ==> fails(
                request,
                UCode::InvalidArgument,
                "invalid topic URI: "@ + error.text(),
            ))
        }),
{
}

/// A request without a payload, or with one that does not hold the message of the operation, is
/// refused, and what is wrong with the payload is told.
pub proof fn law_payload_of_request(source: Uri, payload: Seq<u8>)
    ensures
        fails(
            server::usubscription_request(RESOURCE_ID_SUBSCRIBE, source, None),
            UCode::InvalidArgument,
            "missing request payload"@,
        ),
        fails(
            server::usubscription_request(RESOURCE_ID_UNSUBSCRIBE, source, None),
            UCode::InvalidArgument,
            "missing request payload"@,
        ),
        SubscribeRequestProto::decoded(payload, Limits::payload()) matches Err(error) ==> fails(
            server::usubscription_request(RESOURCE_ID_SUBSCRIBE, source, Some(payload)),
            UCode::InvalidArgument,
            "payload is not a valid: "@ + error,
        ),
        UnsubscribeRequestProto::decoded(payload, Limits::payload()) matches Err(error) ==> fails(
            server::usubscription_request(RESOURCE_ID_UNSUBSCRIBE, source, Some(payload)),
            UCode::InvalidArgument,
            "payload is not a valid: "@ + error,
        ),
{
}

/// The digits that tell which operation is not supported make up its resource identifier.
pub proof fn law_resource_id_text(resource_id: u16)
    ensures
        ({
            let text = server::resource_id_text(resource_id);
            &&& text.len() == 6
            &&& text[0] == '0' && text[1] == 'x'
            &&& forall|i: int| 2 <= i < 6 ==> 0 <= hex_value(#[trigger] text[i]) < 16
            &&& hex_value(text[2]) * 4096 + hex_value(text[3]) * 256 + hex_value(text[4]) * 16
                + hex_value(text[5]) == resource_id
        }),
{
    lemma_hex_digit(resource_id as int / 4096);
    lemma_hex_digit(resource_id as int / 256 % 16);
    lemma_hex_digit(resource_id as int / 16 % 16);
    lemma_hex_digit(resource_id as int % 16);
}

/// A hexadecimal digit has the value that it stands for.
proof fn lemma_hex_digit(number: int)
    requires
        0 <= number < 16,
    ensures
        hex_value(server::hex_digit(number)) == number,
{
}

/// Operations other than subscribing and unsubscribing are not supported, whatever the payload.
pub proof fn law_unsupported_operation(resource_id: u16, source: Uri, payload: Option<Seq<u8>>)
    requires
        resource_id != 1,
        resource_id != 2,
    ensures
        fails(
            server::usubscription_request(resource_id, source, payload),
            UCode::Unimplemented,
            "unsupported uSubscription resource id: "@ + server::resource_id_text(resource_id),
        ),
{
}

/// The payload of a response to a request to subscribe holds the topic and the status.
pub proof fn law_response_to_subscribe(topic: Uri, status: SubscriptionStatus)
    requires
        uri::is_authority_name(topic.authority_name),
    ensures
        ({
            let payload = server::payload_of_response(
                Response::Subscribe(Subscribed { topic, status }),
            );
            let response = SubscribeResponseProto::decoded(payload, Limits::payload());
            &&& response is Ok
            &&& holds(response->Ok_0.topic, topic)
            &&& response->Ok_0.status == number_of(status)
            &&& payload == SubscribeResponseProto::encoded(
                SubscribeResponse::message(Subscribed { topic, status }),
            )
        }),
{
    let response = Subscribed { topic, status };
    let message = SubscribeResponse::message(response);
    assert(holds(message.topic, topic));
    uri::lemma_encoded_uri_len(topic);
    server::lemma_encoded_subscribe_response_len(response);
    laws::law_subscribe_response_round_trip(message, Limits::payload());
}

/// The payload of a response to a request to unsubscribe is empty.
pub proof fn law_response_to_unsubscribe()
    ensures
        server::payload_of_response(Response::Unsubscribe).len() == 0,
{
}

/// The status of a subscription is read from a reply exactly if its number is that of a status.
pub proof fn law_reply_to_subscribe(payload: UPayload, message: SubscribeResponseMessage)
    requires
        SubscribeResponseProto::decoded(payload@, Limits::payload()) == Ok::<_, Seq<char>>(message),
    ensures
        ({
            let result = client::subscribe_result(Ok(Some(payload)));
            &&& result is Ok <==> 1 <= message.status <= 4
            &&& result matches Ok(status) ==> number_of(status) == message.status
            &&& message.status == 0 ==> fails(
                result,
                UCode::InvalidArgument,
                "subscription status is unspecified"@,
            )
            &&& message.status < 0 || message.status > 4 ==> fails(
                result,
                UCode::InvalidArgument,
                "uSubscription returned invalid response: no subscription status"@,
            )
        }),
{
}

/// A reply that holds a message is that message. One without a payload, or with one that does not
/// hold the message, fails, and what is wrong with the payload is told.
pub proof fn law_reply<M: Decode>(payload: UPayload, message: M::V, error: Seq<char>)
    ensures
        M::decoded(payload@, Limits::payload()) == Ok::<_, Seq<char>>(message)
            ==> client::reply_content::<M>(Ok(Some(payload))) == Ok::<_, Status>(message),
        M::decoded(payload@, Limits::payload()) == Err::<M::V, _>(error) ==> fails(
            client::reply_content::<M>(Ok(Some(payload))),
            UCode::InvalidArgument,
            error,
        ),
        fails(
            client::reply_content::<M>(Ok(None)),
            UCode::InvalidArgument,
            "RPC response has no payload"@,
        ),
{
}

/// A reply from which no message can be read fails the operations that read one from it alike.
pub proof fn law_failed_reply(reply: RpcReply)
    ensures
        client::reply_content::<SubscribeResponseProto>(reply) matches Err(status)
            ==> client::subscribe_result(reply) == Err::<SubscriptionStatus, _>(status),
        client::reply_content::<FetchSubscriptionsResponseProto>(reply) matches Err(status)
            ==> client::fetch_result(reply) == Err::<Seq<Subscription>, _>(status),
{
}

/// Each reason why an invocation fails has its code, and what was told of it is passed on.
pub proof fn law_status_of_failed_invocation(text: String, given: UStatus, reply: RpcReply)
    ensures
        reply matches Err(error) ==> client::reply_content::<EmptyProto>(reply) == Err::<(), _>(
            communication::status_of_error(error),
        ),
        communication::status_of_error(ServiceInvocationError::RpcError(given)) == given@,
        ({
            let status = |error: ServiceInvocationError|
                Err::<(), Status>(communication::status_of_error(error));
            &&& fails(
                status(ServiceInvocationError::AlreadyExists(text)),
                UCode::AlreadyExists,
                text@,
            )
            &&& fails(
                status(ServiceInvocationError::DeadlineExceeded),
                UCode::DeadlineExceeded,
                "request timed out"@,
            )
            &&& fails(
                status(ServiceInvocationError::FailedPrecondition(text)),
                UCode::FailedPrecondition,
                text@,
            )
            &&& fails(status(ServiceInvocationError::Internal(text)), UCode::Internal, text@)
            &&& fails(
                status(ServiceInvocationError::InvalidArgument(text)),
                UCode::InvalidArgument,
                text@,
            )
            &&& fails(status(ServiceInvocationError::NotFound(text)), UCode::NotFound, text@)
            &&& fails(
                status(ServiceInvocationError::PermissionDenied(text)),
                UCode::PermissionDenied,
                text@,
            )
            &&& fails(
                status(ServiceInvocationError::ResourceExhausted(text)),
                UCode::ResourceExhausted,
                text@,
            )
            &&& fails(
                status(ServiceInvocationError::Unauthenticated(text)),
                UCode::Unauthenticated,
                text@,
            )
            &&& fails(
                status(ServiceInvocationError::Unavailable(text)),
                UCode::Unavailable,
                text@,
            )
            &&& fails(
                status(ServiceInvocationError::Unimplemented(text)),
                UCode::Unimplemented,
                text@,
            )
        }),
{
}

/// Whether a message can stand for a subscription: both addresses, the status and the expiration,
/// where there is one, are valid.
pub open spec fn can_stand(message: SubscriptionMessage) -> bool {
    &&& is_address(message.topic)
    &&& is_address(message.subscriber)
    &&& 1 <= message.status <= 4
    &&& message.expiration matches Some(timestamp) ==> {
        &&& 0 <= timestamp.nanos < 1_000_000_000
        &&& timestamp.seconds >= 0
        &&& timestamp.seconds * 1000 + timestamp.nanos as int / 1_000_000 <= u64::MAX
    }
}

/// Whether a message stands for a subscription: it holds all that the subscription does, with the
/// expiration down to what is less than a millisecond.
pub open spec fn stands_for(message: SubscriptionMessage, subscription: Subscription) -> bool {
    &&& holds(message.topic, subscription.topic)
    &&& holds(message.subscriber, subscription.subscriber)
    &&& message.status == number_of(subscription.status)
    &&& subscription.expiration is Some <==> message.expiration is Some
    &&& subscription.expiration matches Some(millis) ==> are_millis_of(
        millis,
        message.expiration->Some_0,
    )
    &&& subscription.sample_period == message.sample_period
}

/// A subscription is made of a message exactly if all of it is valid, and then the message stands
/// for it.
pub proof fn law_subscription_of_message(message: SubscriptionMessage)
    ensures
        client::subscription_of_message(message) is Ok <==> can_stand(message),
        client::subscription_of_message(message) matches Ok(subscription) ==> stands_for(
            message,
            subscription,
        ),
{
}

/// What is told of a message that does not stand for a subscription is what is wrong with the
/// topic, the subscriber, the status or the expiration, in this order.
pub proof fn law_refused_subscription(message: SubscriptionMessage)
    ensures
        ({
            let result = client::subscription_of_message(message);
            let invalid = UCode::InvalidArgument;
            let topic = is_address(message.topic);
            let subscriber = is_address(message.subscriber);
            &&& message.topic is None ==> fails(result, invalid, "topic missing"@)
            &&& message.topic is Some && !topic ==> fails(result, invalid, "invalid topic"@)
            &&& topic && message.subscriber is None ==> fails(
                result,
                invalid,
                "subscriber missing"@,
            )
            &&& topic && message.subscriber is Some && !subscriber ==> fails(
                result,
                invalid,
                "invalid subscriber"@,
            )
            &&& topic && subscriber && message.status == 0 ==> fails(
                result,
                invalid,
                "subscription status is unspecified"@,
            )
            &&& topic && subscriber && (message.status < 0 || message.status > 4) ==> fails(
                result,
                invalid,
                "subscription status missing"@,
            )
            &&& topic && subscriber && 1 <= message.status <= 4 ==> (
            message.expiration matches Some(timestamp) ==> {
                let nanos = 0 <= timestamp.nanos < 1_000_000_000;
                &&& !nanos ==> fails(
                    result,
                    invalid,
                    "invalid timestamp: nanos value out of range"@,
                )
                &&& nanos && (timestamp.seconds < 0 || timestamp.seconds * 1000
                    + timestamp.nanos as int / 1_000_000 > u64::MAX) ==> fails(
                    result,
                    invalid,
                    "invalid timestamp: seconds value out of range"@,
                )
            })
        }),
{
}

/// All subscriptions are fetched from a reply, each of them the one that its message stands for,
/// exactly if each message can stand for one.
pub proof fn law_reply_with_subscriptions(payload: UPayload, messages: Seq<SubscriptionMessage>)
    requires
        FetchSubscriptionsResponseProto::decoded(payload@, Limits::payload()) == Ok::<_, Seq<char>>(
            messages,
        ),
    ensures
        ({
            let result = client::fetch_result(Ok(Some(payload)));
            &&& result is Ok <==> forall|i: int|
                0 <= i < messages.len() ==> can_stand(#[trigger] messages[i])
            &&& result matches Ok(subscriptions) ==> {
                &&& subscriptions.len() == messages.len()
                &&& forall|i: int|
                    0 <= i < messages.len() ==> stands_for(
                        #[trigger] messages[i],
                        subscriptions[i],
                    )
            }
        }),
{
    laws::law_all_subscriptions_are_fetched(messages);
    assert forall|i: int| 0 <= i < messages.len() implies (client::subscription_of_message(
        #[trigger] messages[i],
    ) is Ok <==> can_stand(messages[i])) by {
        law_subscription_of_message(messages[i]);
    }
    if client::subscriptions_of_messages(messages) is Ok {
        let subscriptions = client::subscriptions_of_messages(messages)->Ok_0;
        assert forall|i: int| 0 <= i < messages.len() implies stands_for(
            #[trigger] messages[i],
            subscriptions[i],
        ) by {
            law_subscription_of_message(messages[i]);
        }
    }
}

/// Fetching subscriptions fails as the first message does that does not stand for one.
pub proof fn law_first_refused_subscription(messages: Seq<SubscriptionMessage>, first: int)
    requires
        0 <= first < messages.len(),
        forall|i: int|
            0 <= i < first ==> client::subscription_of_message(#[trigger] messages[i]) is Ok,
        client::subscription_of_message(messages[first]) is Err,
    ensures
        client::subscriptions_of_messages(messages) == Err::<Seq<Subscription>, _>(
            client::subscription_of_message(messages[first])->Err_0,
        ),
    decreases messages.len(),
{
    let front = messages.drop_last();
    if first == messages.len() - 1 {
        laws::law_all_subscriptions_are_fetched(front);
        assert(forall|i: int| 0 <= i < front.len() ==> front[i] == #[trigger] messages[i]);
        assert forall|i: int| 0 <= i < front.len() implies client::subscription_of_message(
            #[trigger] front[i],
        ) is Ok by {
            assert(client::subscription_of_message(messages[i]) is Ok);
        }
    } else {
        assert forall|i: int| 0 <= i < first implies client::subscription_of_message(
            #[trigger] front[i],
        ) is Ok by {
            assert(client::subscription_of_message(messages[i]) is Ok);
        }
        law_first_refused_subscription(front, first);
    }
}

/// Milliseconds since the Unix epoch are put into a point in time without loss.
pub proof fn law_timestamp_of_millis(millis: u64)
    ensures
        timestamp::timestamp_of_millis(millis).seconds * 1_000_000_000
            + timestamp::timestamp_of_millis(millis).nanos == millis * 1_000_000,
        0 <= timestamp::timestamp_of_millis(millis).nanos < 1_000_000_000,
{
}

/// A point in time has milliseconds exactly if its nanoseconds are less than a second, it is not
/// before the Unix epoch and they fit 64 bits.
pub proof fn law_millis_of_timestamp(timestamp: Timestamp)
    ensures
        ({
            let millis = timestamp::millis_of_timestamp(timestamp);
            let nanos = timestamp.seconds * 1_000_000_000 + timestamp.nanos;
            let valid = 0 <= timestamp.nanos < 1_000_000_000;
            &&& millis is Ok <==> valid && 0 <= nanos < (u64::MAX + 1) * 1_000_000
            &&& millis matches Ok(millis) ==> are_millis_of(millis, timestamp)
            &&& !valid ==> fails(
                millis,
                UCode::InvalidArgument,
                "invalid timestamp: nanos value out of range"@,
            )
            &&& valid && millis is Err ==> fails(
                millis,
                UCode::InvalidArgument,
                "invalid timestamp: seconds value out of range"@,
            )
        }),
{
}

/// A point in time is a date and time exactly if its nanoseconds are less than a second and its
/// seconds are within the years that there are. Not one nanosecond is lost.
pub proof fn law_date_time_of_timestamp(timestamp: Timestamp)
    ensures
        ({
            let date_time = time::date_time_of_timestamp(timestamp);
            let valid = 0 <= timestamp.nanos < 1_000_000_000;
            &&& date_time is Ok <==> valid && -8_334_601_228_800 <= timestamp.seconds
                <= 8_210_266_876_799
            &&& date_time matches Ok((seconds, nanos)) ==> seconds == timestamp.seconds && nanos
                == timestamp.nanos
            &&& !valid ==> fails(
                date_time,
                UCode::InvalidArgument,
                "invalid timestamp: nanos value out of range"@,
            )
            &&& valid && date_time is Err ==> fails(
                date_time,
                UCode::InvalidArgument,
                "invalid timestamp: seconds value out of range"@,
            )
        }),
{
}

/// There is a date and time for each nanosecond of the years that there are, and for those of a
/// leap second at the end of a minute.
pub proof fn law_date_time(seconds: int, nanos: int)
    ensures
        time::is_date_time(seconds, nanos) ==> -8_334_601_228_800 <= seconds <= 8_210_266_876_799,
        -8_334_601_228_800 <= seconds <= 8_210_266_876_799 ==> {
            &&& 0 <= nanos < 1_000_000_000 ==> time::is_date_time(seconds, nanos)
            &&& 1_000_000_000 <= nanos < 2_000_000_000 ==> (time::is_date_time(seconds, nanos)
                <==> seconds % 60 == 59)
            &&& nanos < 0 || nanos >= 2_000_000_000 ==> !time::is_date_time(seconds, nanos)
        },
{
}

/// A sample period has a million nanoseconds for each of its milliseconds.
pub proof fn law_sample_period(millis: Option<u32>)
    ensures
        server::sample_period_nanos(millis) is Some <==> millis is Some,
        millis is Some ==> server::sample_period_nanos(millis)->Some_0 == millis->Some_0
            * 1_000_000,
{
}

/// A text is an authority name if it is empty, the wildcard alone, or a name other than the
/// wildcard with one more permitted character, up to 128 of them.
pub proof fn law_authority_name(name: Seq<char>, c: char)
    ensures
        uri::is_authority_name(seq![]),
        uri::is_authority_name(name.push(c)) <==> name.len() == 0 && c == '*' || (
        uri::is_authority_name(name) && name != seq!['*'] && name.len() < 128 && ('a' <= c <= 'z'
            || '0' <= c <= '9' || c == '-' || c == '.' || c == '_' || c == '~')),
{
    let longer = name.push(c);
    assert(longer.drop_last() =~= name);
    assert(longer[longer.len() - 1] == c);
    assert(forall|i: int| 0 <= i < name.len() ==> longer[i] == #[trigger] name[i]);
    if name.len() == 0 {
        assert(name =~= seq![]);
        if c == '*' {
            assert(longer =~= seq!['*']);
        }
    }
    if longer == seq!['*'] {
        assert(longer.len() == 1 && longer[0] == '*');
    }
    if name == seq!['*'] {
        assert(name.len() == 1 && name[0] == '*');
        assert(longer[0] == '*');
        assert(!uri::is_authority_char(longer[0]));
    }
    if uri::is_authority_name(longer) && longer != seq!['*'] {
        assert forall|i: int| 0 <= i < name.len() implies uri::is_authority_char(
            #[trigger] name[i],
        ) by {
            assert(uri::is_authority_char(longer[i]));
        }
        assert(uri::is_authority_char(longer[longer.len() - 1]));
    }
}

/// The message of an address holds the address.
pub proof fn law_message_of_address(uri: Uri)
    ensures
        holds(Some(uri::message_of_uri(uri)), uri),
{
}

/// An address is made of a message exactly if it has a valid name and numbers that are not too
/// large. What is wrong with it is told in the order of its parts.
pub proof fn law_address_of_message(message: UriMessage)
    ensures
        ({
            let result = uri::uri_of_message(message);
            let name = uri::is_authority_name(message.authority_name);
            let version = message.ue_version_major <= 0xff;
            &&& result is Ok <==> name && version && message.resource_id <= 0xffff
            &&& result matches Ok(uri) ==> holds(Some(message), uri)
            &&& !name ==> result == Err::<Uri, _>(UUriError::AuthorityName)
            &&& name && !version ==> result == Err::<Uri, _>(UUriError::EntityVersion)
            &&& name && version && message.resource_id > 0xffff ==> result == Err::<Uri, _>(
                UUriError::ResourceId,
            )
        }),
        UUriError::AuthorityName.text() == "invalid authority name"@,
        UUriError::EntityVersion.text() == "uEntity version out of range"@,
        UUriError::ResourceId.text() == "resource ID out of range"@,
{
}

/// The topic of a request is the address in its message. What is wrong with one that is not an
/// address is told.
pub proof fn law_required_topic(topic: Option<UriMessage>)
    ensures
        server::required_topic(topic) is Ok <==> is_address(topic),
        server::required_topic(topic) matches Ok(uri) ==> holds(topic, uri),
        topic is None ==> fails(
            server::required_topic(topic),
            UCode::InvalidArgument,
            "missing topic"@,
        ),
        topic matches Some(message) ==> (uri::uri_of_message(message) matches Err(error) ==> fails(
            server::required_topic(topic),
            UCode::InvalidArgument,
            "invalid topic URI: "@ + error.text(),
        )),
{
}

/// Each status of a subscription has its own number on the wire, and no other number is that of a
/// status.
pub proof fn law_number_of_status(status: SubscriptionStatus, number: i32, unknown: Seq<char>)
    ensures
        communication::status_number(communication::proto_of_status(status)) == number_of(status),
        communication::proto_of_status(status) != SubscriptionStatusProto::StatusUnspecified,
        communication::status_number(SubscriptionStatusProto::StatusUnspecified) == 0,
        communication::status_number(SubscriptionStatusProto::StatusUnsubscribed) == 1,
        communication::status_number(SubscriptionStatusProto::StatusSubscribePending) == 2,
        communication::status_number(SubscriptionStatusProto::StatusSubscribed) == 3,
        communication::status_number(SubscriptionStatusProto::StatusUnsubscribePending) == 4,
        ({
            let result = communication::status_of_number(number, unknown);
            &&& result is Ok <==> 1 <= number <= 4
            &&& result matches Ok(status) ==> number_of(status) == number
            &&& number == 0 ==> fails(
                result,
                UCode::InvalidArgument,
                "subscription status is unspecified"@,
            )
            &&& number < 0 || number > 4 ==> fails(result, UCode::InvalidArgument, unknown)
        }),
{
}

/// An argument that is not valid has the code for that and the given message.
pub proof fn law_invalid_argument(message: Seq<char>)
    ensures
        status::invalid_argument(message).code == UCode::InvalidArgument,
        status::invalid_argument(message).message == message,
{
}

/// What a payload holds is what its bytes are read as.
pub proof fn law_content_of_payload<M: Decode>(payload: Seq<u8>)
    ensures
        communication::payload_content::<M>(payload) == M::decoded(payload, Limits::payload()),
{
}

/// A value that may be absent is absent exactly if its model is.
pub proof fn law_optional<T: View>(value: T)
    ensures
        proto::optional(Some(value)) == Some(value@),
        proto::optional::<T>(None) is None,
{
}

/// Requests are what their parts are.
pub proof fn law_parts_of_requests(subscribe: SubscribeRequest, unsubscribe: UnsubscribeRequest)
    ensures
        subscribe@.subscriber == subscribe.subscriber@,
        subscribe@.topic == subscribe.topic@,
        subscribe@.expiration is Some <==> subscribe.expiration is Some,
        subscribe.expiration is Some ==> subscribe@.expiration->Some_0
            == subscribe.expiration->Some_0@,
        subscribe@.sample_period is Some <==> subscribe.sample_period is Some,
        subscribe.sample_period is Some ==> subscribe@.sample_period->Some_0
            == subscribe.sample_period->Some_0@,
        unsubscribe@.subscriber == unsubscribe.subscriber@,
        unsubscribe@.topic == unsubscribe.topic@,
        USubscriptionRequest::Subscribe(subscribe)@ == Request::Subscribe(subscribe@),
        USubscriptionRequest::Unsubscribe(unsubscribe)@ == Request::Unsubscribe(unsubscribe@),
{
}

/// Responses are what their parts are.
pub proof fn law_parts_of_responses(
    subscribe: SubscribeResponse,
    unsubscribe: UnsubscribeResponse,
)
    ensures
        subscribe@.topic == subscribe.topic@,
        subscribe@.status == subscribe.status,
        USubscriptionResponse::Subscribe(subscribe)@ == Response::Subscribe(subscribe@),
        USubscriptionResponse::Unsubscribe(unsubscribe)@ == Response::Unsubscribe,
{
}

/// Subscriptions and invocations are what their parts are.
pub proof fn law_parts_of_subscriptions_and_invocations(
    info: SubscriptionInfo,
    invocation: RpcInvocation,
)
    ensures
        info@.topic == info.topic@,
        info@.subscriber == info.subscriber@,
        info@.status == info.status,
        info@.expiration == info.expiration,
        info@.sample_period == info.sample_period,
        invocation@.method == invocation.method@,
        invocation@.options == invocation.options@,
        invocation@.payload == invocation.payload@,
{
}

/// Messages are what their fields are.
pub proof fn law_fields_of_messages(
    uri: UUriProto,
    timestamp: Timestamp,
    subscribe: SubscribeRequestProto,
    unsubscribe: UnsubscribeRequestProto,
    response: SubscribeResponseProto,
)
    ensures
        uri@.authority_name == uri.authority_name@,
        uri@.ue_id == uri.ue_id,
        uri@.ue_version_major == uri.ue_version_major,
        uri@.resource_id == uri.resource_id,
        timestamp@ == timestamp,
        subscribe@.topic is Some <==> subscribe.topic is Some,
        subscribe.topic is Some ==> subscribe@.topic->Some_0 == subscribe.topic->Some_0@,
        subscribe@.expiration == subscribe.expiration,
        subscribe@.sample_period == subscribe.sample_period,
        unsubscribe@.topic is Some <==> unsubscribe.topic is Some,
        unsubscribe.topic is Some ==> unsubscribe@.topic->Some_0 == unsubscribe.topic->Some_0@,
        response@.topic is Some <==> response.topic is Some,
        response.topic is Some ==> response@.topic->Some_0 == response.topic->Some_0@,
        response@.status == response.status,
{
}

/// Messages about subscriptions are what their fields are.
pub proof fn law_fields_of_subscription_messages(
    subscription: SubscriptionProto,
    request: FetchSubscriptionsRequestProto,
    response: FetchSubscriptionsResponseProto,
)
    ensures
        subscription@.topic is Some <==> subscription.topic is Some,
        subscription.topic is Some ==> subscription@.topic->Some_0 == subscription.topic->Some_0@,
        subscription@.subscriber is Some <==> subscription.subscriber is Some,
        subscription.subscriber is Some ==> subscription@.subscriber->Some_0
            == subscription.subscriber->Some_0@,
        subscription@.status == subscription.status,
        subscription@.expiration == subscription.expiration,
        subscription@.sample_period == subscription.sample_period,
        request@.topic_filter is Some <==> request.topic_filter is Some,
        request.topic_filter is Some ==> request@.topic_filter->Some_0
            == request.topic_filter->Some_0@,
        request@.subscriber_filter is Some <==> request.subscriber_filter is Some,
        request.subscriber_filter is Some ==> request@.subscriber_filter->Some_0
            == request.subscriber_filter->Some_0@,
        response@.len() == response.subscriptions@.len(),
        forall|i: int|
            0 <= i < response@.len() ==> #[trigger] response@[i] == response.subscriptions@[i]@,
{
}

/// Limits and errors are what their parts are.
pub proof fn law_parts_of_limits_and_errors(limits: ReadLimits, error: DecodeError)
    ensures
        limits@.bound == limits.bound,
        limits@.room == limits.room,
        limits@.depth == limits.depth,
        error@ == error.message@,
{
}

/// What a field that may be left out takes up: nothing for zero, and else a tag and the number.
pub open spec fn is_number_field(bytes: Seq<u8>, number: u32, value: int) -> bool {
    if value == 0 {
        bytes.len() == 0
    } else {
        bytes == wire::integer_field(number, value)
    }
}

/// What a field with a message takes up: nothing where there is none, and else a tag, the length
/// and the message.
pub open spec fn is_message_field(bytes: Seq<u8>, number: u32, encoded: Option<Seq<u8>>) -> bool {
    match encoded {
        Some(encoded) => bytes == wire::bytes_field(number, encoded),
        None => bytes.len() == 0,
    }
}

/// What an address takes up where there is one.
pub open spec fn address_bytes(message: Option<UriMessage>) -> Option<Seq<u8>> {
    match message {
        Some(message) => Some(UUriProto::encoded(message)),
        None => None,
    }
}

/// What a point in time takes up where there is one.
pub open spec fn timestamp_bytes(timestamp: Option<Timestamp>) -> Option<Seq<u8>> {
    match timestamp {
        Some(timestamp) => Some(Timestamp::encoded(timestamp)),
        None => None,
    }
}

/// The bytes of an address are those of its parts, where they are not empty or zero, in the order
/// of their field numbers.
pub proof fn law_bytes_of_address(
    message: UriMessage,
    name: Seq<u8>,
    entity: Seq<u8>,
    version: Seq<u8>,
    resource: Seq<u8>,
)
    requires
        message.authority_name.len() == 0 ==> name.len() == 0,
        message.authority_name.len() > 0 ==> name == wire::text_field(1, message.authority_name),
        is_number_field(entity, 2, message.ue_id as int),
        is_number_field(version, 3, message.ue_version_major as int),
        is_number_field(resource, 4, message.resource_id as int),
    ensures
        UUriProto::encoded(message) =~= name + entity + version + resource,
{
}

/// The bytes of a point in time are those of its parts that are not zero, in the order of their
/// field numbers.
pub proof fn law_bytes_of_timestamp(timestamp: Timestamp, seconds: Seq<u8>, nanos: Seq<u8>)
    requires
        is_number_field(seconds, 1, timestamp.seconds as int),
        is_number_field(nanos, 2, timestamp.nanos as int),
    ensures
        Timestamp::encoded(timestamp) =~= seconds + nanos,
{
}

/// The bytes of a request are those of its parts that are there, in the order of their field
/// numbers.
pub proof fn law_bytes_of_requests(
    subscribe: SubscribeRequestMessage,
    unsubscribe: UnsubscribeRequestMessage,
    fetch: FetchSubscriptionsRequestMessage,
    first: Seq<u8>,
    second: Seq<u8>,
    third: Seq<u8>,
)
    ensures
        is_message_field(first, 1, address_bytes(subscribe.topic)) && is_message_field(
            second,
            2,
            timestamp_bytes(subscribe.expiration),
        ) && (subscribe.sample_period is None ==> third.len() == 0) && (
        subscribe.sample_period matches Some(millis) ==> third == wire::integer_field(
            3,
            millis as int,
        )) ==> SubscribeRequestProto::encoded(subscribe) =~= first + second + third,
        is_message_field(first, 1, address_bytes(unsubscribe.topic))
            ==> UnsubscribeRequestProto::encoded(unsubscribe) =~= first,
        is_message_field(first, 1, address_bytes(fetch.topic_filter)) && is_message_field(
            second,
            2,
            address_bytes(fetch.subscriber_filter),
        ) ==> FetchSubscriptionsRequestProto::encoded(fetch) =~= first + second,
{
}

/// The bytes of a response to a request to subscribe are those of its parts that are there, in the
/// order of their field numbers.
pub proof fn law_bytes_of_response(
    message: SubscribeResponseMessage,
    topic: Seq<u8>,
    status: Seq<u8>,
)
    requires
        is_message_field(topic, 1, address_bytes(message.topic)),
        is_number_field(status, 2, message.status as int),
    ensures
        SubscribeResponseProto::encoded(message) =~= topic + status,
{
}

/// The bytes of a subscription are those of its parts that are there, in the order of their field
/// numbers.
pub proof fn law_bytes_of_subscription(
    message: SubscriptionMessage,
    topic: Seq<u8>,
    subscriber: Seq<u8>,
    status: Seq<u8>,
    expiration: Seq<u8>,
    sample_period: Seq<u8>,
)
    requires
        is_message_field(topic, 1, address_bytes(message.topic)),
        is_message_field(subscriber, 2, address_bytes(message.subscriber)),
        is_number_field(status, 3, message.status as int),
        is_message_field(expiration, 4, timestamp_bytes(message.expiration)),
        message.sample_period is None ==> sample_period.len() == 0,
        message.sample_period matches Some(millis) ==> sample_period == wire::integer_field(
            5,
            millis as int,
        ),
    ensures
        SubscriptionProto::encoded(message) =~= topic + subscriber + status + expiration
            + sample_period,
{
}

/// One more subscription in a response is one more field at its end.
pub proof fn law_bytes_of_subscriptions(
    messages: Seq<SubscriptionMessage>,
    last: SubscriptionMessage,
)
    ensures
        FetchSubscriptionsResponseProto::encoded(seq![]).len() == 0,
        FetchSubscriptionsResponseProto::encoded(messages.push(last))
            == FetchSubscriptionsResponseProto::encoded(messages) + wire::bytes_field(
            1,
            SubscriptionProto::encoded(last),
        ),
{
    assert(messages.push(last).drop_last() =~= messages);
}

} // verus!
