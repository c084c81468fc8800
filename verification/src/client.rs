//! The client's side of the uSubscription service.
//!
//! Each operation has two parts. The first makes the invocation that has to be sent, the second
//! makes the operation's result of the reply. What lies between them, sending the one and waiting
//! for the other, is up to the RPC client.

use crate::communication::{
    CallOptions, Options, ServiceInvocationError, SubscriptionStatus, UPayload,
};
use crate::message::{Decode, Encode};
use crate::proto::{
    EmptyProto, FetchSubscriptionsRequestMessage, FetchSubscriptionsRequestProto,
    FetchSubscriptionsResponseProto, SubscribeRequestMessage, SubscribeRequestProto,
    SubscribeResponseProto, SubscriptionMessage, SubscriptionProto, UnsubscribeRequestMessage,
    UnsubscribeRequestProto,
};
use crate::status::{Status, UCode, UStatus};
use crate::timestamp::Timestamp;
use crate::uri::{UUri, UUriProto, Uri, UriMessage};
use crate::usubscription::{
    Subscription, SubscriptionInfo, RESOURCE_ID_FETCH_SUBSCRIPTIONS,
    RESOURCE_ID_REGISTER_FOR_NOTIFICATIONS, RESOURCE_ID_RESET, RESOURCE_ID_SUBSCRIBE,
    RESOURCE_ID_UNREGISTER_FOR_NOTIFICATIONS, RESOURCE_ID_UNSUBSCRIBE,
};
use crate::{communication, proto, status, timestamp, uri, usubscription, wire};
use std::sync::Arc;
use vstd::prelude::*;

verus! {

/// The address in a message, or why there is none.
pub open spec fn address(
    message: Option<UriMessage>,
    missing: Seq<char>,
    invalid: Seq<char>,
) -> Result<Uri, Status> {
    match message {
        None => Err(status::invalid_argument(missing)),
        Some(message) => match uri::uri_of_message(message) {
            Ok(uri) => Ok(uri),
            Err(_) => Err(status::invalid_argument(invalid)),
        },
    }
}

/// The expiration in a message, in milliseconds since the Unix epoch.
pub open spec fn expiration(message: Option<Timestamp>) -> Result<Option<u64>, Status> {
    match message {
        None => Ok(None),
        Some(timestamp) => match timestamp::millis_of_timestamp(timestamp) {
            Ok(millis) => Ok(Some(millis)),
            Err(status) => Err(status),
        },
    }
}

/// The subscription that a message stands for, or why it does not stand for any. The first of
/// the message's fields that is missing or not valid decides.
pub open spec fn subscription_of_message(message: SubscriptionMessage) -> Result<
    Subscription,
    Status,
> {
    match (
        address(message.topic, "topic missing"@, "invalid topic"@),
        address(message.subscriber, "subscriber missing"@, "invalid subscriber"@),
        communication::status_of_number(message.status, "subscription status missing"@),
        expiration(message.expiration),
    ) {
        (Err(status), _, _, _) => Err(status),
        (_, Err(status), _, _) => Err(status),
        (_, _, Err(status), _) => Err(status),
        (_, _, _, Err(status)) => Err(status),
        (Ok(topic), Ok(subscriber), Ok(status), Ok(expiration)) => Ok(
            Subscription {
                topic,
                subscriber,
                status,
                expiration,
                sample_period: message.sample_period,
            },
        ),
    }
}

/// Extracts an address from a message.
fn require_address(message: &Option<UUriProto>, missing: &str, invalid: &str) -> (r: Result<
    UUri,
    UStatus,
>)
    ensures
        match address(proto::optional(*message), missing@, invalid@) {
            Ok(uri) => r is Ok && r->Ok_0@ == uri,
            Err(status) => r is Err && r->Err_0@ == status,
        },
{
    match message {
        None => Err(UStatus::fail_with_code(UCode::InvalidArgument, missing)),
        Some(message) => match UUri::try_from(message) {
            Ok(uri) => Ok(uri),
            Err(_) => Err(UStatus::fail_with_code(UCode::InvalidArgument, invalid)),
        },
    }
}

impl SubscriptionInfo {
    /// Makes the subscription that a message stands for.
    pub fn try_from(message: &SubscriptionProto) -> (r: Result<SubscriptionInfo, UStatus>)
        ensures
            match subscription_of_message(message@) {
                Ok(subscription) => r is Ok && r->Ok_0@ == subscription,
                Err(status) => r is Err && r->Err_0@ == status,
            },
    {
        let topic = match require_address(&message.topic, "topic missing", "invalid topic") {
            Ok(topic) => topic,
            Err(status) => {
                return Err(status);
            },
        };
        let subscriber = match require_address(
            &message.subscriber,
            "subscriber missing",
            "invalid subscriber",
        ) {
            Ok(subscriber) => subscriber,
            Err(status) => {
                return Err(status);
            },
        };
        let status = match SubscriptionStatus::try_from_number(
            message.status,
            "subscription status missing",
        ) {
            Ok(status) => status,
            Err(status) => {
                return Err(status);
            },
        };
        match timestamp::protobuf_timestamp_as_unix_epoch_milliseconds(
            message.expiration.as_ref(),
        ) {
            Ok(expiration) => Ok(
                SubscriptionInfo::new(topic, subscriber, status, expiration, message.sample_period),
            ),
            Err(status) => Err(status),
        }
    }
}

/// The subscriptions that messages stand for, or why the first of those that does not stand for
/// any does not.
pub open spec fn subscriptions_of_messages(messages: Seq<SubscriptionMessage>) -> Result<
    Seq<Subscription>,
    Status,
>
    decreases messages.len(),
{
    if messages.len() == 0 {
        Ok(seq![])
    } else {
        match (
            subscriptions_of_messages(messages.drop_last()),
            subscription_of_message(messages.last()),
        ) {
            (Err(status), _) => Err(status),
            (Ok(_), Err(status)) => Err(status),
            (Ok(subscriptions), Ok(subscription)) => Ok(subscriptions.push(subscription)),
        }
    }
}

/// Where one message does not stand for a subscription, more messages do not change why.
proof fn lemma_first_error(messages: Seq<SubscriptionMessage>, len: int)
    requires
        0 <= len <= messages.len(),
        subscriptions_of_messages(messages.take(len)) is Err,
    ensures
        subscriptions_of_messages(messages) == subscriptions_of_messages(messages.take(len)),
    decreases messages.len(),
{
    if len < messages.len() {
        assert(messages.drop_last().take(len) =~= messages.take(len));
        lemma_first_error(messages.drop_last(), len);
    } else {
        assert(messages.take(len) =~= messages);
    }
}

/// What a method is invoked with.
pub struct Invocation {
    pub method: Uri,
    pub options: Options,
    pub payload: Seq<u8>,
}

/// The invocation of a method.
#[derive(Clone, Debug, PartialEq, Eq)]
pub struct RpcInvocation {
    /// The address of the method.
    pub method: UUri,
    /// The options of the call.
    pub options: CallOptions,
    /// The payload of the request.
    pub payload: UPayload,
}

impl View for RpcInvocation {
    type V = Invocation;

    open spec fn view(&self) -> Invocation {
        Invocation { method: self.method@, options: self.options@, payload: self.payload@ }
    }
}

/// The options that all operations are invoked with.
pub open spec fn default_options() -> Options {
    Options { ttl: 5_000, message_id: None, token: None, priority: None }
}

/// The invocation of an operation with a payload.
pub open spec fn operation(resource_id: u16, payload: Seq<u8>) -> Invocation {
    Invocation {
        method: usubscription::operation_uri(resource_id),
        options: default_options(),
        payload,
    }
}

/// The message that asks to subscribe.
pub open spec fn subscribe_message(
    topic: Uri,
    expiration: Option<u64>,
    min_sample_period: Option<u32>,
) -> SubscribeRequestMessage {
    SubscribeRequestMessage {
        topic: Some(uri::message_of_uri(topic)),
        expiration: match expiration {
            Some(millis) => Some(timestamp::timestamp_of_millis(millis)),
            None => None,
        },
        sample_period: min_sample_period,
    }
}

/// The message that asks to unsubscribe.
pub open spec fn unsubscribe_message(topic: Uri) -> UnsubscribeRequestMessage {
    UnsubscribeRequestMessage { topic: Some(uri::message_of_uri(topic)) }
}

/// The message that asks for subscriptions.
pub open spec fn fetch_message(
    topic_filter: Option<Uri>,
    subscriber_filter: Option<Uri>,
) -> FetchSubscriptionsRequestMessage {
    FetchSubscriptionsRequestMessage {
        topic_filter: match topic_filter {
            Some(uri) => Some(uri::message_of_uri(uri)),
            None => None,
        },
        subscriber_filter: match subscriber_filter {
            Some(uri) => Some(uri::message_of_uri(uri)),
            None => None,
        },
    }
}

/// A field with an address takes up few bytes.
pub proof fn lemma_uri_field_len(field_number: u32, uri: Uri)
    requires
        field_number < 16,
        uri::is_authority_name(uri.authority_name),
    ensures
        proto::optional_message_field::<UUriProto>(
            field_number,
            Some(uri::message_of_uri(uri)),
        ).len() <= 2048,
{
    uri::lemma_encoded_uri_len(uri);
    wire::lemma_varint32(wire::tag(field_number, 2), seq![]);
    wire::lemma_varint32(UUriProto::encoded(uri::message_of_uri(uri)).len(), seq![]);
}

/// A field with a point in time takes up few bytes.
pub proof fn lemma_timestamp_field_len(field_number: u32, timestamp: Timestamp)
    requires
        field_number < 16,
    ensures
        proto::optional_message_field::<Timestamp>(field_number, Some(timestamp)).len() <= 64,
{
    wire::lemma_varint32(wire::tag(1, 0), seq![]);
    wire::lemma_int64(timestamp.seconds as int, seq![]);
    wire::lemma_varint32(wire::tag(2, 0), seq![]);
    wire::lemma_int64(timestamp.nanos as int, seq![]);
    wire::lemma_varint32(wire::tag(field_number, 2), seq![]);
    wire::lemma_varint32(Timestamp::encoded(timestamp).len(), seq![]);
}

/// A request to subscribe takes up few bytes.
pub proof fn lemma_subscribe_message_len(
    topic: Uri,
    expiration: Option<u64>,
    min_sample_period: Option<u32>,
)
    requires
        uri::is_authority_name(topic.authority_name),
    ensures
        SubscribeRequestProto::encoded(
            subscribe_message(topic, expiration, min_sample_period),
        ).len() <= 4096,
{
    lemma_uri_field_len(1, topic);
    if let Some(millis) = expiration {
        lemma_timestamp_field_len(2, timestamp::timestamp_of_millis(millis));
    }
    if let Some(millis) = min_sample_period {
        wire::lemma_varint32(wire::tag(3, 0), seq![]);
        wire::lemma_varint32(millis as nat, seq![]);
    }
}

/// Makes the invocation of an operation with a message.
fn invocation<M: Encode>(resource_id: u16, options: CallOptions, message: &M) -> (r: Result<
    RpcInvocation,
    UStatus,
>)
    requires
        M::encoded(message@).len() <= u32::MAX,
        options@ == default_options(),
    ensures
        r is Ok,
        r->Ok_0@ == operation(resource_id, M::encoded(message@)),
{
    match UPayload::try_from_protobuf(message) {
        Ok(payload) => Ok(
            RpcInvocation {
                method: usubscription::usubscription_uri(resource_id),
                options,
                payload,
            },
        ),
        Err(error) => Err(
            UStatus::from(ServiceInvocationError::InvalidArgument(wire::error_text(&error))),
        ),
    }
}

/// What comes back of an invocation: a payload or none, or why it has failed.
pub type RpcReply = Result<Option<UPayload>, ServiceInvocationError>;

/// The message in a reply, or why there is none.
pub open spec fn reply_content<M: Decode>(reply: RpcReply) -> Result<M::V, Status> {
    match reply {
        Err(error) => Err(communication::status_of_error(error)),
        Ok(None) => Err(status::invalid_argument("RPC response has no payload"@)),
        Ok(Some(payload)) => match communication::payload_content::<M>(payload@) {
            Err(error) => Err(status::invalid_argument(error)),
            Ok(message) => Ok(message),
        },
    }
}

/// Reads the message in a reply.
fn read_reply<M: Decode>(reply: RpcReply) -> (r: Result<M, UStatus>)
    ensures
        match reply_content::<M>(reply) {
            Ok(message) => r is Ok && r->Ok_0@ == message,
            Err(status) => r is Err && r->Err_0@ == status,
        },
{
    match reply {
        Err(error) => Err(UStatus::from(error)),
        Ok(None) => Err(
            UStatus::fail_with_code(UCode::InvalidArgument, "RPC response has no payload"),
        ),
        Ok(Some(payload)) => match payload.extract_protobuf::<M>() {
            Ok(message) => Ok(message),
            Err(error) => Err(UStatus::fail_with_code(UCode::InvalidArgument, error.message())),
        },
    }
}

/// Reads a reply that has nothing to say but that the operation has succeeded.
fn read_empty_reply(reply: RpcReply) -> (r: Result<(), UStatus>)
    ensures
        match reply_content::<EmptyProto>(reply) {
            Ok(_) => r is Ok,
            Err(status) => r is Err && r->Err_0@ == status,
        },
{
    match read_reply::<EmptyProto>(reply) {
        Ok(_) => Ok(()),
        Err(status) => Err(status),
    }
}

/// The result of the operation to subscribe.
pub open spec fn subscribe_result(reply: RpcReply) -> Result<SubscriptionStatus, Status> {
    match reply_content::<SubscribeResponseProto>(reply) {
        Err(status) => Err(status),
        Ok(message) => communication::status_of_number(
            message.status,
            "uSubscription returned invalid response: no subscription status"@,
        ),
    }
}

/// The result of the operation to fetch subscriptions.
pub open spec fn fetch_result(reply: RpcReply) -> Result<Seq<Subscription>, Status> {
    match reply_content::<FetchSubscriptionsResponseProto>(reply) {
        Err(status) => Err(status),
        Ok(messages) => subscriptions_of_messages(messages),
    }
}

/// A client for the operations of the local uSubscription service.
///
/// It needs an RPC client of type `C` for performing the remote procedure calls.
pub struct RpcClientUSubscription<C: ?Sized> {
    rpc_client: Arc<C>,
}

impl<C: ?Sized> RpcClientUSubscription<C> {
    /// The RPC client.
    pub closed spec fn client(&self) -> Arc<C> {
        self.rpc_client
    }

    /// Creates a client that uses the given RPC client.
    pub fn new(rpc_client: Arc<C>) -> (r: RpcClientUSubscription<C>)
        ensures
            r.client() == rpc_client,
    {
        RpcClientUSubscription { rpc_client }
    }

    /// Returns the RPC client.
    pub fn rpc_client(&self) -> (r: &Arc<C>)
        ensures
            *r == self.client(),
    {
        &self.rpc_client
    }

    /// Returns the options that all operations are invoked with.
    pub fn default_call_options() -> (r: CallOptions)
        ensures
            r@ == default_options(),
    {
        CallOptions::for_rpc_request(5_000, None, None, None)
    }

    /// Makes the invocation that subscribes to a topic.
    ///
    /// The subscription expires `expiration` milliseconds after the Unix epoch.
    pub fn subscribe(
        &self,
        topic: &UUri,
        expiration: Option<u64>,
        min_sample_period: Option<u32>,
    ) -> (r: Result<RpcInvocation, UStatus>)
        ensures
            r is Ok,
            r->Ok_0@ == operation(
                RESOURCE_ID_SUBSCRIBE,
                SubscribeRequestProto::encoded(
                    subscribe_message(topic@, expiration, min_sample_period),
                ),
            ),
    {
        let ghost millis = expiration;
        let expiration = match timestamp::unix_epoch_millis_as_protobuf_timestamp(expiration) {
            Ok(expiration) => expiration,
            Err(status) => {
                return Err(status);
            },
        };
        let message = SubscribeRequestProto {
            topic: Some(UUriProto::from(topic)),
            expiration,
            sample_period: min_sample_period,
        };
        proof {
            lemma_subscribe_message_len(topic@, millis, min_sample_period);
        }
        invocation(RESOURCE_ID_SUBSCRIBE, Self::default_call_options(), &message)
    }

    /// Makes the result of the operation to subscribe: the status of the subscription.
    pub fn subscribed(&self, reply: RpcReply) -> (r: Result<SubscriptionStatus, UStatus>)
        ensures
            match subscribe_result(reply) {
                Ok(status) => r is Ok && r->Ok_0 == status,
                Err(status) => r is Err && r->Err_0@ == status,
            },
    {
        match read_reply::<SubscribeResponseProto>(reply) {
            Ok(message) => SubscriptionStatus::try_from_number(
                message.status,
                "uSubscription returned invalid response: no subscription status",
            ),
            Err(status) => Err(status),
        }
    }

    /// Makes the invocation that unsubscribes from a topic.
    pub fn unsubscribe(&self, topic: &UUri) -> (r: Result<RpcInvocation, UStatus>)
        ensures
            r is Ok,
            r->Ok_0@ == operation(
                RESOURCE_ID_UNSUBSCRIBE,
                UnsubscribeRequestProto::encoded(unsubscribe_message(topic@)),
            ),
    {
        let message = UnsubscribeRequestProto { topic: Some(UUriProto::from(topic)) };
        proof {
            lemma_uri_field_len(1, topic@);
        }
        invocation(RESOURCE_ID_UNSUBSCRIBE, Self::default_call_options(), &message)
    }

    /// Makes the result of the operation to unsubscribe.
    pub fn unsubscribed(&self, reply: RpcReply) -> (r: Result<(), UStatus>)
        ensures
            match reply_content::<EmptyProto>(reply) {
                Ok(_) => r is Ok,
                Err(status) => r is Err && r->Err_0@ == status,
            },
    {
        read_empty_reply(reply)
    }

    /// Makes the invocation that fetches the subscriptions to a topic, of a subscriber or both,
    /// where filters are given.
    pub fn fetch_subscriptions(
        &self,
        topic_filter: Option<UUri>,
        subscriber_filter: Option<UUri>,
    ) -> (r: Result<RpcInvocation, UStatus>)
        ensures
            r is Ok,
            r->Ok_0@ == operation(
                RESOURCE_ID_FETCH_SUBSCRIPTIONS,
                FetchSubscriptionsRequestProto::encoded(
                    fetch_message(
                        proto::optional(topic_filter),
                        proto::optional(subscriber_filter),
                    ),
                ),
            ),
    {
        let topic_filter = match topic_filter {
            Some(uri) => {
                let message = UUriProto::from(&uri);
                proof {
                    lemma_uri_field_len(1, uri@);
                }
                Some(message)
            },
            None => None,
        };
        let subscriber_filter = match subscriber_filter {
            Some(uri) => {
                let message = UUriProto::from(&uri);
                proof {
                    lemma_uri_field_len(2, uri@);
                }
                Some(message)
            },
            None => None,
        };
        let message = FetchSubscriptionsRequestProto { topic_filter, subscriber_filter };
        invocation(RESOURCE_ID_FETCH_SUBSCRIPTIONS, Self::default_call_options(), &message)
    }

    /// Makes the result of the operation to fetch subscriptions: all of them, or why the first one
    /// that cannot be read cannot be.
    pub fn fetched_subscriptions(&self, reply: RpcReply) -> (r: Result<
        Vec<SubscriptionInfo>,
        UStatus,
    >)
        ensures
            match fetch_result(reply) {
                Ok(subscriptions) => r is Ok && r->Ok_0@.map_values(|info: SubscriptionInfo| info@)
                    == subscriptions,
                Err(status) => r is Err && r->Err_0@ == status,
            },
    {
        let response = match read_reply::<FetchSubscriptionsResponseProto>(reply) {
            Ok(response) => response,
            Err(status) => {
                return Err(status);
            },
        };
        let ghost messages = response@;
        let mut infos: Vec<SubscriptionInfo> = Vec::new();
        let len: usize = response.subscriptions.len();
        assert(infos@.map_values(|info: SubscriptionInfo| info@) =~= seq![]);
        for i in 0..len
            invariant
                len == response.subscriptions@.len(),
                messages == response@,
                fetch_result(reply) == subscriptions_of_messages(messages),
                subscriptions_of_messages(messages.take(i as int)) == Ok::<_, Status>(
                    infos@.map_values(|info: SubscriptionInfo| info@),
                ),
        {
            let ghost before = infos@;
            proof {
                assert(messages.take(i + 1).drop_last() =~= messages.take(i as int));
                assert(messages.take(i + 1).last() == response.subscriptions@[i as int]@);
            }
            match SubscriptionInfo::try_from(&response.subscriptions[i]) {
                Ok(info) => {
                    infos.push(info);
                    assert(infos@.map_values(|info: SubscriptionInfo| info@) =~= before.map_values(
                        |info: SubscriptionInfo| info@,
                    ).push(info@));
                },
                Err(status) => {
                    proof {
                        lemma_first_error(messages, i + 1);
                    }
                    return Err(status);
                },
            }
        }
        assert(messages.take(len as int) =~= messages);
        Ok(infos)
    }

    /// Makes the invocation that registers for notifications.
    pub fn register_for_notifications(&self) -> (r: Result<RpcInvocation, UStatus>)
        ensures
            r is Ok,
            r->Ok_0@ == operation(
                RESOURCE_ID_REGISTER_FOR_NOTIFICATIONS,
                EmptyProto::encoded(()),
            ),
    {
        invocation(
            RESOURCE_ID_REGISTER_FOR_NOTIFICATIONS,
            Self::default_call_options(),
            &EmptyProto,
        )
    }

    /// Makes the result of the operation to register for notifications.
    pub fn registered_for_notifications(&self, reply: RpcReply) -> (r: Result<(), UStatus>)
        ensures
            match reply_content::<EmptyProto>(reply) {
                Ok(_) => r is Ok,
                Err(status) => r is Err && r->Err_0@ == status,
            },
    {
        read_empty_reply(reply)
    }

    /// Makes the invocation that unregisters for notifications.
    pub fn unregister_for_notifications(&self) -> (r: Result<RpcInvocation, UStatus>)
        ensures
            r is Ok,
            r->Ok_0@ == operation(
                RESOURCE_ID_UNREGISTER_FOR_NOTIFICATIONS,
                EmptyProto::encoded(()),
            ),
    {
        invocation(
            RESOURCE_ID_UNREGISTER_FOR_NOTIFICATIONS,
            Self::default_call_options(),
            &EmptyProto,
        )
    }

    /// Makes the result of the operation to unregister for notifications.
    pub fn unregistered_for_notifications(&self, reply: RpcReply) -> (r: Result<(), UStatus>)
        ensures
            match reply_content::<EmptyProto>(reply) {
                Ok(_) => r is Ok,
                Err(status) => r is Err && r->Err_0@ == status,
            },
    {
        read_empty_reply(reply)
    }

    /// Makes the invocation that resets the service.
    pub fn reset(&self) -> (r: Result<RpcInvocation, UStatus>)
        ensures
            r is Ok,
            r->Ok_0@ == operation(RESOURCE_ID_RESET, EmptyProto::encoded(())),
    {
        invocation(RESOURCE_ID_RESET, Self::default_call_options(), &EmptyProto)
    }

    /// Makes the result of the operation to reset the service.
    pub fn was_reset(&self, reply: RpcReply) -> (r: Result<(), UStatus>)
        ensures
            match reply_content::<EmptyProto>(reply) {
                Ok(_) => r is Ok,
                Err(status) => r is Err && r->Err_0@ == status,
            },
    {
        read_empty_reply(reply)
    }
}

} // verus!
