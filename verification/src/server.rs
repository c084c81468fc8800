//! The server's side of the uSubscription service.
//!
//! A server reads the requests that it gets with `extract_usubscription_request` and turns its
//! responses into payloads with `pack_usubscription_response`. The wire format stays hidden.

use crate::communication::{SubscriptionStatus, SubscriptionStatusProto, UAttributes, UPayload};
use crate::message::{Decode, Encode};
use crate::proto::{
    EmptyProto, SubscribeRequestMessage, SubscribeRequestProto, SubscribeResponseMessage,
    SubscribeResponseProto, UnsubscribeRequestMessage, UnsubscribeRequestProto,
};
use crate::status::{Status, UCode, UStatus};
use crate::time::{DateTime, TimeDelta};
use crate::uri::{UUri, UUriProto, Uri, UriMessage};
use crate::usubscription::{RESOURCE_ID_SUBSCRIBE, RESOURCE_ID_UNSUBSCRIBE};
use crate::wire;
use crate::{communication, proto, status, time, uri};
use vstd::prelude::*;

verus! {

/// What a request to subscribe says.
pub struct Subscribe {
    pub subscriber: Uri,
    pub topic: Uri,
    /// The seconds and nanoseconds since the Unix epoch.
    pub expiration: Option<(i64, u32)>,
    /// The number of nanoseconds.
    pub sample_period: Option<int>,
}

/// A request to subscribe to a topic.
#[derive(Clone, Debug, PartialEq, Eq)]
pub struct SubscribeRequest {
    /// The entity that wants to subscribe, which is where the request comes from.
    pub subscriber: UUri,
    /// The topic to subscribe to.
    pub topic: UUri,
    /// The point in time at which the subscription expires.
    pub expiration: Option<DateTime>,
    /// The least time between two events.
    pub sample_period: Option<TimeDelta>,
}

impl View for SubscribeRequest {
    type V = Subscribe;

    open spec fn view(&self) -> Subscribe {
        Subscribe {
            subscriber: self.subscriber@,
            topic: self.topic@,
            expiration: proto::optional(self.expiration),
            sample_period: proto::optional(self.sample_period),
        }
    }
}

/// What a request to unsubscribe says.
pub struct Unsubscribe {
    pub subscriber: Uri,
    pub topic: Uri,
}

/// A request to unsubscribe from a topic.
#[derive(Clone, Debug, PartialEq, Eq)]
pub struct UnsubscribeRequest {
    /// The entity that wants to unsubscribe, which is where the request comes from.
    pub subscriber: UUri,
    /// The topic to unsubscribe from.
    pub topic: UUri,
}

impl View for UnsubscribeRequest {
    type V = Unsubscribe;

    open spec fn view(&self) -> Unsubscribe {
        Unsubscribe { subscriber: self.subscriber@, topic: self.topic@ }
    }
}

/// What a request says.
pub enum Request {
    Subscribe(Subscribe),
    Unsubscribe(Unsubscribe),
}

/// A request to the uSubscription service.
#[derive(Clone, Debug, PartialEq, Eq)]
#[non_exhaustive]
pub enum USubscriptionRequest {
    /// A request to subscribe.
    Subscribe(SubscribeRequest),
    /// A request to unsubscribe.
    Unsubscribe(UnsubscribeRequest),
}

impl View for USubscriptionRequest {
    type V = Request;

    open spec fn view(&self) -> Request {
        match self {
            USubscriptionRequest::Subscribe(request) => Request::Subscribe(request@),
            USubscriptionRequest::Unsubscribe(request) => Request::Unsubscribe(request@),
        }
    }
}

/// The topic of a request, or why it has none.
pub open spec fn required_topic(topic: Option<UriMessage>) -> Result<Uri, Status> {
    match topic {
        Some(topic) => match uri::uri_of_message(topic) {
            Ok(uri) => Ok(uri),
            Err(error) => Err(status::invalid_argument("invalid topic URI: "@ + error.text())),
        },
        None => Err(status::invalid_argument("missing topic"@)),
    }
}

/// Extracts the topic of a request, which fails if it is absent or not a well-formed address.
pub fn require_topic(topic: Option<UUriProto>) -> (r: Result<UUri, UStatus>)
    ensures
        match required_topic(proto::optional(topic)) {
            Ok(uri) => r is Ok && r->Ok_0@ == uri,
            Err(status) => r is Err && r->Err_0@ == status,
        },
{
    match topic {
        Some(topic) => match UUri::try_from(&topic) {
            Ok(uri) => Ok(uri),
            Err(error) => {
                let message: String = "invalid topic URI: ".to_owned().concat(error.message());
                Err(UStatus::fail_with_code(UCode::InvalidArgument, message.as_str()))
            },
        },
        None => Err(UStatus::fail_with_code(UCode::InvalidArgument, "missing topic")),
    }
}

/// Requests that come in a message.
pub trait FromProtoRequestPayload: View + Sized {
    /// The message that the request comes in.
    type Proto: Decode;

    /// The request that a message and the address where it comes from stand for.
    spec fn request(message: <Self::Proto as View>::V, source: Uri) -> Result<Self::V, Status>;

    /// Makes the request of a message and the address where it comes from.
    fn from_proto(message: Self::Proto, source: UUri) -> (r: Result<Self, UStatus>)
        ensures
            match Self::request(message@, source@) {
                Ok(request) => r is Ok && r->Ok_0@ == request,
                Err(status) => r is Err && r->Err_0@ == status,
            },
    ;
}

impl FromProtoRequestPayload for SubscribeRequest {
    type Proto = SubscribeRequestProto;

    open spec fn request(message: SubscribeRequestMessage, source: Uri) -> Result<
        Subscribe,
        Status,
    > {
        match (required_topic(message.topic), message.expiration) {
            (Err(status), _) => Err(status),
            (Ok(topic), None) => Ok(
                Subscribe {
                    subscriber: source,
                    topic,
                    expiration: None,
                    sample_period: sample_period_nanos(message.sample_period),
                },
            ),
            (Ok(topic), Some(timestamp)) => match time::date_time_of_timestamp(timestamp) {
                Err(status) => Err(status),
                Ok(expiration) => Ok(
                    Subscribe {
                        subscriber: source,
                        topic,
                        expiration: Some(expiration),
                        sample_period: sample_period_nanos(message.sample_period),
                    },
                ),
            },
        }
    }

    fn from_proto(message: SubscribeRequestProto, subscriber: UUri) -> Result<
        SubscribeRequest,
        UStatus,
    > {
        let topic = match require_topic(message.topic) {
            Ok(topic) => topic,
            Err(status) => {
                return Err(status);
            },
        };
        let expiration = match time::protobuf_timestamp_as_chrono_datetime(
            message.expiration.as_ref(),
        ) {
            Ok(expiration) => expiration,
            Err(status) => {
                return Err(status);
            },
        };
        let sample_period = match message.sample_period {
            Some(millis) => Some(TimeDelta::milliseconds(millis as i64)),
            None => None,
        };
        Ok(SubscribeRequest { subscriber, topic, expiration, sample_period })
    }
}

/// The number of nanoseconds in a sample period, which is transmitted in milliseconds.
pub open spec fn sample_period_nanos(millis: Option<u32>) -> Option<int> {
    match millis {
        Some(millis) => Some(millis * 1_000_000),
        None => None,
    }
}

impl FromProtoRequestPayload for UnsubscribeRequest {
    type Proto = UnsubscribeRequestProto;

    open spec fn request(message: UnsubscribeRequestMessage, source: Uri) -> Result<
        Unsubscribe,
        Status,
    > {
        match required_topic(message.topic) {
            Err(status) => Err(status),
            Ok(topic) => Ok(Unsubscribe { subscriber: source, topic }),
        }
    }

    fn from_proto(message: UnsubscribeRequestProto, subscriber: UUri) -> Result<
        UnsubscribeRequest,
        UStatus,
    > {
        match require_topic(message.topic) {
            Ok(topic) => Ok(UnsubscribeRequest { subscriber, topic }),
            Err(status) => Err(status),
        }
    }
}

/// The request that a payload and the address where it comes from stand for.
pub open spec fn request_of_payload<R: FromProtoRequestPayload>(
    payload: Option<Seq<u8>>,
    source: Uri,
) -> Result<R::V, Status> {
    match payload {
        None => Err(status::invalid_argument("missing request payload"@)),
        Some(payload) => match communication::payload_content::<R::Proto>(payload) {
            Err(error) => Err(
                status::invalid_argument("payload is not a valid: "@ + error),
            ),
            Ok(message) => R::request(message, source),
        },
    }
}

/// Reads a request of the given type from a payload.
pub fn extract_request_proto<R: FromProtoRequestPayload>(
    payload: Option<UPayload>,
    message_attributes: &UAttributes,
) -> (r: Result<R, UStatus>)
    ensures
        match request_of_payload::<R>(proto::optional(payload), message_attributes@.source) {
            Ok(request) => r is Ok && r->Ok_0@ == request,
            Err(status) => r is Err && r->Err_0@ == status,
        },
{
    let payload = match payload {
        Some(payload) => payload,
        None => {
            return Err(
                UStatus::fail_with_code(UCode::InvalidArgument, "missing request payload"),
            );
        },
    };
    match payload.extract_protobuf::<R::Proto>() {
        Ok(message) => R::from_proto(message, message_attributes.source().clone()),
        Err(error) => {
            let message: String = "payload is not a valid: ".to_owned().concat(error.message());
            Err(UStatus::fail_with_code(UCode::InvalidArgument, message.as_str()))
        },
    }
}

/// The hexadecimal digit for a number below 16.
pub open spec fn hex_digit(number: int) -> char {
    seq!['0', '1', '2', '3', '4', '5', '6', '7', '8', '9', 'a', 'b', 'c', 'd', 'e', 'f'][number]
}

/// A resource identifier in words: four hexadecimal digits.
pub open spec fn resource_id_text(resource_id: u16) -> Seq<char> {
    seq![
        '0',
        'x',
        hex_digit(resource_id as int / 4096),
        hex_digit(resource_id as int / 256 % 16),
        hex_digit(resource_id as int / 16 % 16),
        hex_digit(resource_id as int % 16),
    ]
}

/// Returns the hexadecimal digit for a number below 16.
fn hex_digit_text(number: u16) -> (r: &'static str)
    requires
        number < 16,
    ensures
        r@ == seq![hex_digit(number as int)],
{
    proof {
        reveal_strlit("0");
        reveal_strlit("1");
        reveal_strlit("2");
        reveal_strlit("3");
        reveal_strlit("4");
        reveal_strlit("5");
        reveal_strlit("6");
        reveal_strlit("7");
        reveal_strlit("8");
        reveal_strlit("9");
        reveal_strlit("a");
        reveal_strlit("b");
        reveal_strlit("c");
        reveal_strlit("d");
        reveal_strlit("e");
        reveal_strlit("f");
    }
    match number {
        0 => "0",
        1 => "1",
        2 => "2",
        3 => "3",
        4 => "4",
        5 => "5",
        6 => "6",
        7 => "7",
        8 => "8",
        9 => "9",
        10 => "a",
        11 => "b",
        12 => "c",
        13 => "d",
        14 => "e",
        _ => "f",
    }
}

/// What tells that an operation is not supported.
pub open spec fn unsupported(resource_id: u16) -> Status {
    Status {
        code: UCode::Unimplemented,
        message: "unsupported uSubscription resource id: "@ + resource_id_text(resource_id),
    }
}

/// The request to an operation that a payload and the address where it comes from stand for.
pub open spec fn usubscription_request(
    resource_id: u16,
    source: Uri,
    payload: Option<Seq<u8>>,
) -> Result<Request, Status> {
    if resource_id == RESOURCE_ID_SUBSCRIBE {
        match request_of_payload::<SubscribeRequest>(payload, source) {
            Ok(request) => Ok(Request::Subscribe(request)),
            Err(status) => Err(status),
        }
    } else if resource_id == RESOURCE_ID_UNSUBSCRIBE {
        match request_of_payload::<UnsubscribeRequest>(payload, source) {
            Ok(request) => Ok(Request::Unsubscribe(request)),
            Err(status) => Err(status),
        }
    } else {
        Err(unsupported(resource_id))
    }
}

/// Reads a request to the uSubscription service.
///
/// Fails if `resource_id` does not identify an operation that is supported, if the payload is
/// missing, or if it does not hold the request that the operation expects.
pub fn extract_usubscription_request(
    resource_id: u16,
    message_attributes: &UAttributes,
    request_payload: Option<UPayload>,
) -> (r: Result<USubscriptionRequest, UStatus>)
    ensures
        match usubscription_request(
            resource_id,
            message_attributes@.source,
            proto::optional(request_payload),
        ) {
            Ok(request) => r is Ok && r->Ok_0@ == request,
            Err(status) => r is Err && r->Err_0@ == status,
        },
{
    match resource_id {
        RESOURCE_ID_SUBSCRIBE => match extract_request_proto::<SubscribeRequest>(
            request_payload,
            message_attributes,
        ) {
            Ok(request) => Ok(USubscriptionRequest::Subscribe(request)),
            Err(status) => Err(status),
        },
        RESOURCE_ID_UNSUBSCRIBE => match extract_request_proto::<UnsubscribeRequest>(
            request_payload,
            message_attributes,
        ) {
            Ok(request) => Ok(USubscriptionRequest::Unsubscribe(request)),
            Err(status) => Err(status),
        },
        _ => {
            proof {
                reveal_strlit("0x");
            }
            let message: String = "unsupported uSubscription resource id: ".to_owned().concat(
                "0x",
            ).concat(hex_digit_text(resource_id / 4096)).concat(
                hex_digit_text(resource_id / 256 % 16),
            ).concat(hex_digit_text(resource_id / 16 % 16)).concat(
                hex_digit_text(resource_id % 16),
            );
            assert(message@ =~= unsupported(resource_id).message);
            Err(UStatus::fail_with_code(UCode::Unimplemented, message.as_str()))
        },
    }
}

/// What the response to a request to subscribe says.
pub struct Subscribed {
    pub topic: Uri,
    pub status: SubscriptionStatus,
}

/// The response to a request to subscribe.
#[derive(Clone, Debug, PartialEq, Eq)]
pub struct SubscribeResponse {
    /// The topic that the subscription refers to.
    pub topic: UUri,
    /// Whether the entity is subscribed now.
    pub status: SubscriptionStatus,
}

impl View for SubscribeResponse {
    type V = Subscribed;

    open spec fn view(&self) -> Subscribed {
        Subscribed { topic: self.topic@, status: self.status }
    }
}

/// The response to a request to unsubscribe, which says nothing more.
#[derive(Clone, Copy, Debug, Default, PartialEq, Eq, Structural)]
pub struct UnsubscribeResponse;

impl View for UnsubscribeResponse {
    type V = ();

    open spec fn view(&self) -> () {
        ()
    }
}

/// What a response says.
pub enum Response {
    Subscribe(Subscribed),
    Unsubscribe,
}

/// A response of the uSubscription service.
#[derive(Clone, Debug, PartialEq, Eq)]
#[non_exhaustive]
pub enum USubscriptionResponse {
    /// The response to a request to subscribe.
    Subscribe(SubscribeResponse),
    /// The response to a request to unsubscribe.
    Unsubscribe(UnsubscribeResponse),
}

impl View for USubscriptionResponse {
    type V = Response;

    open spec fn view(&self) -> Response {
        match self {
            USubscriptionResponse::Subscribe(response) => Response::Subscribe(response@),
            USubscriptionResponse::Unsubscribe(_) => Response::Unsubscribe,
        }
    }
}

impl From<SubscribeResponse> for USubscriptionResponse {
    fn from(value: SubscribeResponse) -> (r: USubscriptionResponse) {
        USubscriptionResponse::Subscribe(value)
    }
}

impl vstd::std_specs::convert::FromSpecImpl<SubscribeResponse> for USubscriptionResponse {
    open spec fn obeys_from_spec() -> bool {
        true
    }

    open spec fn from_spec(value: SubscribeResponse) -> USubscriptionResponse {
        USubscriptionResponse::Subscribe(value)
    }
}

impl From<UnsubscribeResponse> for USubscriptionResponse {
    fn from(value: UnsubscribeResponse) -> (r: USubscriptionResponse) {
        USubscriptionResponse::Unsubscribe(value)
    }
}

impl vstd::std_specs::convert::FromSpecImpl<UnsubscribeResponse> for USubscriptionResponse {
    open spec fn obeys_from_spec() -> bool {
        true
    }

    open spec fn from_spec(value: UnsubscribeResponse) -> USubscriptionResponse {
        USubscriptionResponse::Unsubscribe(value)
    }
}

/// Responses that go out in a message.
pub trait IntoProtoResponsePayload: View + Sized {
    /// The message that the response goes out in.
    type Proto: Encode;

    /// The message that stands for a response.
    spec fn message(response: Self::V) -> <Self::Proto as View>::V;

    /// Makes the message that stands for the response. It is short enough to be written.
    fn into_proto(self) -> (r: Self::Proto)
        ensures
            r@ == Self::message(self@),
            <Self::Proto as Encode>::encoded(r@).len() <= u32::MAX,
    ;
}

impl IntoProtoResponsePayload for SubscribeResponse {
    type Proto = SubscribeResponseProto;

    open spec fn message(response: Subscribed) -> SubscribeResponseMessage {
        SubscribeResponseMessage {
            topic: Some(uri::message_of_uri(response.topic)),
            status: communication::status_number(communication::proto_of_status(response.status)),
        }
    }

    fn into_proto(self) -> SubscribeResponseProto {
        let topic = UUriProto::from(&self.topic);
        proof {
            uri::lemma_encoded_uri_len(self.topic@);
            lemma_encoded_subscribe_response_len(self@);
        }
        SubscribeResponseProto {
            topic: Some(topic),
            status: SubscriptionStatusProto::from(&self.status).value(),
        }
    }
}

/// A response takes up few bytes.
pub proof fn lemma_encoded_subscribe_response_len(response: Subscribed)
    requires
        uri::is_authority_name(response.topic.authority_name),
    ensures
        SubscribeResponseProto::encoded(SubscribeResponse::message(response)).len() <= 2048,
{
    let empty = Seq::<u8>::empty();
    let message = SubscribeResponse::message(response);
    let topic = UUriProto::encoded(uri::message_of_uri(response.topic));
    uri::lemma_encoded_uri_len(response.topic);
    wire::lemma_varint32(wire::tag(1, 2), empty);
    wire::lemma_varint32(topic.len(), empty);
    wire::lemma_varint32(wire::tag(2, 0), empty);
    wire::lemma_varint32(message.status as nat, empty);
}

impl IntoProtoResponsePayload for UnsubscribeResponse {
    type Proto = EmptyProto;

    open spec fn message(response: ()) -> () {
        ()
    }

    fn into_proto(self) -> EmptyProto {
        EmptyProto
    }
}

/// Writes a response of the given type into a payload.
pub fn pack_response_proto<R: IntoProtoResponsePayload>(response: R) -> (r: Result<
    UPayload,
    UStatus,
>)
    ensures
        r is Ok,
        r->Ok_0@ == <R::Proto as Encode>::encoded(R::message(response@)),
{
    match UPayload::try_from_protobuf(&response.into_proto()) {
        Ok(payload) => Ok(payload),
        Err(error) => {
            let message: String = "failed to serialize response payload: ".to_owned().concat(
                wire::error_text(&error).as_str(),
            );
            Err(UStatus::fail_with_code(UCode::Internal, message.as_str()))
        },
    }
}

/// The payload that stands for a response.
pub open spec fn payload_of_response(response: Response) -> Seq<u8> {
    match response {
        Response::Subscribe(response) => SubscribeResponseProto::encoded(
            SubscribeResponse::message(response),
        ),
        Response::Unsubscribe => EmptyProto::encoded(()),
    }
}

/// Writes a response of the uSubscription service into a payload.
///
/// There is a payload for every response.
pub fn pack_usubscription_response(response: USubscriptionResponse) -> (r: Result<
    UPayload,
    UStatus,
>)
    ensures
        r is Ok,
        r->Ok_0@ == payload_of_response(response@),
{
    match response {
        USubscriptionResponse::Subscribe(response) => pack_response_proto(response),
        USubscriptionResponse::Unsubscribe(response) => pack_response_proto(response),
    }
}

} // verus!
