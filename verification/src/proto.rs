//! The messages of the uSubscription service as they are transmitted.

use crate::message::{Decode, Encode, Fields, Limits, MessageFormat, ReadLimits};
use crate::timestamp::Timestamp;
use crate::uri::{UUriProto, UriMessage};
use crate::wire::DecodeError;
use crate::{message, wire};
use vstd::prelude::*;

verus! {

/// What a field that may be absent holds.
pub open spec fn optional<T: View>(value: Option<T>) -> Option<T::V> {
    match value {
        Some(value) => Some(value@),
        None => None,
    }
}

/// A field that holds a message, where there is one.
pub open spec fn optional_message_field<T: Encode>(
    field_number: u32,
    message: Option<T::V>,
) -> Seq<u8> {
    match message {
        Some(message) => wire::bytes_field(field_number, T::encoded(message)),
        None => seq![],
    }
}

/// Appends a field that holds a message, where there is one.
fn write_optional_message<T: Encode>(
    field_number: u32,
    message: &Option<T>,
    out: &mut Vec<u8>,
) -> (r: Result<(), protobuf::Error>)
    requires
        0 < field_number <= wire::FIELD_NUMBER_MAX,
        optional_message_field::<T>(field_number, optional(*message)).len() <= u32::MAX,
    ensures
        r is Ok,
        final(out)@ == old(out)@ + optional_message_field::<T>(field_number, optional(*message)),
{
    match message {
        Some(message) => {
            let encoded: Vec<u8> = message.encode()?;
            wire::write_bytes(field_number, encoded.as_slice(), out)
        },
        None => {
            assert(old(out)@ + Seq::<u8>::empty() =~= old(out)@);
            Ok(())
        },
    }
}

/// What a request to subscribe consists of.
pub struct SubscribeRequestMessage {
    pub topic: Option<UriMessage>,
    pub expiration: Option<Timestamp>,
    pub sample_period: Option<u32>,
}

/// The message `SubscribeRequest`.
#[derive(Clone, Debug, PartialEq, Eq)]
pub struct SubscribeRequestProto {
    /// Field number 1, a message.
    pub topic: Option<UUriProto>,
    /// Field number 2, a message.
    pub expiration: Option<Timestamp>,
    /// Field number 3, an unsigned integer.
    pub sample_period: Option<u32>,
}

impl View for SubscribeRequestProto {
    type V = SubscribeRequestMessage;

    open spec fn view(&self) -> SubscribeRequestMessage {
        SubscribeRequestMessage {
            topic: optional(self.topic),
            expiration: self.expiration,
            sample_period: self.sample_period,
        }
    }
}

impl MessageFormat for SubscribeRequestProto {
    open spec fn empty() -> SubscribeRequestMessage {
        SubscribeRequestMessage { topic: None, expiration: None, sample_period: None }
    }

    open spec fn with_field(
        message: SubscribeRequestMessage,
        tag: u32,
        bytes: Seq<u8>,
        limits: Limits,
    ) -> Result<(SubscribeRequestMessage, int), Seq<char>> {
        if tag == 10 {
            match message::submessage::<UUriProto>(bytes, limits) {
                Ok((value, len)) => Ok(
                    (SubscribeRequestMessage { topic: Some(value), ..message }, len),
                ),
                Err(error) => Err(error),
            }
        } else if tag == 18 {
            match message::submessage::<Timestamp>(bytes, limits) {
                Ok((value, len)) => Ok(
                    (SubscribeRequestMessage { expiration: Some(value), ..message }, len),
                ),
                Err(error) => Err(error),
            }
        } else if tag == 24 {
            match wire::varint32(bytes) {
                Some((value, len)) => Ok(
                    (SubscribeRequestMessage { sample_period: Some(value as u32), ..message }, len),
                ),
                None => Err(wire::varint_error(bytes, 5)),
            }
        } else {
            message::unchanged(message, tag, bytes, limits)
        }
    }

    proof fn lemma_with_field(
        message: SubscribeRequestMessage,
        tag: u32,
        bytes: Seq<u8>,
        limits: Limits,
    ) {
        message::lemma_unchanged(message, tag, bytes, limits);
        wire::lemma_varint_len(bytes, 5, 0x0f);
        wire::lemma_varint_len(bytes, 10, 0x01);
    }
}

impl Fields for SubscribeRequestProto {
    fn new() -> SubscribeRequestProto {
        SubscribeRequestProto { topic: None, expiration: None, sample_period: None }
    }

    fn read_field(&mut self, tag: u32, bytes: &[u8], limits: ReadLimits) -> Result<
        usize,
        DecodeError,
    > {
        if tag == 10 {
            let (value, len) = message::read_submessage::<UUriProto>(bytes, limits)?;
            self.topic = Some(value);
            Ok(len)
        } else if tag == 18 {
            let (value, len) = message::read_submessage::<Timestamp>(bytes, limits)?;
            self.expiration = Some(value);
            Ok(len)
        } else if tag == 24 {
            match wire::read_uint32(bytes) {
                Ok((value, len)) => {
                    self.sample_period = Some(value);
                    Ok(len)
                },
                Err(error) => Err(error),
            }
        } else {
            message::skip_field(tag, bytes, limits)
        }
    }
}

impl Decode for SubscribeRequestProto {
    open spec fn decoded(bytes: Seq<u8>, limits: Limits) -> Result<
        SubscribeRequestMessage,
        Seq<char>,
    > {
        message::merged::<SubscribeRequestProto>(SubscribeRequestProto::empty(), bytes, limits)
    }

    fn decode(bytes: &[u8], limits: ReadLimits) -> Result<SubscribeRequestProto, DecodeError> {
        message::merge::<SubscribeRequestProto>(bytes, limits)
    }
}

impl Encode for SubscribeRequestProto {
    open spec fn encoded(message: SubscribeRequestMessage) -> Seq<u8> {
        optional_message_field::<UUriProto>(1, message.topic) + optional_message_field::<Timestamp>(
            2,
            message.expiration,
        ) + match message.sample_period {
            Some(value) => wire::integer_field(3, value as int),
            None => seq![],
        }
    }

    fn encode(&self) -> Result<Vec<u8>, protobuf::Error> {
        let mut out: Vec<u8> = Vec::new();
        write_optional_message::<UUriProto>(1, &self.topic, &mut out)?;
        write_optional_message::<Timestamp>(2, &self.expiration, &mut out)?;
        if let Some(value) = self.sample_period {
            wire::write_uint32(3, value, &mut out)?;
        }
        Ok(out)
    }
}

/// What a request to unsubscribe consists of.
pub struct UnsubscribeRequestMessage {
    pub topic: Option<UriMessage>,
}

/// The message `UnsubscribeRequest`.
#[derive(Clone, Debug, PartialEq, Eq)]
pub struct UnsubscribeRequestProto {
    /// Field number 1, a message.
    pub topic: Option<UUriProto>,
}

impl View for UnsubscribeRequestProto {
    type V = UnsubscribeRequestMessage;

    open spec fn view(&self) -> UnsubscribeRequestMessage {
        UnsubscribeRequestMessage { topic: optional(self.topic) }
    }
}

impl MessageFormat for UnsubscribeRequestProto {
    open spec fn empty() -> UnsubscribeRequestMessage {
        UnsubscribeRequestMessage { topic: None }
    }

    open spec fn with_field(
        message: UnsubscribeRequestMessage,
        tag: u32,
        bytes: Seq<u8>,
        limits: Limits,
    ) -> Result<(UnsubscribeRequestMessage, int), Seq<char>> {
        if tag == 10 {
            match message::submessage::<UUriProto>(bytes, limits) {
                Ok((value, len)) => Ok((UnsubscribeRequestMessage { topic: Some(value) }, len)),
                Err(error) => Err(error),
            }
        } else {
            message::unchanged(message, tag, bytes, limits)
        }
    }

    proof fn lemma_with_field(
        message: UnsubscribeRequestMessage,
        tag: u32,
        bytes: Seq<u8>,
        limits: Limits,
    ) {
        message::lemma_unchanged(message, tag, bytes, limits);
        wire::lemma_varint_len(bytes, 10, 0x01);
    }
}

impl Fields for UnsubscribeRequestProto {
    fn new() -> UnsubscribeRequestProto {
        UnsubscribeRequestProto { topic: None }
    }

    fn read_field(&mut self, tag: u32, bytes: &[u8], limits: ReadLimits) -> Result<
        usize,
        DecodeError,
    > {
        if tag == 10 {
            let (value, len) = message::read_submessage::<UUriProto>(bytes, limits)?;
            self.topic = Some(value);
            Ok(len)
        } else {
            message::skip_field(tag, bytes, limits)
        }
    }
}

impl Decode for UnsubscribeRequestProto {
    open spec fn decoded(bytes: Seq<u8>, limits: Limits) -> Result<
        UnsubscribeRequestMessage,
        Seq<char>,
    > {
        message::merged::<UnsubscribeRequestProto>(UnsubscribeRequestProto::empty(), bytes, limits)
    }

    fn decode(bytes: &[u8], limits: ReadLimits) -> Result<UnsubscribeRequestProto, DecodeError> {
        message::merge::<UnsubscribeRequestProto>(bytes, limits)
    }
}

impl Encode for UnsubscribeRequestProto {
    open spec fn encoded(message: UnsubscribeRequestMessage) -> Seq<u8> {
        optional_message_field::<UUriProto>(1, message.topic)
    }

    fn encode(&self) -> Result<Vec<u8>, protobuf::Error> {
        let mut out: Vec<u8> = Vec::new();
        write_optional_message::<UUriProto>(1, &self.topic, &mut out)?;
        Ok(out)
    }
}

/// What the response to a request to subscribe consists of.
pub struct SubscribeResponseMessage {
    pub topic: Option<UriMessage>,
    pub status: i32,
}

/// The message `SubscribeResponse`.
#[derive(Clone, Debug, PartialEq, Eq)]
pub struct SubscribeResponseProto {
    /// Field number 1, a message.
    pub topic: Option<UUriProto>,
    /// Field number 2, the number of a `SubscriptionStatusProto`.
    pub status: i32,
}

impl View for SubscribeResponseProto {
    type V = SubscribeResponseMessage;

    open spec fn view(&self) -> SubscribeResponseMessage {
        SubscribeResponseMessage { topic: optional(self.topic), status: self.status }
    }
}

impl MessageFormat for SubscribeResponseProto {
    open spec fn empty() -> SubscribeResponseMessage {
        SubscribeResponseMessage { topic: None, status: 0 }
    }

    open spec fn with_field(
        message: SubscribeResponseMessage,
        tag: u32,
        bytes: Seq<u8>,
        limits: Limits,
    ) -> Result<(SubscribeResponseMessage, int), Seq<char>> {
        if tag == 10 {
            match message::submessage::<UUriProto>(bytes, limits) {
                Ok((value, len)) => Ok(
                    (SubscribeResponseMessage { topic: Some(value), ..message }, len),
                ),
                Err(error) => Err(error),
            }
        } else if tag == 16 {
            match wire::int32(bytes) {
                Some((value, len)) => Ok(
                    (SubscribeResponseMessage { status: value as i32, ..message }, len),
                ),
                None => Err(wire::int32_error(bytes)),
            }
        } else {
            message::unchanged(message, tag, bytes, limits)
        }
    }

    proof fn lemma_with_field(
        message: SubscribeResponseMessage,
        tag: u32,
        bytes: Seq<u8>,
        limits: Limits,
    ) {
        message::lemma_unchanged(message, tag, bytes, limits);
        wire::lemma_varint_len(bytes, 10, 0x01);
    }
}

impl Fields for SubscribeResponseProto {
    fn new() -> SubscribeResponseProto {
        SubscribeResponseProto { topic: None, status: 0 }
    }

    fn read_field(&mut self, tag: u32, bytes: &[u8], limits: ReadLimits) -> Result<
        usize,
        DecodeError,
    > {
        if tag == 10 {
            let (value, len) = message::read_submessage::<UUriProto>(bytes, limits)?;
            self.topic = Some(value);
            Ok(len)
        } else if tag == 16 {
            match wire::read_int32(bytes) {
                Ok((value, len)) => {
                    self.status = value;
                    Ok(len)
                },
                Err(error) => Err(error),
            }
        } else {
            message::skip_field(tag, bytes, limits)
        }
    }
}

impl Decode for SubscribeResponseProto {
    open spec fn decoded(bytes: Seq<u8>, limits: Limits) -> Result<
        SubscribeResponseMessage,
        Seq<char>,
    > {
        message::merged::<SubscribeResponseProto>(SubscribeResponseProto::empty(), bytes, limits)
    }

    fn decode(bytes: &[u8], limits: ReadLimits) -> Result<SubscribeResponseProto, DecodeError> {
        message::merge::<SubscribeResponseProto>(bytes, limits)
    }
}

impl Encode for SubscribeResponseProto {
    open spec fn encoded(message: SubscribeResponseMessage) -> Seq<u8> {
        optional_message_field::<UUriProto>(1, message.topic) + wire::optional_integer_field(
            2,
            message.status as int,
        )
    }

    fn encode(&self) -> Result<Vec<u8>, protobuf::Error> {
        let mut out: Vec<u8> = Vec::new();
        write_optional_message::<UUriProto>(1, &self.topic, &mut out)?;
        if self.status != 0 {
            wire::write_enum(2, self.status, &mut out)?;
        }
        Ok(out)
    }
}

/// A message without fields of its own: `UnsubscribeResponse`, `NotificationsRequest`,
/// `NotificationsResponse`, `ResetRequest` and `ResetResponse`.
#[derive(Clone, Copy, Debug, Default, PartialEq, Eq, Structural)]
pub struct EmptyProto;

impl View for EmptyProto {
    type V = ();

    open spec fn view(&self) -> () {
        ()
    }
}

impl MessageFormat for EmptyProto {
    open spec fn empty() -> () {
        ()
    }

    open spec fn with_field(message: (), tag: u32, bytes: Seq<u8>, limits: Limits) -> Result<
        ((), int),
        Seq<char>,
    > {
        message::unchanged(message, tag, bytes, limits)
    }

    proof fn lemma_with_field(message: (), tag: u32, bytes: Seq<u8>, limits: Limits) {
        message::lemma_unchanged(message, tag, bytes, limits);
    }
}

impl Fields for EmptyProto {
    fn new() -> EmptyProto {
        EmptyProto
    }

    fn read_field(&mut self, tag: u32, bytes: &[u8], limits: ReadLimits) -> Result<
        usize,
        DecodeError,
    > {
        message::skip_field(tag, bytes, limits)
    }
}

impl Decode for EmptyProto {
    open spec fn decoded(bytes: Seq<u8>, limits: Limits) -> Result<(), Seq<char>> {
        message::merged::<EmptyProto>((), bytes, limits)
    }

    fn decode(bytes: &[u8], limits: ReadLimits) -> Result<EmptyProto, DecodeError> {
        message::merge::<EmptyProto>(bytes, limits)
    }
}

impl Encode for EmptyProto {
    open spec fn encoded(message: ()) -> Seq<u8> {
        seq![]
    }

    fn encode(&self) -> Result<Vec<u8>, protobuf::Error> {
        Ok(Vec::new())
    }
}

/// What a subscription consists of.
pub struct SubscriptionMessage {
    pub topic: Option<UriMessage>,
    pub subscriber: Option<UriMessage>,
    pub status: i32,
    pub expiration: Option<Timestamp>,
    pub sample_period: Option<u32>,
}

/// The message `Subscription`.
#[derive(Clone, Debug, PartialEq, Eq)]
pub struct SubscriptionProto {
    /// Field number 1, a message.
    pub topic: Option<UUriProto>,
    /// Field number 2, a message.
    pub subscriber: Option<UUriProto>,
    /// Field number 3, the number of a `SubscriptionStatusProto`.
    pub status: i32,
    /// Field number 4, a message.
    pub expiration: Option<Timestamp>,
    /// Field number 5, an unsigned integer.
    pub sample_period: Option<u32>,
}

impl View for SubscriptionProto {
    type V = SubscriptionMessage;

    open spec fn view(&self) -> SubscriptionMessage {
        SubscriptionMessage {
            topic: optional(self.topic),
            subscriber: optional(self.subscriber),
            status: self.status,
            expiration: self.expiration,
            sample_period: self.sample_period,
        }
    }
}

impl MessageFormat for SubscriptionProto {
    open spec fn empty() -> SubscriptionMessage {
        SubscriptionMessage {
            topic: None,
            subscriber: None,
            status: 0,
            expiration: None,
            sample_period: None,
        }
    }

    open spec fn with_field(
        message: SubscriptionMessage,
        tag: u32,
        bytes: Seq<u8>,
        limits: Limits,
    ) -> Result<(SubscriptionMessage, int), Seq<char>> {
        if tag == 10 || tag == 18 {
            match message::submessage::<UUriProto>(bytes, limits) {
                Ok((value, len)) => Ok(
                    (
                        if tag == 10 {
                            SubscriptionMessage { topic: Some(value), ..message }
                        } else {
                            SubscriptionMessage { subscriber: Some(value), ..message }
                        },
                        len,
                    ),
                ),
                Err(error) => Err(error),
            }
        } else if tag == 24 {
            match wire::int32(bytes) {
                Some((value, len)) => Ok(
                    (SubscriptionMessage { status: value as i32, ..message }, len),
                ),
                None => Err(wire::int32_error(bytes)),
            }
        } else if tag == 34 {
            match message::submessage::<Timestamp>(bytes, limits) {
                Ok((value, len)) => Ok(
                    (SubscriptionMessage { expiration: Some(value), ..message }, len),
                ),
                Err(error) => Err(error),
            }
        } else if tag == 40 {
            match wire::varint32(bytes) {
                Some((value, len)) => Ok(
                    (SubscriptionMessage { sample_period: Some(value as u32), ..message }, len),
                ),
                None => Err(wire::varint_error(bytes, 5)),
            }
        } else {
            message::unchanged(message, tag, bytes, limits)
        }
    }

    proof fn lemma_with_field(
        message: SubscriptionMessage,
        tag: u32,
        bytes: Seq<u8>,
        limits: Limits,
    ) {
        message::lemma_unchanged(message, tag, bytes, limits);
        wire::lemma_varint_len(bytes, 5, 0x0f);
        wire::lemma_varint_len(bytes, 10, 0x01);
    }
}

impl Fields for SubscriptionProto {
    fn new() -> SubscriptionProto {
        SubscriptionProto {
            topic: None,
            subscriber: None,
            status: 0,
            expiration: None,
            sample_period: None,
        }
    }

    fn read_field(&mut self, tag: u32, bytes: &[u8], limits: ReadLimits) -> Result<
        usize,
        DecodeError,
    > {
        if tag == 10 || tag == 18 {
            let (value, len) = message::read_submessage::<UUriProto>(bytes, limits)?;
            if tag == 10 {
                self.topic = Some(value);
            } else {
                self.subscriber = Some(value);
            }
            Ok(len)
        } else if tag == 24 {
            match wire::read_int32(bytes) {
                Ok((value, len)) => {
                    self.status = value;
                    Ok(len)
                },
                Err(error) => Err(error),
            }
        } else if tag == 34 {
            let (value, len) = message::read_submessage::<Timestamp>(bytes, limits)?;
            self.expiration = Some(value);
            Ok(len)
        } else if tag == 40 {
            match wire::read_uint32(bytes) {
                Ok((value, len)) => {
                    self.sample_period = Some(value);
                    Ok(len)
                },
                Err(error) => Err(error),
            }
        } else {
            message::skip_field(tag, bytes, limits)
        }
    }
}

impl Decode for SubscriptionProto {
    open spec fn decoded(bytes: Seq<u8>, limits: Limits) -> Result<SubscriptionMessage, Seq<char>> {
        message::merged::<SubscriptionProto>(SubscriptionProto::empty(), bytes, limits)
    }

    fn decode(bytes: &[u8], limits: ReadLimits) -> Result<SubscriptionProto, DecodeError> {
        message::merge::<SubscriptionProto>(bytes, limits)
    }
}

impl Encode for SubscriptionProto {
    open spec fn encoded(message: SubscriptionMessage) -> Seq<u8> {
        optional_message_field::<UUriProto>(1, message.topic) + optional_message_field::<UUriProto>(
            2,
            message.subscriber,
        ) + wire::optional_integer_field(3, message.status as int) + optional_message_field::<
            Timestamp,
        >(4, message.expiration) + match message.sample_period {
            Some(value) => wire::integer_field(5, value as int),
            None => seq![],
        }
    }

    fn encode(&self) -> Result<Vec<u8>, protobuf::Error> {
        let mut out: Vec<u8> = Vec::new();
        write_optional_message::<UUriProto>(1, &self.topic, &mut out)?;
        write_optional_message::<UUriProto>(2, &self.subscriber, &mut out)?;
        if self.status != 0 {
            wire::write_enum(3, self.status, &mut out)?;
        }
        write_optional_message::<Timestamp>(4, &self.expiration, &mut out)?;
        if let Some(value) = self.sample_period {
            wire::write_uint32(5, value, &mut out)?;
        }
        Ok(out)
    }
}

/// What a request for subscriptions consists of.
pub struct FetchSubscriptionsRequestMessage {
    pub topic_filter: Option<UriMessage>,
    pub subscriber_filter: Option<UriMessage>,
}

/// The message `FetchSubscriptionsRequest`.
#[derive(Clone, Debug, PartialEq, Eq)]
pub struct FetchSubscriptionsRequestProto {
    /// Field number 1, a message.
    pub topic_filter: Option<UUriProto>,
    /// Field number 2, a message.
    pub subscriber_filter: Option<UUriProto>,
}

impl View for FetchSubscriptionsRequestProto {
    type V = FetchSubscriptionsRequestMessage;

    open spec fn view(&self) -> FetchSubscriptionsRequestMessage {
        FetchSubscriptionsRequestMessage {
            topic_filter: optional(self.topic_filter),
            subscriber_filter: optional(self.subscriber_filter),
        }
    }
}

impl MessageFormat for FetchSubscriptionsRequestProto {
    open spec fn empty() -> FetchSubscriptionsRequestMessage {
        FetchSubscriptionsRequestMessage { topic_filter: None, subscriber_filter: None }
    }

    open spec fn with_field(
        message: FetchSubscriptionsRequestMessage,
        tag: u32,
        bytes: Seq<u8>,
        limits: Limits,
    ) -> Result<(FetchSubscriptionsRequestMessage, int), Seq<char>> {
        if tag == 10 || tag == 18 {
            match message::submessage::<UUriProto>(bytes, limits) {
                Ok((value, len)) => Ok(
                    (
                        if tag == 10 {
                            FetchSubscriptionsRequestMessage {
                                topic_filter: Some(value),
                                ..message
                            }
                        } else {
                            FetchSubscriptionsRequestMessage {
                                subscriber_filter: Some(value),
                                ..message
                            }
                        },
                        len,
                    ),
                ),
                Err(error) => Err(error),
            }
        } else {
            message::unchanged(message, tag, bytes, limits)
        }
    }

    proof fn lemma_with_field(
        message: FetchSubscriptionsRequestMessage,
        tag: u32,
        bytes: Seq<u8>,
        limits: Limits,
    ) {
        message::lemma_unchanged(message, tag, bytes, limits);
        wire::lemma_varint_len(bytes, 10, 0x01);
    }
}

impl Fields for FetchSubscriptionsRequestProto {
    fn new() -> FetchSubscriptionsRequestProto {
        FetchSubscriptionsRequestProto { topic_filter: None, subscriber_filter: None }
    }

    fn read_field(&mut self, tag: u32, bytes: &[u8], limits: ReadLimits) -> Result<
        usize,
        DecodeError,
    > {
        if tag == 10 || tag == 18 {
            let (value, len) = message::read_submessage::<UUriProto>(bytes, limits)?;
            if tag == 10 {
                self.topic_filter = Some(value);
            } else {
                self.subscriber_filter = Some(value);
            }
            Ok(len)
        } else {
            message::skip_field(tag, bytes, limits)
        }
    }
}

impl Decode for FetchSubscriptionsRequestProto {
    open spec fn decoded(bytes: Seq<u8>, limits: Limits) -> Result<
        FetchSubscriptionsRequestMessage,
        Seq<char>,
    > {
        message::merged::<FetchSubscriptionsRequestProto>(
            FetchSubscriptionsRequestProto::empty(),
            bytes,
            limits,
        )
    }

    fn decode(bytes: &[u8], limits: ReadLimits) -> Result<
        FetchSubscriptionsRequestProto,
        DecodeError,
    > {
        message::merge::<FetchSubscriptionsRequestProto>(bytes, limits)
    }
}

impl Encode for FetchSubscriptionsRequestProto {
    open spec fn encoded(message: FetchSubscriptionsRequestMessage) -> Seq<u8> {
        optional_message_field::<UUriProto>(1, message.topic_filter) + optional_message_field::<
            UUriProto,
        >(2, message.subscriber_filter)
    }

    fn encode(&self) -> Result<Vec<u8>, protobuf::Error> {
        let mut out: Vec<u8> = Vec::new();
        write_optional_message::<UUriProto>(1, &self.topic_filter, &mut out)?;
        write_optional_message::<UUriProto>(2, &self.subscriber_filter, &mut out)?;
        Ok(out)
    }
}

/// The message `FetchSubscriptionsResponse`.
#[derive(Clone, Debug, PartialEq, Eq)]
pub struct FetchSubscriptionsResponseProto {
    /// Field number 1, any number of messages.
    pub subscriptions: Vec<SubscriptionProto>,
}

impl View for FetchSubscriptionsResponseProto {
    type V = Seq<SubscriptionMessage>;

    open spec fn view(&self) -> Seq<SubscriptionMessage> {
        self.subscriptions@.map_values(|subscription: SubscriptionProto| subscription@)
    }
}

impl MessageFormat for FetchSubscriptionsResponseProto {
    open spec fn empty() -> Seq<SubscriptionMessage> {
        seq![]
    }

    open spec fn with_field(
        message: Seq<SubscriptionMessage>,
        tag: u32,
        bytes: Seq<u8>,
        limits: Limits,
    ) -> Result<(Seq<SubscriptionMessage>, int), Seq<char>> {
        if tag == 10 {
            match message::submessage::<SubscriptionProto>(bytes, limits) {
                Ok((value, len)) => Ok((message.push(value), len)),
                Err(error) => Err(error),
            }
        } else {
            message::unchanged(message, tag, bytes, limits)
        }
    }

    proof fn lemma_with_field(
        message: Seq<SubscriptionMessage>,
        tag: u32,
        bytes: Seq<u8>,
        limits: Limits,
    ) {
        message::lemma_unchanged(message, tag, bytes, limits);
        wire::lemma_varint_len(bytes, 10, 0x01);
    }
}

impl Fields for FetchSubscriptionsResponseProto {
    fn new() -> (message: FetchSubscriptionsResponseProto) {
        let message = FetchSubscriptionsResponseProto { subscriptions: Vec::new() };
        assert(message@ =~= seq![]);
        message
    }

    fn read_field(&mut self, tag: u32, bytes: &[u8], limits: ReadLimits) -> Result<
        usize,
        DecodeError,
    > {
        if tag == 10 {
            let (value, len) = message::read_submessage::<SubscriptionProto>(bytes, limits)?;
            self.subscriptions.push(value);
            assert(self@ =~= old(self)@.push(value@));
            Ok(len)
        } else {
            message::skip_field(tag, bytes, limits)
        }
    }
}

impl Decode for FetchSubscriptionsResponseProto {
    open spec fn decoded(bytes: Seq<u8>, limits: Limits) -> Result<
        Seq<SubscriptionMessage>,
        Seq<char>,
    > {
        message::merged::<FetchSubscriptionsResponseProto>(seq![], bytes, limits)
    }

    fn decode(bytes: &[u8], limits: ReadLimits) -> Result<
        FetchSubscriptionsResponseProto,
        DecodeError,
    > {
        message::merge::<FetchSubscriptionsResponseProto>(bytes, limits)
    }
}

/// Any number of subscriptions in bytes, one field for each.
pub open spec fn encoded_subscriptions(messages: Seq<SubscriptionMessage>) -> Seq<u8>
    decreases messages.len(),
{
    if messages.len() == 0 {
        seq![]
    } else {
        encoded_subscriptions(messages.drop_last()) + wire::bytes_field(
            1,
            SubscriptionProto::encoded(messages.last()),
        )
    }
}

/// The first of some subscriptions take up no more bytes than all of them.
pub proof fn lemma_encoded_subscriptions_len(messages: Seq<SubscriptionMessage>, len: int)
    requires
        0 <= len <= messages.len(),
    ensures
        encoded_subscriptions(messages.take(len)).len() <= encoded_subscriptions(messages).len(),
    decreases messages.len(),
{
    if len < messages.len() {
        assert(messages.drop_last().take(len) =~= messages.take(len));
        lemma_encoded_subscriptions_len(messages.drop_last(), len);
    } else {
        assert(messages.take(len) =~= messages);
    }
}

impl Encode for FetchSubscriptionsResponseProto {
    open spec fn encoded(message: Seq<SubscriptionMessage>) -> Seq<u8> {
        encoded_subscriptions(message)
    }

    fn encode(&self) -> Result<Vec<u8>, protobuf::Error> {
        let mut out: Vec<u8> = Vec::new();
        let len: usize = self.subscriptions.len();
        for i in 0..len
            invariant
                len == self.subscriptions@.len(),
                encoded_subscriptions(self@).len() <= u32::MAX,
                out@ == encoded_subscriptions(self@.take(i as int)),
        {
            proof {
                assert(self@.take(i + 1).drop_last() =~= self@.take(i as int));
                assert(self@.take(i + 1).last() == self.subscriptions@[i as int]@);
                lemma_encoded_subscriptions_len(self@, i + 1);
            }
            let encoded: Vec<u8> = self.subscriptions[i].encode()?;
            wire::write_bytes(1, encoded.as_slice(), &mut out)?;
        }
        assert(self@.take(len as int) =~= self@);
        Ok(out)
    }
}

} // verus!
