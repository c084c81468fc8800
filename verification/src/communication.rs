//! What a client and a service exchange, apart from the content of their messages.

use crate::message::{Decode, Encode, Limits, ReadLimits};
use crate::status;
use crate::status::{Status, UCode, UStatus};
use crate::uri::{UUri, Uri};
use crate::wire::DecodeError;
use vstd::prelude::*;

verus! {

/// The payload of a message: another message in bytes.
#[derive(Clone, Debug, PartialEq, Eq)]
pub struct UPayload {
    data: Vec<u8>,
}

impl View for UPayload {
    type V = Seq<u8>;

    closed spec fn view(&self) -> Seq<u8> {
        self.data@
    }
}

/// The message that a payload holds, or why it holds none.
pub open spec fn payload_content<M: Decode>(payload: Seq<u8>) -> Result<M::V, Seq<char>> {
    M::decoded(payload, Limits::payload())
}

impl UPayload {
    /// Makes a payload of bytes.
    pub fn new(data: Vec<u8>) -> (r: UPayload)
        ensures
            r@ == data@,
    {
        UPayload { data }
    }

    /// Returns the bytes.
    pub fn payload(&self) -> (r: &[u8])
        ensures
            r@ == self@,
    {
        self.data.as_slice()
    }

    /// Makes a payload of a message.
    pub fn try_from_protobuf<M: Encode>(message: &M) -> (r: Result<UPayload, protobuf::Error>)
        requires
            M::encoded(message@).len() <= u32::MAX,
        ensures
            r is Ok,
            r->Ok_0@ == M::encoded(message@),
    {
        let data: Vec<u8> = message.encode()?;
        Ok(UPayload { data })
    }

    /// Reads the message that the payload holds.
    pub fn extract_protobuf<M: Decode>(&self) -> (r: Result<M, DecodeError>)
        ensures
            match payload_content::<M>(self@) {
                Ok(message) => r is Ok && r->Ok_0@ == message,
                Err(error) => r is Err && r->Err_0@ == error,
            },
    {
        let bytes = self.data.as_slice();
        assert(bytes@.len() == bytes.len());
        M::decode(bytes, ReadLimits::payload())
    }
}

/// What is known of a message apart from its payload.
pub struct Attributes {
    pub source: Uri,
}

/// The attributes of a message.
#[derive(Debug, PartialEq, Eq)]
pub struct UAttributes {
    source: UUri,
}

impl View for UAttributes {
    type V = Attributes;

    closed spec fn view(&self) -> Attributes {
        Attributes { source: self.source@ }
    }
}

impl UAttributes {
    /// Makes the attributes of a message that comes from the given address.
    pub fn new(source: UUri) -> (r: UAttributes)
        ensures
            r@ == (Attributes { source: source@ }),
    {
        UAttributes { source }
    }

    /// Returns the address that the message comes from.
    pub fn source(&self) -> (r: &UUri)
        ensures
            r@ == self@.source,
    {
        &self.source
    }
}

/// How urgent a message is, with `CS6` the most urgent.
#[derive(Clone, Copy, Debug, PartialEq, Eq, Structural)]
pub enum UPriority {
    CS0,
    CS1,
    CS2,
    CS3,
    CS4,
    CS5,
    CS6,
}

/// How a method is invoked.
pub struct Options {
    pub ttl: u32,
    pub message_id: Option<u128>,
    pub token: Option<Seq<char>>,
    pub priority: Option<UPriority>,
}

/// The options of a remote procedure call.
#[derive(Clone, Debug, PartialEq, Eq)]
pub struct CallOptions {
    ttl: u32,
    message_id: Option<u128>,
    token: Option<String>,
    priority: Option<UPriority>,
}

impl View for CallOptions {
    type V = Options;

    closed spec fn view(&self) -> Options {
        Options {
            ttl: self.ttl,
            message_id: self.message_id,
            token: match self.token {
                Some(token) => Some(token@),
                None => None,
            },
            priority: self.priority,
        }
    }
}

impl CallOptions {
    /// Makes the options of a call that has to be answered within `ttl` milliseconds.
    pub fn for_rpc_request(
        ttl: u32,
        message_id: Option<u128>,
        token: Option<String>,
        priority: Option<UPriority>,
    ) -> (r: CallOptions)
        ensures
            r@ == (Options {
                ttl,
                message_id,
                token: match token {
                    Some(token) => Some(token@),
                    None => None,
                },
                priority,
            }),
    {
        CallOptions { ttl, message_id, token, priority }
    }

    /// Returns the number of milliseconds within which the call has to be answered.
    pub fn ttl(&self) -> (r: u32)
        ensures
            r == self@.ttl,
    {
        self.ttl
    }

    /// Returns the identifier of the request message, if it is given.
    pub fn message_id(&self) -> (r: Option<u128>)
        ensures
            r == self@.message_id,
    {
        self.message_id
    }

    /// Returns the access token, if there is one.
    pub fn token(&self) -> (r: Option<&str>)
        ensures
            r is Some <==> self@.token is Some,
            r is Some ==> r->Some_0@ == self@.token->Some_0,
    {
        match &self.token {
            Some(token) => Some(token.as_str()),
            None => None,
        }
    }

    /// Returns the priority, if it is given.
    pub fn priority(&self) -> (r: Option<UPriority>)
        ensures
            r == self@.priority,
    {
        self.priority
    }
}

/// Why a remote procedure call has failed.
#[derive(Clone, Debug, PartialEq, Eq)]
pub enum ServiceInvocationError {
    AlreadyExists(String),
    DeadlineExceeded,
    FailedPrecondition(String),
    Internal(String),
    InvalidArgument(String),
    NotFound(String),
    PermissionDenied(String),
    ResourceExhausted(String),
    RpcError(UStatus),
    Unauthenticated(String),
    Unavailable(String),
    Unimplemented(String),
}

/// The status that tells why a call has failed.
pub open spec fn status_of_error(error: ServiceInvocationError) -> Status {
    match error {
        ServiceInvocationError::AlreadyExists(message) => Status {
            code: UCode::AlreadyExists,
            message: message@,
        },
        ServiceInvocationError::DeadlineExceeded => Status {
            code: UCode::DeadlineExceeded,
            message: "request timed out"@,
        },
        ServiceInvocationError::FailedPrecondition(message) => Status {
            code: UCode::FailedPrecondition,
            message: message@,
        },
        ServiceInvocationError::Internal(message) => Status {
            code: UCode::Internal,
            message: message@,
        },
        ServiceInvocationError::InvalidArgument(message) => status::invalid_argument(message@),
        ServiceInvocationError::NotFound(message) => Status {
            code: UCode::NotFound,
            message: message@,
        },
        ServiceInvocationError::PermissionDenied(message) => Status {
            code: UCode::PermissionDenied,
            message: message@,
        },
        ServiceInvocationError::ResourceExhausted(message) => Status {
            code: UCode::ResourceExhausted,
            message: message@,
        },
        ServiceInvocationError::RpcError(status) => status@,
        ServiceInvocationError::Unauthenticated(message) => Status {
            code: UCode::Unauthenticated,
            message: message@,
        },
        ServiceInvocationError::Unavailable(message) => Status {
            code: UCode::Unavailable,
            message: message@,
        },
        ServiceInvocationError::Unimplemented(message) => Status {
            code: UCode::Unimplemented,
            message: message@,
        },
    }
}

impl UStatus {
    /// Makes the status that tells why a call has failed.
    pub fn from(error: ServiceInvocationError) -> (r: UStatus)
        ensures
            r@ == status_of_error(error),
    {
        match error {
            ServiceInvocationError::AlreadyExists(message) => UStatus::fail_with_code(
                UCode::AlreadyExists,
                message.as_str(),
            ),
            ServiceInvocationError::DeadlineExceeded => UStatus::fail_with_code(
                UCode::DeadlineExceeded,
                "request timed out",
            ),
            ServiceInvocationError::FailedPrecondition(message) => UStatus::fail_with_code(
                UCode::FailedPrecondition,
                message.as_str(),
            ),
            ServiceInvocationError::Internal(message) => UStatus::fail_with_code(
                UCode::Internal,
                message.as_str(),
            ),
            ServiceInvocationError::InvalidArgument(message) => UStatus::fail_with_code(
                UCode::InvalidArgument,
                message.as_str(),
            ),
            ServiceInvocationError::NotFound(message) => UStatus::fail_with_code(
                UCode::NotFound,
                message.as_str(),
            ),
            ServiceInvocationError::PermissionDenied(message) => UStatus::fail_with_code(
                UCode::PermissionDenied,
                message.as_str(),
            ),
            ServiceInvocationError::ResourceExhausted(message) => UStatus::fail_with_code(
                UCode::ResourceExhausted,
                message.as_str(),
            ),
            ServiceInvocationError::RpcError(status) => status,
            ServiceInvocationError::Unauthenticated(message) => UStatus::fail_with_code(
                UCode::Unauthenticated,
                message.as_str(),
            ),
            ServiceInvocationError::Unavailable(message) => UStatus::fail_with_code(
                UCode::Unavailable,
                message.as_str(),
            ),
            ServiceInvocationError::Unimplemented(message) => UStatus::fail_with_code(
                UCode::Unimplemented,
                message.as_str(),
            ),
        }
    }
}

/// Whether an entity is subscribed to a topic.
#[derive(Clone, Copy, Debug, PartialEq, Eq, Structural)]
pub enum SubscriptionStatus {
    Unsubscribed,
    SubscribePending,
    Subscribed,
    UnsubscribePending,
}

/// The enum `SubscriptionStatus` as it is transmitted.
#[derive(Clone, Copy, Debug, PartialEq, Eq, Structural)]
pub enum SubscriptionStatusProto {
    /// The value 0.
    StatusUnspecified,
    /// The value 1.
    StatusUnsubscribed,
    /// The value 2.
    StatusSubscribePending,
    /// The value 3.
    StatusSubscribed,
    /// The value 4.
    StatusUnsubscribePending,
}

/// The number of an enum value.
pub open spec fn status_number(status: SubscriptionStatusProto) -> i32 {
    match status {
        SubscriptionStatusProto::StatusUnspecified => 0,
        SubscriptionStatusProto::StatusUnsubscribed => 1,
        SubscriptionStatusProto::StatusSubscribePending => 2,
        SubscriptionStatusProto::StatusSubscribed => 3,
        SubscriptionStatusProto::StatusUnsubscribePending => 4,
    }
}

/// The enum value that stands for a status.
pub open spec fn proto_of_status(status: SubscriptionStatus) -> SubscriptionStatusProto {
    match status {
        SubscriptionStatus::Unsubscribed => SubscriptionStatusProto::StatusUnsubscribed,
        SubscriptionStatus::SubscribePending => SubscriptionStatusProto::StatusSubscribePending,
        SubscriptionStatus::Subscribed => SubscriptionStatusProto::StatusSubscribed,
        SubscriptionStatus::UnsubscribePending => SubscriptionStatusProto::StatusUnsubscribePending,
    }
}

impl SubscriptionStatusProto {
    /// Returns the number of the value.
    pub fn value(self) -> (r: i32)
        ensures
            r == status_number(self),
    {
        match self {
            SubscriptionStatusProto::StatusUnspecified => 0,
            SubscriptionStatusProto::StatusUnsubscribed => 1,
            SubscriptionStatusProto::StatusSubscribePending => 2,
            SubscriptionStatusProto::StatusSubscribed => 3,
            SubscriptionStatusProto::StatusUnsubscribePending => 4,
        }
    }

    /// Returns the value with the given number, if there is one.
    pub fn from_i32(number: i32) -> (r: Option<SubscriptionStatusProto>)
        ensures
            r is Some <==> 0 <= number <= 4,
            r is Some ==> status_number(r->Some_0) == number,
    {
        match number {
            0 => Some(SubscriptionStatusProto::StatusUnspecified),
            1 => Some(SubscriptionStatusProto::StatusUnsubscribed),
            2 => Some(SubscriptionStatusProto::StatusSubscribePending),
            3 => Some(SubscriptionStatusProto::StatusSubscribed),
            4 => Some(SubscriptionStatusProto::StatusUnsubscribePending),
            _ => None,
        }
    }

    /// Returns the value that stands for a status.
    pub fn from(status: &SubscriptionStatus) -> (r: SubscriptionStatusProto)
        ensures
            r == proto_of_status(*status),
    {
        match status {
            SubscriptionStatus::Unsubscribed => SubscriptionStatusProto::StatusUnsubscribed,
            SubscriptionStatus::SubscribePending => SubscriptionStatusProto::StatusSubscribePending,
            SubscriptionStatus::Subscribed => SubscriptionStatusProto::StatusSubscribed,
            SubscriptionStatus::UnsubscribePending => {
                SubscriptionStatusProto::StatusUnsubscribePending
            },
        }
    }
}

/// The status that the number of an enum value stands for. Where the enum has no such value,
/// `unknown` tells what is missing.
pub open spec fn status_of_number(number: i32, unknown: Seq<char>) -> Result<
    SubscriptionStatus,
    Status,
> {
    if number == 0 {
        Err(status::invalid_argument("subscription status is unspecified"@))
    } else if number == 1 {
        Ok(SubscriptionStatus::Unsubscribed)
    } else if number == 2 {
        Ok(SubscriptionStatus::SubscribePending)
    } else if number == 3 {
        Ok(SubscriptionStatus::Subscribed)
    } else if number == 4 {
        Ok(SubscriptionStatus::UnsubscribePending)
    } else {
        Err(status::invalid_argument(unknown))
    }
}

impl SubscriptionStatus {
    /// Returns the status that an enum value stands for.
    pub fn try_from(status: &SubscriptionStatusProto) -> (r: Result<SubscriptionStatus, UStatus>)
        ensures
            match *status {
                SubscriptionStatusProto::StatusUnspecified => r is Err && r->Err_0@
                    == status::invalid_argument("subscription status is unspecified"@),
                _ => r is Ok && proto_of_status(r->Ok_0) == *status,
            },
    {
        match status {
            SubscriptionStatusProto::StatusUnspecified => Err(
                UStatus::fail_with_code(
                    UCode::InvalidArgument,
                    "subscription status is unspecified",
                ),
            ),
            SubscriptionStatusProto::StatusUnsubscribed => Ok(SubscriptionStatus::Unsubscribed),
            SubscriptionStatusProto::StatusSubscribePending => Ok(
                SubscriptionStatus::SubscribePending,
            ),
            SubscriptionStatusProto::StatusSubscribed => Ok(SubscriptionStatus::Subscribed),
            SubscriptionStatusProto::StatusUnsubscribePending => Ok(
                SubscriptionStatus::UnsubscribePending,
            ),
        }
    }

    /// Returns the status that the number of an enum value stands for, or fails with the message
    /// `unknown` where the enum has no such value.
    pub fn try_from_number(number: i32, unknown: &str) -> (r: Result<SubscriptionStatus, UStatus>)
        ensures
            match status_of_number(number, unknown@) {
                Ok(status) => r is Ok && r->Ok_0 == status,
                Err(status) => r is Err && r->Err_0@ == status,
            },
    {
        match SubscriptionStatusProto::from_i32(number) {
            Some(status) => SubscriptionStatus::try_from(&status),
            None => Err(UStatus::fail_with_code(UCode::InvalidArgument, unknown)),
        }
    }
}

} // verus!
