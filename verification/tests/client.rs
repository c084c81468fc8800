//! The client's side of the uSubscription service.

use std::cell::RefCell;
use std::sync::Arc;

use usubscription::client::{RpcClientUSubscription, RpcInvocation, RpcReply};
use usubscription::communication::{
    CallOptions, ServiceInvocationError, SubscriptionStatus, SubscriptionStatusProto, UPayload,
    UPriority,
};
use usubscription::message::Decode;
use usubscription::proto::{
    EmptyProto, FetchSubscriptionsRequestProto, FetchSubscriptionsResponseProto,
    SubscribeRequestProto, SubscribeResponseProto, SubscriptionProto, UnsubscribeRequestProto,
};
use usubscription::status::{UCode, UStatus};
use usubscription::timestamp::Timestamp;
use usubscription::uri::{UUri, UUriProto};
use usubscription::usubscription::{
    usubscription_uri, SubscriptionInfo, RESOURCE_ID_FETCH_SUBSCRIPTIONS,
    RESOURCE_ID_REGISTER_FOR_NOTIFICATIONS, RESOURCE_ID_RESET, RESOURCE_ID_SUBSCRIBE,
    RESOURCE_ID_UNREGISTER_FOR_NOTIFICATIONS, RESOURCE_ID_UNSUBSCRIBE,
};

/// An RPC client that gives the replies that it was told to give and keeps the invocations.
struct MockRpcClient {
    replies: RefCell<Vec<RpcReply>>,
    invocations: RefCell<Vec<RpcInvocation>>,
}

impl MockRpcClient {
    fn new(mut replies: Vec<RpcReply>) -> Arc<MockRpcClient> {
        replies.reverse();
        Arc::new(MockRpcClient {
            replies: RefCell::new(replies),
            invocations: RefCell::new(Vec::new()),
        })
    }

    fn invoke_method(&self, invocation: RpcInvocation) -> RpcReply {
        self.invocations.borrow_mut().push(invocation);
        self.replies.borrow_mut().pop().unwrap()
    }

    /// Checks that all replies have been given and that each invocation has been one of the given
    /// operation, with the given request.
    fn check<M: Decode + PartialEq + std::fmt::Debug>(&self, resource_id: u16, request: &M) {
        assert!(self.replies.borrow().is_empty());
        for invocation in self.invocations.borrow().iter() {
            assert_eq!(invocation.method, usubscription_uri(resource_id));
            assert_eq!(
                invocation.options,
                CallOptions::for_rpc_request(5_000, None, None, None)
            );
            assert_eq!(&invocation.payload.extract_protobuf::<M>().unwrap(), request);
        }
    }
}

fn other_topic() -> UUri {
    UUri::try_from_parts("other", 0xd5a3, 0x01, 0xd3fe).unwrap()
}

fn fails_with<T>(result: Result<T, UStatus>, code: UCode, message: &str) -> bool {
    result.is_err_and(|e| e.get_code() == code && e.get_message() == message)
}

#[test]
fn test_subscribe_invokes_rpc_client() {
    let topic = UUri::try_from_parts("other", 0xd5a3, 0x01, 0xd3fe).unwrap();
    let expected_request = SubscribeRequestProto {
        topic: Some(UUriProto::from(&topic)),
        expiration: None,
        sample_period: None,
    };
    let response = SubscribeResponseProto {
        topic: None,
        status: SubscriptionStatusProto::StatusSubscribed.value(),
    };
    let rpc_client = MockRpcClient::new(vec![
        Err(ServiceInvocationError::Internal("internal error".to_string())),
        Ok(Some(UPayload::try_from_protobuf(&response).unwrap())),
    ]);
    let client = RpcClientUSubscription::new(rpc_client.clone());

    let invocation = client.subscribe(&topic, None, None).unwrap();
    assert!(client
        .subscribed(client.rpc_client().invoke_method(invocation))
        .is_err_and(|e| e.get_code() == UCode::Internal));
    let invocation = client.subscribe(&topic, None, None).unwrap();
    assert!(client
        .subscribed(client.rpc_client().invoke_method(invocation))
        .is_ok_and(|status| status == SubscriptionStatus::Subscribed));
    rpc_client.check(RESOURCE_ID_SUBSCRIBE, &expected_request);
}

#[test]
fn test_unsubscribe_invokes_rpc_client() {
    let topic = UUri::try_from_parts("other", 0xd5a3, 0x01, 0xd3fe).unwrap();
    let expected_request = UnsubscribeRequestProto {
        topic: Some(UUriProto::from(&topic)),
    };
    let rpc_client = MockRpcClient::new(vec![
        Err(ServiceInvocationError::Internal("internal error".to_string())),
        Ok(Some(UPayload::try_from_protobuf(&EmptyProto).unwrap())),
    ]);
    let client = RpcClientUSubscription::new(rpc_client.clone());

    let invocation = client.unsubscribe(&topic).unwrap();
    assert!(client
        .unsubscribed(client.rpc_client().invoke_method(invocation))
        .is_err_and(|e| e.get_code() == UCode::Internal));
    let invocation = client.unsubscribe(&topic).unwrap();
    assert!(client
        .unsubscribed(client.rpc_client().invoke_method(invocation))
        .is_ok());
    rpc_client.check(RESOURCE_ID_UNSUBSCRIBE, &expected_request);
}

#[test]
fn test_fetch_subscriptions_invokes_rpc_client() {
    let topic = UUri::try_from_parts("other", 0xd5a3, 0x01, 0xd3fe).unwrap();
    let expected_request = FetchSubscriptionsRequestProto {
        topic_filter: Some(UUriProto::from(&topic)),
        subscriber_filter: None,
    };
    let response = FetchSubscriptionsResponseProto {
        subscriptions: vec![],
    };
    let rpc_client = MockRpcClient::new(vec![
        Err(ServiceInvocationError::Internal("internal error".to_string())),
        Ok(Some(UPayload::try_from_protobuf(&response).unwrap())),
    ]);
    let client = RpcClientUSubscription::new(rpc_client.clone());

    let invocation = client.fetch_subscriptions(Some(topic.clone()), None).unwrap();
    assert!(client
        .fetched_subscriptions(client.rpc_client().invoke_method(invocation))
        .is_err_and(|e| e.get_code() == UCode::Internal));
    let invocation = client.fetch_subscriptions(Some(topic), None).unwrap();
    assert!(client
        .fetched_subscriptions(client.rpc_client().invoke_method(invocation))
        .is_ok_and(|subscriptions| subscriptions.is_empty()));
    rpc_client.check(RESOURCE_ID_FETCH_SUBSCRIPTIONS, &expected_request);
}

#[test]
fn test_register_for_notifications_invokes_rpc_client() {
    let rpc_client = MockRpcClient::new(vec![
        Err(ServiceInvocationError::Internal("internal error".to_string())),
        Ok(Some(UPayload::try_from_protobuf(&EmptyProto).unwrap())),
    ]);
    let client = RpcClientUSubscription::new(rpc_client.clone());

    let invocation = client.register_for_notifications().unwrap();
    assert!(client
        .registered_for_notifications(client.rpc_client().invoke_method(invocation))
        .is_err_and(|e| e.get_code() == UCode::Internal));
    let invocation = client.register_for_notifications().unwrap();
    assert!(client
        .registered_for_notifications(client.rpc_client().invoke_method(invocation))
        .is_ok());
    rpc_client.check(RESOURCE_ID_REGISTER_FOR_NOTIFICATIONS, &EmptyProto::default());
}

#[test]
fn test_unregister_for_notifications_invokes_rpc_client() {
    let rpc_client = MockRpcClient::new(vec![
        Err(ServiceInvocationError::Internal("internal error".to_string())),
        Ok(Some(UPayload::try_from_protobuf(&EmptyProto).unwrap())),
    ]);
    let client = RpcClientUSubscription::new(rpc_client.clone());

    let invocation = client.unregister_for_notifications().unwrap();
    assert!(client
        .unregistered_for_notifications(client.rpc_client().invoke_method(invocation))
        .is_err_and(|e| e.get_code() == UCode::Internal));
    let invocation = client.unregister_for_notifications().unwrap();
    assert!(client
        .unregistered_for_notifications(client.rpc_client().invoke_method(invocation))
        .is_ok());
    rpc_client.check(RESOURCE_ID_UNREGISTER_FOR_NOTIFICATIONS, &EmptyProto::default());
}

#[test]
fn test_reset_invokes_rpc_client() {
    let rpc_client = MockRpcClient::new(vec![
        Err(ServiceInvocationError::Internal("internal error".to_string())),
        Ok(Some(UPayload::try_from_protobuf(&EmptyProto).unwrap())),
    ]);
    let client = RpcClientUSubscription::new(rpc_client.clone());

    let invocation = client.reset().unwrap();
    assert!(client
        .was_reset(client.rpc_client().invoke_method(invocation))
        .is_err_and(|e| e.get_code() == UCode::Internal));
    let invocation = client.reset().unwrap();
    assert!(client
        .was_reset(client.rpc_client().invoke_method(invocation))
        .is_ok());
    rpc_client.check(RESOURCE_ID_RESET, &EmptyProto::default());
}

#[test]
fn invocations_have_the_bytes_of_the_wire_format() {
    let client = RpcClientUSubscription::new(Arc::new(()));
    let topic: [u8; 17] = [
        0x0a, 0x05, b'o', b't', b'h', b'e', b'r', // the authority name
        0x10, 0xa3, 0xab, 0x03, // the entity
        0x18, 0x01, // its version
        0x20, 0xfe, 0xa7, 0x03, // the resource
    ];

    let mut bytes = vec![0x0a, 17];
    bytes.extend(topic);
    let invocation = client.unsubscribe(&other_topic()).unwrap();
    assert_eq!(invocation.payload.payload(), bytes.as_slice());

    // 1_234 milliseconds are one second and 234_000_000 nanoseconds
    bytes.extend([0x12, 0x07, 0x08, 0x01, 0x10, 0x80, 0x9d, 0xca, 0x6f]);
    bytes.extend([0x18, 0xf4, 0x03]);
    let invocation = client.subscribe(&other_topic(), Some(1_234), Some(500)).unwrap();
    assert_eq!(invocation.payload.payload(), bytes.as_slice());

    let mut bytes = vec![0x12, 17];
    bytes.extend(topic);
    let invocation = client.fetch_subscriptions(None, Some(other_topic())).unwrap();
    assert_eq!(invocation.payload.payload(), bytes.as_slice());

    assert!(client.reset().unwrap().payload.payload().is_empty());
}

#[test]
fn invocations_go_to_the_local_service() {
    let client = RpcClientUSubscription::new(Arc::new(()));
    let method = client.reset().unwrap().method;
    assert_eq!(method.authority_name(), "");
    assert_eq!(method.ue_id(), 0);
    assert_eq!(method.ue_version_major(), 3);
    assert_eq!(method.resource_id(), RESOURCE_ID_RESET);
}

#[test]
fn zero_milliseconds_are_still_an_expiration() {
    let client = RpcClientUSubscription::new(Arc::new(()));
    let invocation = client.subscribe(&other_topic(), Some(0), Some(0)).unwrap();
    let request = invocation.payload.extract_protobuf::<SubscribeRequestProto>().unwrap();
    assert_eq!(request.expiration, Some(Timestamp { seconds: 0, nanos: 0 }));
    assert_eq!(request.sample_period, Some(0));
}

#[test]
fn call_options_keep_what_they_were_made_of() {
    let options =
        CallOptions::for_rpc_request(100, Some(7), Some("token".to_string()), Some(UPriority::CS4));
    assert_eq!(options.ttl(), 100);
    assert_eq!(options.message_id(), Some(7));
    assert_eq!(options.token(), Some("token"));
    assert_eq!(options.priority(), Some(UPriority::CS4));
    let options = RpcClientUSubscription::<()>::default_call_options();
    assert_eq!(options.ttl(), 5_000);
    assert_eq!(options.message_id(), None);
    assert_eq!(options.token(), None);
    assert_eq!(options.priority(), None);
}

#[test]
fn every_reason_of_a_failed_invocation_has_its_code() {
    let client = RpcClientUSubscription::new(Arc::new(()));
    let text = || "why".to_string();
    let status = UStatus::fail_with_code(UCode::DataLoss, "why");
    let cases = vec![
        (ServiceInvocationError::AlreadyExists(text()), UCode::AlreadyExists),
        (ServiceInvocationError::FailedPrecondition(text()), UCode::FailedPrecondition),
        (ServiceInvocationError::Internal(text()), UCode::Internal),
        (ServiceInvocationError::InvalidArgument(text()), UCode::InvalidArgument),
        (ServiceInvocationError::NotFound(text()), UCode::NotFound),
        (ServiceInvocationError::PermissionDenied(text()), UCode::PermissionDenied),
        (ServiceInvocationError::ResourceExhausted(text()), UCode::ResourceExhausted),
        (ServiceInvocationError::RpcError(status), UCode::DataLoss),
        (ServiceInvocationError::Unauthenticated(text()), UCode::Unauthenticated),
        (ServiceInvocationError::Unavailable(text()), UCode::Unavailable),
        (ServiceInvocationError::Unimplemented(text()), UCode::Unimplemented),
    ];
    for (error, code) in cases {
        assert!(fails_with(client.subscribed(Err(error.clone())), code, "why"));
        assert!(fails_with(client.unsubscribed(Err(error.clone())), code, "why"));
        assert!(fails_with(client.fetched_subscriptions(Err(error)), code, "why"));
    }
    assert!(fails_with(
        client.was_reset(Err(ServiceInvocationError::DeadlineExceeded)),
        UCode::DeadlineExceeded,
        "request timed out",
    ));
}

#[test]
fn a_reply_without_payload_is_an_error() {
    let client = RpcClientUSubscription::new(Arc::new(()));
    let message = "RPC response has no payload";
    assert!(fails_with(client.subscribed(Ok(None)), UCode::InvalidArgument, message));
    assert!(fails_with(client.unsubscribed(Ok(None)), UCode::InvalidArgument, message));
    assert!(fails_with(client.fetched_subscriptions(Ok(None)), UCode::InvalidArgument, message));
    assert!(fails_with(
        client.registered_for_notifications(Ok(None)),
        UCode::InvalidArgument,
        message
    ));
    assert!(fails_with(
        client.unregistered_for_notifications(Ok(None)),
        UCode::InvalidArgument,
        message
    ));
    assert!(fails_with(client.was_reset(Ok(None)), UCode::InvalidArgument, message));
}

#[test]
fn a_reply_that_is_not_a_message_is_an_error() {
    let client = RpcClientUSubscription::new(Arc::new(()));
    let reply = |bytes: Vec<u8>| Ok(Some(UPayload::new(bytes)));
    assert!(fails_with(
        client.unsubscribed(reply(vec![0x80])),
        UCode::InvalidArgument,
        "Unexpected EOF"
    ));
    assert!(fails_with(
        client.subscribed(reply(vec![0x10, 0xff, 0xff, 0xff, 0xff, 0xff, 0xff, 0xff, 0xff, 0xff, 0x02])),
        UCode::InvalidArgument,
        "Incorrect varint"
    ));
    assert!(fails_with(
        client.fetched_subscriptions(reply(vec![0x0a, 0xff, 0xff, 0xff, 0xff, 0xff, 0xff, 0xff, 0xff, 0xff, 0x01])),
        UCode::InvalidArgument,
        "Limit overflow"
    ));
}

#[test]
fn every_status_of_a_subscription_is_read() {
    let client = RpcClientUSubscription::new(Arc::new(()));
    let result = |status: i32| {
        let response = SubscribeResponseProto { topic: None, status };
        client.subscribed(Ok(Some(UPayload::try_from_protobuf(&response).unwrap())))
    };
    assert_eq!(result(1), Ok(SubscriptionStatus::Unsubscribed));
    assert_eq!(result(2), Ok(SubscriptionStatus::SubscribePending));
    assert_eq!(result(3), Ok(SubscriptionStatus::Subscribed));
    assert_eq!(result(4), Ok(SubscriptionStatus::UnsubscribePending));
    assert!(fails_with(
        result(0),
        UCode::InvalidArgument,
        "subscription status is unspecified"
    ));
    for status in [-1, 5, i32::MAX, i32::MIN] {
        assert!(fails_with(
            result(status),
            UCode::InvalidArgument,
            "uSubscription returned invalid response: no subscription status"
        ));
    }
}

fn subscription() -> SubscriptionProto {
    SubscriptionProto {
        topic: Some(UUriProto::from(&other_topic())),
        subscriber: Some(UUriProto::from(
            &UUri::try_from_parts("my-vehicle", 0xabcd, 0x01, 0x0000).unwrap(),
        )),
        status: 3,
        expiration: Some(Timestamp { seconds: 10, nanos: 234_567_890 }),
        sample_period: Some(500),
    }
}

#[test]
fn a_subscription_is_made_of_its_message() {
    let info = SubscriptionInfo::try_from(&subscription()).unwrap();
    assert_eq!(info.topic, other_topic());
    assert_eq!(info.subscriber.authority_name(), "my-vehicle");
    assert_eq!(info.status, SubscriptionStatus::Subscribed);
    assert_eq!(info.expiration, Some(10_234));
    assert_eq!(info.sample_period, Some(500));
    let without_times = SubscriptionProto { expiration: None, sample_period: None, ..subscription() };
    let info = SubscriptionInfo::try_from(&without_times).unwrap();
    assert_eq!(info.expiration, None);
    assert_eq!(info.sample_period, None);
}

#[test]
fn the_first_field_that_is_missing_or_invalid_decides() {
    let mut message = subscription();
    message.expiration = Some(Timestamp { seconds: -1, nanos: 0 });
    assert!(fails_with(
        SubscriptionInfo::try_from(&message),
        UCode::InvalidArgument,
        "invalid timestamp: seconds value out of range"
    ));
    message.expiration = Some(Timestamp { seconds: -1, nanos: -1 });
    assert!(fails_with(
        SubscriptionInfo::try_from(&message),
        UCode::InvalidArgument,
        "invalid timestamp: nanos value out of range"
    ));
    message.status = 0;
    assert!(fails_with(
        SubscriptionInfo::try_from(&message),
        UCode::InvalidArgument,
        "subscription status is unspecified"
    ));
    message.status = 17;
    assert!(fails_with(
        SubscriptionInfo::try_from(&message),
        UCode::InvalidArgument,
        "subscription status missing"
    ));
    message.subscriber.as_mut().unwrap().resource_id = 0x1_0000;
    assert!(fails_with(
        SubscriptionInfo::try_from(&message),
        UCode::InvalidArgument,
        "invalid subscriber"
    ));
    message.subscriber = None;
    assert!(fails_with(
        SubscriptionInfo::try_from(&message),
        UCode::InvalidArgument,
        "subscriber missing"
    ));
    message.topic.as_mut().unwrap().ue_version_major = 0x100;
    assert!(fails_with(
        SubscriptionInfo::try_from(&message),
        UCode::InvalidArgument,
        "invalid topic"
    ));
    message.topic = None;
    assert!(fails_with(
        SubscriptionInfo::try_from(&message),
        UCode::InvalidArgument,
        "topic missing"
    ));
}

#[test]
fn subscriptions_are_fetched_in_their_order() {
    let client = RpcClientUSubscription::new(Arc::new(()));
    let second = SubscriptionProto { status: 2, ..subscription() };
    let response = FetchSubscriptionsResponseProto {
        subscriptions: vec![subscription(), second.clone(), subscription()],
    };
    let payload = UPayload::try_from_protobuf(&response).unwrap();
    let infos = client.fetched_subscriptions(Ok(Some(payload))).unwrap();
    assert_eq!(infos.len(), 3);
    assert_eq!(infos[0], SubscriptionInfo::try_from(&subscription()).unwrap());
    assert_eq!(infos[1], SubscriptionInfo::try_from(&second).unwrap());
    assert_eq!(infos[2], infos[0]);
}

#[test]
fn the_first_subscription_that_is_invalid_decides() {
    let client = RpcClientUSubscription::new(Arc::new(()));
    let response = FetchSubscriptionsResponseProto {
        subscriptions: vec![
            subscription(),
            SubscriptionProto { subscriber: None, ..subscription() },
            SubscriptionProto { topic: None, ..subscription() },
        ],
    };
    let payload = UPayload::try_from_protobuf(&response).unwrap();
    assert!(fails_with(
        client.fetched_subscriptions(Ok(Some(payload))),
        UCode::InvalidArgument,
        "subscriber missing"
    ));
}
