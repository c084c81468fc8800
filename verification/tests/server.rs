//! The server's side of the uSubscription service.

use std::sync::Arc;

use usubscription::client::RpcClientUSubscription;
use usubscription::communication::{SubscriptionStatus, UAttributes, UPayload};
use usubscription::proto::{
    EmptyProto, SubscribeRequestProto, SubscribeResponseProto, UnsubscribeRequestProto,
};
use usubscription::server::{
    extract_request_proto, extract_usubscription_request, pack_response_proto,
    pack_usubscription_response, require_topic, SubscribeRequest, SubscribeResponse,
    USubscriptionRequest, USubscriptionResponse, UnsubscribeRequest, UnsubscribeResponse,
};
use usubscription::status::{UCode, UStatus};
use usubscription::time::{DateTime, TimeDelta};
use usubscription::timestamp::Timestamp;
use usubscription::uri::{UUri, UUriProto};
use usubscription::usubscription::{
    RESOURCE_ID_FETCH_SUBSCRIPTIONS, RESOURCE_ID_SUBSCRIBE, RESOURCE_ID_UNSUBSCRIBE,
};

fn topic() -> UUri {
    UUri::try_from_parts("my-vehicle", 0x0000_800a, 0x01, 0x8001).unwrap()
}

fn subscriber() -> UUri {
    UUri::try_from_parts("my-vehicle", 0xabcd, 0x01, 0x0000).unwrap()
}

fn attributes() -> UAttributes {
    UAttributes::new(subscriber())
}

fn fails_with<T>(result: Result<T, UStatus>, code: UCode, message: &str) -> bool {
    result.is_err_and(|e| e.get_code() == code && e.get_message() == message)
}

fn subscribe_request() -> SubscribeRequestProto {
    SubscribeRequestProto {
        topic: Some(UUriProto::from(&topic())),
        expiration: Some(Timestamp { seconds: 1, nanos: 234_000_000 }),
        sample_period: Some(1_500),
    }
}

fn extract_subscribe(request: &SubscribeRequestProto) -> Result<USubscriptionRequest, UStatus> {
    extract_usubscription_request(
        RESOURCE_ID_SUBSCRIBE,
        &attributes(),
        Some(UPayload::try_from_protobuf(request).unwrap()),
    )
}

#[test]
fn a_request_to_subscribe_is_unpacked() {
    assert_eq!(
        extract_subscribe(&subscribe_request()),
        Ok(USubscriptionRequest::Subscribe(SubscribeRequest {
            subscriber: subscriber(),
            topic: topic(),
            expiration: DateTime::from_timestamp(1, 234_000_000),
            sample_period: Some(TimeDelta::milliseconds(1_500)),
        }))
    );
    let request = SubscribeRequestProto {
        expiration: None,
        sample_period: None,
        ..subscribe_request()
    };
    assert_eq!(
        extract_subscribe(&request),
        Ok(USubscriptionRequest::Subscribe(SubscribeRequest {
            subscriber: subscriber(),
            topic: topic(),
            expiration: None,
            sample_period: None,
        }))
    );
}

#[test]
fn a_request_to_unsubscribe_is_unpacked() {
    let request = UnsubscribeRequestProto {
        topic: Some(UUriProto::from(&topic())),
    };
    let payload = UPayload::try_from_protobuf(&request).unwrap();
    let expected = UnsubscribeRequest { subscriber: subscriber(), topic: topic() };
    assert_eq!(
        extract_request_proto::<UnsubscribeRequest>(Some(payload.clone()), &attributes()),
        Ok(expected.clone())
    );
    assert_eq!(
        extract_usubscription_request(RESOURCE_ID_UNSUBSCRIBE, &attributes(), Some(payload)),
        Ok(USubscriptionRequest::Unsubscribe(expected))
    );
}

#[test]
fn operations_that_are_not_supported_are_unimplemented() {
    let cases = [
        (RESOURCE_ID_FETCH_SUBSCRIPTIONS, "unsupported uSubscription resource id: 0x0003"),
        (0x0000, "unsupported uSubscription resource id: 0x0000"),
        (0x01ab, "unsupported uSubscription resource id: 0x01ab"),
        (0xcdef, "unsupported uSubscription resource id: 0xcdef"),
        (0xffff, "unsupported uSubscription resource id: 0xffff"),
    ];
    for (resource_id, message) in cases {
        let payload = UPayload::try_from_protobuf(&subscribe_request()).unwrap();
        for payload in [None, Some(payload)] {
            assert!(fails_with(
                extract_usubscription_request(resource_id, &attributes(), payload),
                UCode::Unimplemented,
                message
            ));
        }
    }
}

#[test]
fn the_resource_id_is_written_as_the_formatter_does() {
    for resource_id in 0..=u16::MAX {
        if resource_id != RESOURCE_ID_SUBSCRIBE && resource_id != RESOURCE_ID_UNSUBSCRIBE {
            let status =
                extract_usubscription_request(resource_id, &attributes(), None).unwrap_err();
            assert_eq!(
                status.get_message(),
                format!("unsupported uSubscription resource id: {resource_id:#06x}")
            );
        }
    }
}

#[test]
fn a_payload_is_needed() {
    for resource_id in [RESOURCE_ID_SUBSCRIBE, RESOURCE_ID_UNSUBSCRIBE] {
        assert!(fails_with(
            extract_usubscription_request(resource_id, &attributes(), None),
            UCode::InvalidArgument,
            "missing request payload"
        ));
    }
}

#[test]
fn a_payload_that_is_not_the_request_is_an_error() {
    let cases: Vec<(Vec<u8>, &str)> = vec![
        (vec![0x80], "payload is not a valid: Unexpected EOF"),
        (vec![0xff; 5], "payload is not a valid: Incorrect varint"),
        (vec![0x07], "payload is not a valid: Incorrect tag"),
        (vec![0x3c], "payload is not a valid: Unexpected wire type"),
        (vec![0x0a, 0x03, 0x0a, 0x01, 0xff], "payload is not a valid: Invalid UTF-8 sequence"),
        (vec![0x0a, 0x02, 0x0a, 0x01], "payload is not a valid: Truncated message"),
        (
            vec![0x12, 0x06, 0x10, 0x80, 0x80, 0x80, 0x80, 0x08],
            "payload is not a valid: Value too large for i32: 2147483648",
        ),
    ];
    for (bytes, message) in cases {
        assert!(fails_with(
            extract_usubscription_request(
                RESOURCE_ID_SUBSCRIBE,
                &attributes(),
                Some(UPayload::new(bytes))
            ),
            UCode::InvalidArgument,
            message
        ));
    }
}

#[test]
fn a_topic_is_needed() {
    let request = SubscribeRequestProto { topic: None, ..subscribe_request() };
    assert!(fails_with(extract_subscribe(&request), UCode::InvalidArgument, "missing topic"));
    assert!(fails_with(
        extract_usubscription_request(
            RESOURCE_ID_UNSUBSCRIBE,
            &attributes(),
            Some(UPayload::new(vec![]))
        ),
        UCode::InvalidArgument,
        "missing topic"
    ));
    assert!(fails_with(require_topic(None), UCode::InvalidArgument, "missing topic"));
}

#[test]
fn a_topic_has_to_be_well_formed() {
    let topic = UUriProto::from(&topic());
    assert!(fails_with(
        require_topic(Some(UUriProto {
            authority_name: "My-Vehicle".to_string(),
            ..topic.clone()
        })),
        UCode::InvalidArgument,
        "invalid topic URI: invalid authority name"
    ));
    assert!(fails_with(
        require_topic(Some(UUriProto { ue_version_major: 0x100, ..topic.clone() })),
        UCode::InvalidArgument,
        "invalid topic URI: uEntity version out of range"
    ));
    assert!(fails_with(
        require_topic(Some(UUriProto { resource_id: 0x1_0000, ..topic })),
        UCode::InvalidArgument,
        "invalid topic URI: resource ID out of range"
    ));
}

#[test]
fn an_expiration_has_to_be_a_date_and_time() {
    let with_expiration = |seconds: i64, nanos: i32| {
        extract_subscribe(&SubscribeRequestProto {
            expiration: Some(Timestamp { seconds, nanos }),
            ..subscribe_request()
        })
    };
    assert!(fails_with(
        with_expiration(1, 1_000_000_000),
        UCode::InvalidArgument,
        "invalid timestamp: nanos value out of range"
    ));
    assert!(fails_with(
        with_expiration(i64::MAX, -1),
        UCode::InvalidArgument,
        "invalid timestamp: nanos value out of range"
    ));
    assert!(fails_with(
        with_expiration(i64::MAX, 0),
        UCode::InvalidArgument,
        "invalid timestamp: seconds value out of range"
    ));
    assert!(with_expiration(-1, 0).is_ok());
}

#[test]
fn the_topic_is_checked_before_the_expiration() {
    let request = SubscribeRequestProto {
        topic: None,
        expiration: Some(Timestamp { seconds: 1, nanos: -1 }),
        sample_period: None,
    };
    assert!(fails_with(extract_subscribe(&request), UCode::InvalidArgument, "missing topic"));
}

#[test]
fn responses_have_the_bytes_of_the_wire_format() {
    let response = SubscribeResponse {
        topic: UUri::try_from_parts("", 1, 2, 3).unwrap(),
        status: SubscriptionStatus::SubscribePending,
    };
    let bytes: &[u8] = &[0x0a, 0x06, 0x10, 0x01, 0x18, 0x02, 0x20, 0x03, 0x10, 0x02];
    assert_eq!(pack_response_proto(response.clone()).unwrap().payload(), bytes);
    assert_eq!(pack_usubscription_response(response.into()).unwrap().payload(), bytes);
    let payload = pack_usubscription_response(UnsubscribeResponse.into()).unwrap();
    assert!(payload.payload().is_empty());
}

#[test]
fn responses_are_tagged_by_their_operation() {
    let response = SubscribeResponse { topic: topic(), status: SubscriptionStatus::Subscribed };
    assert_eq!(
        USubscriptionResponse::from(response.clone()),
        USubscriptionResponse::Subscribe(response)
    );
    assert_eq!(
        USubscriptionResponse::from(UnsubscribeResponse),
        USubscriptionResponse::Unsubscribe(UnsubscribeResponse)
    );
}

#[test]
fn a_server_reads_what_a_client_asks_for() {
    let client = RpcClientUSubscription::new(Arc::new(()));
    let invocation = client.subscribe(&topic(), Some(10_234), Some(500)).unwrap();
    assert_eq!(
        extract_usubscription_request(
            invocation.method.resource_id(),
            &attributes(),
            Some(invocation.payload)
        ),
        Ok(USubscriptionRequest::Subscribe(SubscribeRequest {
            subscriber: subscriber(),
            topic: topic(),
            expiration: DateTime::from_timestamp(10, 234_000_000),
            sample_period: Some(TimeDelta::milliseconds(500)),
        }))
    );
    let invocation = client.unsubscribe(&topic()).unwrap();
    assert_eq!(
        extract_usubscription_request(
            invocation.method.resource_id(),
            &attributes(),
            Some(invocation.payload)
        ),
        Ok(USubscriptionRequest::Unsubscribe(UnsubscribeRequest {
            subscriber: subscriber(),
            topic: topic(),
        }))
    );
}

#[test]
fn a_server_refuses_an_expiration_beyond_all_dates() {
    let client = RpcClientUSubscription::new(Arc::new(()));
    let extract = |millis: u64| {
        let invocation = client.subscribe(&topic(), Some(millis), None).unwrap();
        extract_usubscription_request(
            invocation.method.resource_id(),
            &attributes(),
            Some(invocation.payload),
        )
    };
    assert!(extract(8_210_266_876_799_999).is_ok());
    for millis in [8_210_266_876_800_000, u64::MAX] {
        assert!(fails_with(
            extract(millis),
            UCode::InvalidArgument,
            "invalid timestamp: seconds value out of range"
        ));
    }
}

#[test]
fn a_client_reads_what_a_server_responds() {
    let client = RpcClientUSubscription::new(Arc::new(()));
    for status in [
        SubscriptionStatus::Unsubscribed,
        SubscriptionStatus::SubscribePending,
        SubscriptionStatus::Subscribed,
        SubscriptionStatus::UnsubscribePending,
    ] {
        let response = SubscribeResponse { topic: topic(), status };
        let payload = pack_usubscription_response(response.into()).unwrap();
        let message = payload.extract_protobuf::<SubscribeResponseProto>().unwrap();
        assert_eq!(UUri::try_from(&message.topic.unwrap()), Ok(topic()));
        assert_eq!(client.subscribed(Ok(Some(payload))), Ok(status));
    }
    let payload = pack_usubscription_response(UnsubscribeResponse.into()).unwrap();
    assert!(payload.extract_protobuf::<EmptyProto>().is_ok());
    assert_eq!(client.unsubscribed(Ok(Some(payload))), Ok(()));
}
