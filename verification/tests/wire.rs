//! The wire format, held against the `protobuf` crate's own reading and writing of messages.

use protobuf::descriptor::field_descriptor_proto::{Label, Type};
use protobuf::descriptor::{DescriptorProto, FieldDescriptorProto, FileDescriptorProto};
use protobuf::reflect::{FileDescriptor, MessageDescriptor};
use usubscription::message::{Decode, Encode, ReadLimits};
use usubscription::proto::{
    EmptyProto, FetchSubscriptionsRequestProto, FetchSubscriptionsResponseProto,
    SubscribeRequestProto, SubscribeResponseProto, SubscriptionProto, UnsubscribeRequestProto,
};
use usubscription::timestamp::Timestamp;
use usubscription::uri::{UUri, UUriError, UUriProto};
use usubscription::wire::DecodeError;

fn field(number: i32, label: Label, type_: Type, of: &str) -> FieldDescriptorProto {
    let mut field = FieldDescriptorProto::new();
    field.set_name(format!("field_{number}"));
    field.set_number(number);
    field.set_label(label);
    field.set_type(type_);
    if !of.is_empty() {
        field.set_type_name(of.to_string());
    }
    field
}

fn integer(number: i32, type_: Type) -> FieldDescriptorProto {
    field(number, Label::LABEL_OPTIONAL, type_, "")
}

fn message(number: i32, of: &str) -> FieldDescriptorProto {
    field(number, Label::LABEL_OPTIONAL, Type::TYPE_MESSAGE, of)
}

fn descriptor(name: &str) -> MessageDescriptor {
    let uri = ".uprotocol.UUri";
    let timestamp = ".google.protobuf.Timestamp";
    let messages = vec![
        (
            "UUri",
            vec![
                integer(1, Type::TYPE_STRING),
                integer(2, Type::TYPE_UINT32),
                integer(3, Type::TYPE_UINT32),
                integer(4, Type::TYPE_UINT32),
            ],
        ),
        (
            "SubscribeRequest",
            vec![message(1, uri), message(2, timestamp), integer(3, Type::TYPE_UINT32)],
        ),
        ("UnsubscribeRequest", vec![message(1, uri)]),
        ("SubscribeResponse", vec![message(1, uri), integer(2, Type::TYPE_INT32)]),
        (
            "Subscription",
            vec![
                message(1, uri),
                message(2, uri),
                integer(3, Type::TYPE_INT32),
                message(4, timestamp),
                integer(5, Type::TYPE_UINT32),
            ],
        ),
        ("FetchSubscriptionsRequest", vec![message(1, uri), message(2, uri)]),
        (
            "FetchSubscriptionsResponse",
            vec![field(1, Label::LABEL_REPEATED, Type::TYPE_MESSAGE, ".uprotocol.Subscription")],
        ),
    ];
    let mut file = FileDescriptorProto::new();
    file.set_name("usubscription.proto".to_string());
    file.set_package("uprotocol".to_string());
    file.dependency.push("google/protobuf/timestamp.proto".to_string());
    for (name, fields) in messages {
        let mut message = DescriptorProto::new();
        message.set_name(name.to_string());
        message.field = fields;
        file.message_type.push(message);
    }
    let timestamp = protobuf::well_known_types::timestamp::file_descriptor().clone();
    let file = FileDescriptor::new_dynamic(file, &[timestamp]).unwrap();
    file.message_by_package_relative_name(name).unwrap()
}

/// Checks that the message is read back and that the `protobuf` crate reads and writes the same.
fn round_trip<M: Decode + Encode + PartialEq + std::fmt::Debug>(name: &str, message: &M) {
    let bytes = message.encode().unwrap();
    assert_eq!(&M::decode(&bytes, ReadLimits::payload()).unwrap(), message);
    let same = descriptor(name).parse_from_bytes(&bytes).unwrap();
    assert_eq!(same.write_to_bytes_dyn().unwrap(), bytes);
}

fn error(message: &str) -> DecodeError {
    DecodeError::new(message)
}

fn uri() -> UUriProto {
    UUriProto {
        authority_name: "my-vehicle".to_string(),
        ue_id: 0x0102_800a,
        ue_version_major: 0xff,
        resource_id: 0x8001,
    }
}

fn subscription() -> SubscriptionProto {
    SubscriptionProto {
        topic: Some(uri()),
        subscriber: Some(UUriProto { resource_id: 0, ..uri() }),
        status: 3,
        expiration: Some(Timestamp { seconds: 1_700_000_000, nanos: 999_999_999 }),
        sample_period: Some(u32::MAX),
    }
}

#[test]
fn addresses_are_read_back() {
    round_trip("UUri", &uri());
    round_trip("UUri", &UUriProto { authority_name: String::new(), ..uri() });
    round_trip("UUri", &UUriProto { ue_id: u32::MAX, ue_version_major: u32::MAX, ..uri() });
    round_trip("UUri", &UUriProto { authority_name: "\u{e4}\u{20ac}\u{1f697}".to_string(), ..uri() });
    round_trip("UUri", &UUriProto { authority_name: "a".repeat(300), ..uri() });
}

#[test]
fn requests_are_read_back() {
    round_trip(
        "SubscribeRequest",
        &SubscribeRequestProto {
            topic: Some(uri()),
            expiration: Some(Timestamp { seconds: -1, nanos: -1 }),
            sample_period: Some(128),
        },
    );
    round_trip(
        "SubscribeRequest",
        &SubscribeRequestProto { topic: None, expiration: None, sample_period: Some(0) },
    );
    round_trip("UnsubscribeRequest", &UnsubscribeRequestProto { topic: Some(uri()) });
    round_trip("UnsubscribeRequest", &UnsubscribeRequestProto { topic: None });
    round_trip(
        "FetchSubscriptionsRequest",
        &FetchSubscriptionsRequestProto {
            topic_filter: Some(uri()),
            subscriber_filter: Some(UUriProto { ue_id: 1, ..uri() }),
        },
    );
    round_trip(
        "FetchSubscriptionsRequest",
        &FetchSubscriptionsRequestProto { topic_filter: None, subscriber_filter: Some(uri()) },
    );
}

#[test]
fn responses_are_read_back() {
    for status in [1, 4, -1, i32::MIN, i32::MAX] {
        round_trip("SubscribeResponse", &SubscribeResponseProto { topic: Some(uri()), status });
    }
    round_trip("Subscription", &subscription());
    let response = FetchSubscriptionsResponseProto {
        subscriptions: vec![
            subscription(),
            SubscriptionProto { topic: None, status: 0, ..subscription() },
            SubscriptionProto { expiration: None, sample_period: None, ..subscription() },
        ],
    };
    round_trip("FetchSubscriptionsResponse", &response);
    assert!(EmptyProto.encode().unwrap().is_empty());
    assert_eq!(EmptyProto::decode(&[], ReadLimits::payload()), Ok(EmptyProto));
}

#[test]
fn every_prefix_of_a_response_is_read_or_refused_alike() {
    let response = FetchSubscriptionsResponseProto {
        subscriptions: vec![subscription(), subscription()],
    };
    let bytes = response.encode().unwrap();
    let descriptor = descriptor("FetchSubscriptionsResponse");
    for len in 0..=bytes.len() {
        let message = FetchSubscriptionsResponseProto::decode(&bytes[..len], ReadLimits::payload());
        let same = descriptor.parse_from_bytes(&bytes[..len]);
        match (message, same) {
            (Ok(message), Ok(same)) => {
                let subscriptions = descriptor.field_by_number(1).unwrap();
                assert_eq!(message.subscriptions.len(), subscriptions.get_repeated(&*same).len());
            }
            (Err(message), Err(same)) => assert_eq!(message.message(), same.to_string()),
            _ => panic!("the first {len} bytes"),
        }
    }
}

#[test]
fn the_end_of_the_input_ends_a_message() {
    // a topic of 127 bytes is announced, and two are there
    let bytes = [0x0a, 127, 0x10, 0x05];
    let topic = UUriProto {
        authority_name: String::new(),
        ue_id: 5,
        ue_version_major: 0,
        resource_id: 0,
    };
    assert_eq!(
        UnsubscribeRequestProto::decode(&bytes, ReadLimits::payload()),
        Ok(UnsubscribeRequestProto { topic: Some(topic) })
    );
    assert!(descriptor("UnsubscribeRequest").parse_from_bytes(&bytes).is_ok());
    // a message cannot be longer than the one around it
    let nested = [0x0a, 0x04, 0x0a, 127, 0x10, 0x05];
    assert_eq!(
        FetchSubscriptionsResponseProto::decode(&nested, ReadLimits::payload()),
        Err(error("New limit must not be greater than current limit"))
    );
    assert!(descriptor("FetchSubscriptionsResponse").parse_from_bytes(&nested).is_err());
}

#[test]
fn the_last_of_several_fields_counts() {
    let bytes = [0x10, 0x01, 0x20, 0x02, 0x10, 0x03];
    let message = UUriProto::decode(&bytes, ReadLimits::payload()).unwrap();
    assert_eq!(message.ue_id, 3);
    assert_eq!(message.resource_id, 2);
    // a second topic takes the place of the first
    let bytes = [0x0a, 0x02, 0x10, 0x01, 0x0a, 0x02, 0x20, 0x02];
    let topic = UnsubscribeRequestProto::decode(&bytes, ReadLimits::payload()).unwrap().topic.unwrap();
    assert_eq!(topic.ue_id, 0);
    assert_eq!(topic.resource_id, 2);
}

#[test]
fn fields_that_a_message_does_not_know_are_skipped() {
    let mut bytes = vec![
        0x38, 0xac, 0x02, // a variable-length integer
        0x39, 1, 2, 3, 4, 5, 6, 7, 8, // eight bytes
        0x3d, 1, 2, 3, 4, // four bytes
        0x3a, 3, 1, 2, 3, // three bytes behind their length
        0x3b, 0x08, 0x01, 0x3c, // a group
    ];
    assert_eq!(EmptyProto::decode(&bytes, ReadLimits::payload()), Ok(EmptyProto));
    bytes.extend(uri().encode().unwrap());
    assert_eq!(UUriProto::decode(&bytes, ReadLimits::payload()), Ok(uri()));
    // the number zero, a wire type that there is none of, the end of no group, and what is cut off
    let malformed: [(&[u8], &str); 9] = [
        (&[0x00], "Incorrect tag"),
        (&[0x3f], "Incorrect tag"),
        (&[0x3c], "Unexpected wire type"),
        (&[0x38], "Unexpected EOF"),
        (&[0x39, 1, 2, 3], "Unexpected EOF"),
        (&[0x3d, 1, 2, 3], "Unexpected EOF"),
        (&[0x3a, 3, 1, 2], "Unexpected EOF"),
        (&[0x3a, 0x80, 0xad, 0xe2, 0x04], "Truncated message"),
        (&[0x3b, 0x08, 0x01], "Unexpected EOF"),
    ];
    for (bytes, message) in malformed {
        assert_eq!(EmptyProto::decode(bytes, ReadLimits::payload()), Err(error(message)));
    }
}

/// A field, with the given number and a length in front of its content.
fn delimited(number: u8, content: &[u8]) -> Vec<u8> {
    let mut field = vec![number * 8 + 2];
    let mut len = content.len();
    while len >= 128 {
        field.push(128 + (len % 128) as u8);
        len /= 128;
    }
    field.push(len as u8);
    field.extend(content);
    field
}

/// As many groups as given, one in the other.
fn groups(count: usize) -> Vec<u8> {
    let mut bytes = vec![0x3b; count];
    bytes.extend(vec![0x3c; count]);
    bytes
}

#[test]
fn groups_may_be_nested_so_many_levels_deep() {
    let too_deep = || error("Over recursion limit");
    let top = |count: usize| EmptyProto::decode(&groups(count), ReadLimits::payload());
    assert!(top(101).is_ok());
    assert_eq!(top(102), Err(too_deep()));
    // each message around them takes up one level
    let topic = |count: usize| {
        UnsubscribeRequestProto::decode(&delimited(1, &groups(count)), ReadLimits::payload())
    };
    assert!(topic(100).is_ok());
    assert_eq!(topic(101), Err(too_deep()));
    let fetched = |count: usize| {
        let bytes = delimited(1, &delimited(1, &groups(count)));
        FetchSubscriptionsResponseProto::decode(&bytes, ReadLimits::payload())
    };
    assert!(fetched(99).is_ok());
    assert_eq!(fetched(100), Err(too_deep()));
    let expiration = |count: usize| {
        SubscribeRequestProto::decode(&delimited(2, &groups(count)), ReadLimits::payload())
    };
    assert!(expiration(100).is_ok());
    assert_eq!(expiration(101), Err(too_deep()));
}

#[test]
fn groups_in_a_timestamp_are_read_or_refused_alike() {
    for count in [1, 99, 100, 101, 102] {
        let field = delimited(2, &groups(count));
        let mut is = protobuf::CodedInputStream::from_bytes(&field[1..]);
        let mut timestamp = protobuf::well_known_types::timestamp::Timestamp::new();
        let same = is.merge_message(&mut timestamp).map_err(|e| e.to_string());
        let request = SubscribeRequestProto::decode(&field, ReadLimits::payload());
        assert_eq!(request.map(|_| ()).map_err(|e| e.message().to_string()), same);
    }
}

#[test]
fn malformed_messages_are_refused_alike() {
    let descriptor = descriptor("FetchSubscriptionsResponse");
    let max: [u8; 10] = [0xff, 0xff, 0xff, 0xff, 0xff, 0xff, 0xff, 0xff, 0xff, 0x01];
    let field = |tag: u8, bytes: &[u8]| [&[tag], bytes].concat();
    let cases: Vec<(Vec<u8>, &str)> = vec![
        (field(0x0a, &max), "Limit overflow"),
        (delimited(1, &field(0x0a, &max)), "Limit overflow"),
        (
            delimited(1, &[0x0a, 0x01]),
            "New limit must not be greater than current limit",
        ),
        (delimited(1, &field(0x18, &[0xff; 10])), "Incorrect varint"),
        (
            delimited(1, &[0x18, 0x80, 0x80, 0x80, 0x80, 0x08]),
            "Value too large for i32: 2147483648",
        ),
        (delimited(1, &field(0x28, &max)), "Incorrect varint"),
        (delimited(1, &delimited(1, &[0x0a, 0x05, b'a'])), "Truncated message"),
        (vec![0x0a, 0x7f, 0x0a, 0x7d, 0x0a, 0x05, b'a'], "Unexpected EOF"),
        (delimited(1, &delimited(2, &[0x0a, 0x01, 0xc3])), "Invalid UTF-8 sequence"),
        (delimited(1, &delimited(4, &[0x08])), "Unexpected EOF"),
        (delimited(1, &delimited(4, &[0x1a, 0x05, 0])), "Truncated message"),
        (delimited(1, &delimited(4, &[0x04])), "Incorrect tag"),
    ];
    for (bytes, message) in cases {
        assert_eq!(
            FetchSubscriptionsResponseProto::decode(&bytes, ReadLimits::payload()),
            Err(error(message))
        );
        let same = descriptor.parse_from_bytes(&bytes).map(|_| ()).unwrap_err();
        assert_eq!(same.to_string(), message);
    }
}

#[test]
fn a_field_with_another_wire_type_is_one_that_the_message_does_not_know() {
    // the entity with its four bytes, and the authority name as an integer
    let bytes = [0x15, 1, 0, 0, 0, 0x08, 0x01];
    let message = UUriProto::decode(&bytes, ReadLimits::payload()).unwrap();
    assert_eq!(message.ue_id, 0);
    assert_eq!(message.authority_name, "");
}

#[test]
fn integers_have_exact_limits() {
    let entity = |bytes: &[u8]| {
        let mut field = vec![0x10];
        field.extend(bytes);
        UUriProto::decode(&field, ReadLimits::payload()).map(|message| message.ue_id)
    };
    assert_eq!(entity(&[0x00]), Ok(0));
    assert_eq!(entity(&[0x7f]), Ok(127));
    assert_eq!(entity(&[0x80, 0x01]), Ok(128));
    assert_eq!(entity(&[0x81, 0x80, 0x00]), Ok(1));
    assert_eq!(entity(&[0xff, 0xff, 0xff, 0xff, 0x0f]), Ok(u32::MAX));
    assert_eq!(entity(&[0xff, 0xff, 0xff, 0xff, 0x10]), Err(error("Incorrect varint")));
    assert_eq!(entity(&[0x80, 0x80, 0x80, 0x80, 0x80, 0x00]), Err(error("Incorrect varint")));
    assert_eq!(entity(&[0xff, 0xff]), Err(error("Unexpected EOF")));
    let status = |bytes: &[u8]| {
        let mut field = vec![0x10];
        field.extend(bytes);
        SubscribeResponseProto::decode(&field, ReadLimits::payload()).map(|message| message.status)
    };
    let minus_one = [0xff, 0xff, 0xff, 0xff, 0xff, 0xff, 0xff, 0xff, 0xff, 0x01];
    let too_large = [0xff, 0xff, 0xff, 0xff, 0xff, 0xff, 0xff, 0xff, 0xff, 0x02];
    assert_eq!(status(&minus_one), Ok(-1));
    assert_eq!(status(&too_large), Err(error("Incorrect varint")));
    assert_eq!(status(&[0xff, 0xff, 0xff, 0xff, 0x07]), Ok(i32::MAX));
    assert_eq!(
        status(&[0x80, 0x80, 0x80, 0x80, 0x08]),
        Err(error("Value too large for i32: 2147483648"))
    );
}

#[test]
fn text_has_to_be_valid() {
    let name = |bytes: &[u8]| {
        UUriProto::decode(bytes, ReadLimits::payload()).map(|message| message.authority_name)
    };
    assert_eq!(name(&[0x0a, 0x00]), Ok(String::new()));
    assert_eq!(name(&[0x0a, 0x02, 0xc3, 0xa4]), Ok("\u{e4}".to_string()));
    assert_eq!(name(&[0x0a, 0x01, 0xc3]), Err(error("Invalid UTF-8 sequence")));
    assert_eq!(name(&[0x0a, 0x03, 0x61, 0x62]), Err(error("Unexpected EOF")));
    assert_eq!(name(&[0x0a, 0xff, 0xff, 0xff, 0xff, 0x0f]), Err(error("Truncated message")));
}

#[test]
fn authority_names_have_exact_limits() {
    for name in ["", "*", "a", "my-vehicle", "192.168.0.1", "a_b~c", &"z".repeat(128)] {
        let uri = UUri::try_from_parts(name, 1, 2, 3).unwrap();
        assert_eq!(uri.authority_name(), name);
        assert_eq!(UUri::try_from(&UUriProto::from(&uri)), Ok(uri.clone()));
        assert_eq!(uri.clone(), uri);
    }
    for name in ["**", "A", "a b", "a/b", "\u{e4}", &"z".repeat(129)] {
        assert_eq!(UUri::try_from_parts(name, 1, 2, 3), Err(UUriError::AuthorityName));
    }
}

#[test]
fn addresses_are_made_of_their_messages() {
    let address = UUri::try_from(&uri()).unwrap();
    assert_eq!(address.authority_name(), "my-vehicle");
    assert_eq!(address.ue_id(), 0x0102_800a);
    assert_eq!(address.ue_version_major(), 0xff);
    assert_eq!(address.resource_id(), 0x8001);
    assert_eq!(UUriProto::from(&address), uri());
    let error = UUri::try_from(&UUriProto { ue_version_major: 0x100, ..uri() }).unwrap_err();
    assert_eq!(error, UUriError::EntityVersion);
    assert_eq!(error.message(), "uEntity version out of range");
    let error = UUri::try_from(&UUriProto { resource_id: 0x1_0000, ..uri() }).unwrap_err();
    assert_eq!(error, UUriError::ResourceId);
    assert_eq!(error.message(), "resource ID out of range");
    let error = UUri::try_from(&UUriProto { authority_name: "?".to_string(), ..uri() });
    assert_eq!(error, Err(UUriError::AuthorityName));
    assert_eq!(UUriError::AuthorityName.message(), "invalid authority name");
}
