//! The uSubscription service: its address, its operations and what it knows of subscriptions.

use crate::communication::SubscriptionStatus;
use crate::uri::{UUri, Uri};
use vstd::prelude::*;

verus! {

/// The identifier of the uSubscription service.
pub const USUBSCRIPTION_TYPE_ID: u32 = 0x0000_0000;

/// The major version of the uSubscription service.
pub const USUBSCRIPTION_VERSION_MAJOR: u8 = 0x03;

/// The resource identifier of the operation to subscribe.
pub const RESOURCE_ID_SUBSCRIBE: u16 = 0x0001;

/// The resource identifier of the operation to unsubscribe.
pub const RESOURCE_ID_UNSUBSCRIBE: u16 = 0x0002;

/// The resource identifier of the operation to fetch subscriptions.
pub const RESOURCE_ID_FETCH_SUBSCRIPTIONS: u16 = 0x0003;

/// The resource identifier of the operation to register for notifications.
pub const RESOURCE_ID_REGISTER_FOR_NOTIFICATIONS: u16 = 0x0006;

/// The resource identifier of the operation to unregister for notifications.
pub const RESOURCE_ID_UNREGISTER_FOR_NOTIFICATIONS: u16 = 0x0007;

/// The resource identifier of the operation to reset the service.
pub const RESOURCE_ID_RESET: u16 = 0x0009;

/// The address of an operation of the local uSubscription service.
pub open spec fn operation_uri(resource_id: u16) -> Uri {
    Uri {
        authority_name: seq![],
        ue_id: USUBSCRIPTION_TYPE_ID,
        ue_version_major: USUBSCRIPTION_VERSION_MAJOR,
        resource_id,
    }
}

/// Returns the address of an operation of the local uSubscription service.
pub fn usubscription_uri(resource_id: u16) -> (r: UUri)
    ensures
        r@ == operation_uri(resource_id),
{
    proof {
        reveal_strlit("");
    }
    let uri = UUri::try_from_parts(
        "",
        USUBSCRIPTION_TYPE_ID,
        USUBSCRIPTION_VERSION_MAJOR,
        resource_id,
    ).unwrap();
    assert(uri@.authority_name =~= seq![]);
    uri
}

/// What is known of a subscription.
pub struct Subscription {
    pub topic: Uri,
    pub subscriber: Uri,
    pub status: SubscriptionStatus,
    pub expiration: Option<u64>,
    pub sample_period: Option<u32>,
}

/// A subscription of an entity to a topic.
#[derive(Clone, Debug, PartialEq, Eq)]
pub struct SubscriptionInfo {
    /// The topic that is subscribed to.
    pub topic: UUri,
    /// The entity that is subscribed.
    pub subscriber: UUri,
    /// Whether the entity is subscribed yet.
    pub status: SubscriptionStatus,
    /// When the subscription expires, in milliseconds since the Unix epoch.
    pub expiration: Option<u64>,
    /// The least number of milliseconds between two events.
    pub sample_period: Option<u32>,
}

impl View for SubscriptionInfo {
    type V = Subscription;

    open spec fn view(&self) -> Subscription {
        Subscription {
            topic: self.topic@,
            subscriber: self.subscriber@,
            status: self.status,
            expiration: self.expiration,
            sample_period: self.sample_period,
        }
    }
}

impl SubscriptionInfo {
    /// Puts together what is known of a subscription.
    pub fn new(
        topic: UUri,
        subscriber: UUri,
        status: SubscriptionStatus,
        expiration: Option<u64>,
        sample_period: Option<u32>,
    ) -> (r: SubscriptionInfo)
        ensures
            r@ == (Subscription {
                topic: topic@,
                subscriber: subscriber@,
                status,
                expiration,
                sample_period,
            }),
    {
        SubscriptionInfo { topic, subscriber, status, expiration, sample_period }
    }
}

} // verus!
