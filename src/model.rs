use vstd::prelude::*;

verus! {

/// The collection of a channel's messages.
pub const MESSAGES_COLLECTION: &'static str = "messages";

/// The collection of a channel's subscriptions.
pub const SUBSCRIPTIONS_COLLECTION: &'static str = "subscriptions";

/// The top-level collection of channels.
pub const CHANNELS_COLLECTION: &'static str = "channels";

/// A point in time, as seconds since the Unix epoch (UTC) and nanoseconds
/// past that second (beyond a billion only within a leap second).
#[derive(Clone, Copy, PartialEq, Eq, Debug)]
pub struct Timestamp {
    pub seconds: i64,
    pub nanos: u32,
}

/// One recipient device: its push endpoint and the keys that its messages are
/// encrypted for.
#[derive(Clone, Debug)]
pub struct Subscription {
    pub endpoint: String,
    pub auth: String,
    pub p256dh: String,
}

impl Subscription {
    /// The two subscriptions hold the same endpoint and keys.
    pub open spec fn same_as(self, other: Subscription) -> bool {
        &&& self.endpoint@ == other.endpoint@
        &&& self.auth@ == other.auth@
        &&& self.p256dh@ == other.p256dh@
    }

    /// A copy of the subscription.
    pub fn duplicate(&self) -> (r: Subscription)
        ensures
            r.same_as(*self),
    {
        Subscription {
            endpoint: self.endpoint.clone(),
            auth: self.auth.clone(),
            p256dh: self.p256dh.clone(),
        }
    }
}

/// The two lists hold the same subscriptions in the same order.
pub open spec fn same_subscriptions(a: Seq<Subscription>, b: Seq<Subscription>) -> bool {
    &&& a.len() == b.len()
    &&& forall|i: int| 0 <= i < a.len() ==> (#[trigger] a[i]).same_as(b[i])
}

/// A copy of a list of subscriptions.
pub fn duplicate_subscriptions(subscriptions: &Vec<Subscription>) -> (r: Vec<Subscription>)
    ensures
        same_subscriptions(r@, subscriptions@),
{
    let mut copies: Vec<Subscription> = Vec::new();
    let mut i: usize = 0;
    while i < subscriptions.len()
        invariant
            i <= subscriptions.len(),
            copies.len() == i,
            forall|j: int| 0 <= j < i ==> (#[trigger] copies@[j]).same_as(subscriptions@[j]),
        decreases subscriptions.len() - i,
    {
        copies.push(subscriptions[i].duplicate());
        i = i + 1;
    }
    copies
}

/// A broadcast group, as it is recorded when it is registered.
#[derive(Clone, Debug)]
pub struct Channel {
    pub created: Timestamp,
    pub created_agent: String,
    pub created_ip: String,
}

/// How the delivery of one message to one subscriber went.
#[derive(Clone, Debug)]
pub struct MessageResult {
    pub endpoint_domain: String,
    pub result_status: String,
}

/// A message that was sent to a channel, with one result per subscriber that
/// it was delivered to.
#[derive(Clone, Debug)]
pub struct Message {
    pub message: String,
    pub sender_ip: String,
    pub message_time: Timestamp,
    pub result: Vec<MessageResult>,
}

} // verus!
