use vstd::prelude::*;

use crate::api::{channel_info, channel_info_is, ApiError, ChannelInfo};
use crate::config::{ServiceConfig, DELIVERY_TIMEOUT_SECS, MESSAGE_PAGE_SIZE};
use crate::delivery::{build_message, message_is, DeliveryOutcome};
use crate::model::{
    duplicate_subscriptions, same_subscriptions, Channel, Message, Subscription, Timestamp,
};
use crate::payload::{form_pairs_of, message_and_action, payload_is, MessagePayload};

verus! {

/// What a request that went through answers.
#[derive(Debug)]
pub enum Reply {
    /// The info of a channel.
    Channel(ChannelInfo),
    /// The message was delivered to the channel's subscribers, as far as they
    /// could be reached, and recorded.
    Sent,
    /// The subscription was recorded.
    Subscribed,
}

/// The work that a flow hands out next: a call into the store, the fan-out of
/// a message, or the answer to the request.
#[derive(Debug)]
pub enum Action {
    /// Look up whether the channel exists.
    GetChannel { channel_id: String },
    /// Record a new channel under a fresh id of the store's choice.
    CreateChannel { channel: Channel },
    /// List up to `page_size` of the channel's messages, newest first.
    ListMessages { channel_id: String, page_size: usize },
    /// Record the subscription under its id, unless that id is taken.
    CreateSubscription { channel_id: String, subscription_id: String, subscription: Subscription },
    /// List one page of up to `page_size` of the channel's subscriptions.
    ListSubscriptions { channel_id: String, page_size: usize },
    /// Push the payload to every subscription at once, each delivery bounded
    /// by the timeout; report one outcome per subscription, in their order.
    Deliver { payload: MessagePayload, subscriptions: Vec<Subscription>, timeout_secs: u64 },
    /// Append the message to the channel's messages.
    CreateMessage { channel_id: String, message: Message },
    /// Answer the request; the flow is over.
    Reply(Result<Reply, ApiError>),
}

/// What came of the work that a flow handed out.
#[derive(Debug)]
pub enum Event {
    /// The store failed.
    StoreFailed,
    ChannelFound,
    ChannelMissing,
    /// The channel was recorded under this id.
    ChannelCreated(String),
    MessagesListed(Vec<Message>),
    /// Whether the subscription was recorded: `false` where its id was taken.
    SubscriptionCreated(bool),
    SubscriptionsListed(Vec<Subscription>),
    /// The deliveries resolved, at the given time.
    Delivered { outcomes: Vec<DeliveryOutcome>, time: Timestamp },
    MessageCreated,
}

/// Where a request stands.
#[derive(Debug)]
pub enum Flow {
    /// Waiting for a new channel to be recorded.
    Registering,
    /// Waiting to learn whether the channel whose info is asked for exists.
    CheckingForInfo { channel_id: String },
    /// Waiting for the channel's latest messages.
    ListingMessages { channel_id: String },
    /// Waiting to learn whether the channel to subscribe to exists.
    CheckingForSubscribe { channel_id: String, subscription_id: String, subscription: Subscription },
    /// Waiting for the subscription to be recorded.
    CreatingSubscription,
    /// Waiting to learn whether the channel to send to exists.
    CheckingForSend { channel_id: String, raw: String, sender_ip: String },
    /// Waiting for the page of subscriptions to deliver to.
    ListingSubscriptions { channel_id: String, text: String, payload: MessagePayload, sender_ip: String },
    /// Waiting for every delivery to resolve.
    Delivering { channel_id: String, text: String, sender_ip: String, subscriptions: Vec<Subscription> },
    /// Waiting for the message to be recorded.
    StoringMessage,
    /// The request was answered.
    Done,
}

pub open spec fn fail(e: ApiError) -> Action {
    Action::Reply(Err(e))
}

/// The flow ends with an internal error.
pub open spec fn ends_internal(next: Flow, action: Action) -> bool {
    next is Done && action == fail(ApiError::Internal)
}

/// The subscriptions that one page holds.
pub open spec fn first_page(listed: Seq<Subscription>, page_size: usize) -> Seq<Subscription> {
    if listed.len() <= page_size {
        listed
    } else {
        listed.subrange(0, page_size as int)
    }
}

/// The text and the action of the payload that a raw message to a channel
/// makes: the action defaults to the channel's page.
pub open spec fn send_fields(config: ServiceConfig, channel_id: Seq<char>, raw: Seq<char>) -> (Seq<char>, Seq<char>) {
    message_and_action(raw, form_pairs_of(raw), config.channel_page_url_spec(channel_id))
}

/// The flow waits to learn whether the channel exists, on behalf of a request
/// for its info, a subscription to it or a message to it.
pub open spec fn checks_channel(flow: Flow, channel_id: Seq<char>) -> bool {
    match flow {
        Flow::CheckingForInfo { channel_id: c } => c@ == channel_id,
        Flow::CheckingForSubscribe { channel_id: c, .. } => c@ == channel_id,
        Flow::CheckingForSend { channel_id: c, .. } => c@ == channel_id,
        _ => false,
    }
}

/// One step of a flow: from where it stands and what came of its last work,
/// where it stands next and the work it hands out.
pub open spec fn steps_to(flow: Flow, config: ServiceConfig, event: Event, next: Flow, action: Action) -> bool {
    if event is StoreFailed {
        ends_internal(next, action)
    } else {
        match flow {
            Flow::Registering => match event {
                Event::ChannelCreated(id) => next is Done && (action matches Action::Reply(
                    Ok(Reply::Channel(info)),
                ) && channel_info_is(info, config, id@, Seq::empty())),
                _ => ends_internal(next, action),
            },
            Flow::CheckingForInfo { channel_id } => match event {
                Event::ChannelFound => (next matches Flow::ListingMessages { channel_id: c }
                    && c@ == channel_id@) && (action matches Action::ListMessages {
                    channel_id: c,
                    page_size,
                } && c@ == channel_id@ && page_size == MESSAGE_PAGE_SIZE),
                Event::ChannelMissing => next is Done && action == fail(ApiError::NotFound),
                _ => ends_internal(next, action),
            },
            Flow::ListingMessages { channel_id } => match event {
                Event::MessagesListed(messages) => next is Done && (action matches Action::Reply(
                    Ok(Reply::Channel(info)),
                ) && channel_info_is(info, config, channel_id@, messages@)),
                _ => ends_internal(next, action),
            },
            Flow::CheckingForSubscribe { channel_id, subscription_id, subscription } => match event {
                Event::ChannelFound => next is CreatingSubscription && (action matches Action::CreateSubscription {
                    channel_id: c,
                    subscription_id: s,
                    subscription: sub,
                } && c@ == channel_id@ && s@ == subscription_id@ && sub == subscription),
                Event::ChannelMissing => next is Done && action == fail(ApiError::NotFound),
                _ => ends_internal(next, action),
            },
            Flow::CreatingSubscription => match event {
                Event::SubscriptionCreated(created) => next is Done && if created {
                    action == Action::Reply(Ok(Reply::Subscribed))
                } else {
                    action == fail(ApiError::Conflict)
                },
                _ => ends_internal(next, action),
            },
            Flow::CheckingForSend { channel_id, raw, sender_ip } => match event {
                Event::ChannelFound => (next matches Flow::ListingSubscriptions {
                    channel_id: c,
                    text,
                    payload,
                    sender_ip: ip,
                } && c@ == channel_id@ && ip@ == sender_ip@ && text@ == payload.message@
                    && payload_is(
                    payload,
                    send_fields(config, channel_id@, raw@).0,
                    channel_id@,
                    send_fields(config, channel_id@, raw@).1,
                )) && (action matches Action::ListSubscriptions { channel_id: c, page_size }
                    && c@ == channel_id@ && page_size == config.subscriber_page_size),
                Event::ChannelMissing => next is Done && action == fail(ApiError::NotFound),
                _ => ends_internal(next, action),
            },
            Flow::ListingSubscriptions { channel_id, text, payload, sender_ip } => match event {
                Event::SubscriptionsListed(listed) => (next matches Flow::Delivering {
                    channel_id: c,
                    text: t,
                    sender_ip: ip,
                    subscriptions,
                } && c@ == channel_id@ && t@ == text@ && ip@ == sender_ip@ && subscriptions@
                    == first_page(listed@, config.subscriber_page_size)) && (action matches Action::Deliver {
                    payload: p,
                    subscriptions: copies,
                    timeout_secs,
                } && p == payload && same_subscriptions(
                    copies@,
                    first_page(listed@, config.subscriber_page_size),
                ) && timeout_secs == DELIVERY_TIMEOUT_SECS),
                _ => ends_internal(next, action),
            },
            Flow::Delivering { channel_id, text, sender_ip, subscriptions } => match event {
                Event::Delivered { outcomes, time } => if outcomes.len() == subscriptions.len() {
                    next is StoringMessage && (action matches Action::CreateMessage {
                        channel_id: c,
                        message,
                    } && c@ == channel_id@ && message_is(
                        message,
                        text@,
                        sender_ip@,
                        time,
                        subscriptions@,
                        outcomes@,
                    ))
                } else {
                    ends_internal(next, action)
                },
                _ => ends_internal(next, action),
            },
            Flow::StoringMessage => match event {
                Event::MessageCreated => next is Done && action == Action::Reply(Ok(Reply::Sent)),
                _ => ends_internal(next, action),
            },
            Flow::Done => ends_internal(next, action),
        }
    }
}


impl Flow {
    /// Starts registering a channel, created now by the given client.
    pub fn register_channel(created_agent: &str, created_ip: &str, time: Timestamp) -> (r: (Flow, Action))
        ensures
            r.0 is Registering,
            r.1 matches Action::CreateChannel { channel } && channel.created == time
                && channel.created_agent@ == created_agent@ && channel.created_ip@ == created_ip@,
    {
        let channel = Channel {
            created: time,
            created_agent: String::from_str(created_agent),
            created_ip: String::from_str(created_ip),
        };
        (Flow::Registering, Action::CreateChannel { channel })
    }

    /// Starts answering for a channel's info.
    pub fn info(channel_id: &str) -> (r: (Flow, Action))
        ensures
            r.0 matches Flow::CheckingForInfo { channel_id: c } && c@ == channel_id@,
            checks_channel(r.0, channel_id@),
            r.1 matches Action::GetChannel { channel_id: c } && c@ == channel_id@,
    {
        (
            Flow::CheckingForInfo { channel_id: String::from_str(channel_id) },
            Action::GetChannel { channel_id: String::from_str(channel_id) },
        )
    }

    /// Starts subscribing a device to a channel under the given id.
    pub fn subscribe(channel_id: &str, subscription_id: &str, subscription: Subscription) -> (r: (Flow, Action))
        ensures
            r.0 matches Flow::CheckingForSubscribe { channel_id: c, subscription_id: s, subscription: sub }
                && c@ == channel_id@ && s@ == subscription_id@ && sub == subscription,
            checks_channel(r.0, channel_id@),
            r.1 matches Action::GetChannel { channel_id: c } && c@ == channel_id@,
    {
        (
            Flow::CheckingForSubscribe {
                channel_id: String::from_str(channel_id),
                subscription_id: String::from_str(subscription_id),
                subscription,
            },
            Action::GetChannel { channel_id: String::from_str(channel_id) },
        )
    }

    /// Starts sending a raw message to a channel.
    pub fn send(channel_id: &str, raw: &str, sender_ip: &str) -> (r: (Flow, Action))
        ensures
            r.0 matches Flow::CheckingForSend { channel_id: c, raw: m, sender_ip: ip } && c@
                == channel_id@ && m@ == raw@ && ip@ == sender_ip@,
            checks_channel(r.0, channel_id@),
            r.1 matches Action::GetChannel { channel_id: c } && c@ == channel_id@,
    {
        (
            Flow::CheckingForSend {
                channel_id: String::from_str(channel_id),
                raw: String::from_str(raw),
                sender_ip: String::from_str(sender_ip),
            },
            Action::GetChannel { channel_id: String::from_str(channel_id) },
        )
    }

    /// Whether the request was answered.
    pub fn is_done(&self) -> (r: bool)
        ensures
            r == (*self is Done),
    {
        match self {
            Flow::Done => true,
            _ => false,
        }
    }

    /// Takes one step: from where the flow stands and what came of its last
    /// work, where it stands next and the work it hands out.
    pub fn step(self, config: &ServiceConfig, event: Event) -> (r: (Flow, Action))
        ensures
            steps_to(self, *config, event, r.0, r.1),
    {
        let internal = (Flow::Done, Action::Reply(Err(ApiError::Internal)));
        if let Event::StoreFailed = &event {
            return internal;
        }
        match self {
            Flow::Registering => match event {
                Event::ChannelCreated(id) => {
                    let info = channel_info(config, id.as_str(), Vec::new());
                    (Flow::Done, Action::Reply(Ok(Reply::Channel(info))))
                },
                _ => internal,
            },
            Flow::CheckingForInfo { channel_id } => match event {
                Event::ChannelFound => {
                    let page = Action::ListMessages {
                        channel_id: channel_id.clone(),
                        page_size: MESSAGE_PAGE_SIZE,
                    };
                    (Flow::ListingMessages { channel_id }, page)
                },
                Event::ChannelMissing => (Flow::Done, Action::Reply(Err(ApiError::NotFound))),
                _ => internal,
            },
            Flow::ListingMessages { channel_id } => match event {
                Event::MessagesListed(messages) => {
                    let info = channel_info(config, channel_id.as_str(), messages);
                    (Flow::Done, Action::Reply(Ok(Reply::Channel(info))))
                },
                _ => internal,
            },
            Flow::CheckingForSubscribe { channel_id, subscription_id, subscription } => match event {
                Event::ChannelFound => (
                    Flow::CreatingSubscription,
                    Action::CreateSubscription { channel_id, subscription_id, subscription },
                ),
                Event::ChannelMissing => (Flow::Done, Action::Reply(Err(ApiError::NotFound))),
                _ => internal,
            },
            Flow::CreatingSubscription => match event {
                Event::SubscriptionCreated(created) => {
                    if created {
                        (Flow::Done, Action::Reply(Ok(Reply::Subscribed)))
                    } else {
                        (Flow::Done, Action::Reply(Err(ApiError::Conflict)))
                    }
                },
                _ => internal,
            },
            Flow::CheckingForSend { channel_id, raw, sender_ip } => match event {
                Event::ChannelFound => {
                    let page_url = config.channel_page_url(channel_id.as_str());
                    let payload = MessagePayload::parse_new(
                        raw.as_str(),
                        channel_id.as_str(),
                        page_url.as_str(),
                    );
                    let text = payload.message.clone();
                    let page = Action::ListSubscriptions {
                        channel_id: channel_id.clone(),
                        page_size: config.subscriber_page_size,
                    };
                    (Flow::ListingSubscriptions { channel_id, text, payload, sender_ip }, page)
                },
                Event::ChannelMissing => (Flow::Done, Action::Reply(Err(ApiError::NotFound))),
                _ => internal,
            },
            Flow::ListingSubscriptions { channel_id, text, payload, sender_ip } => match event {
                Event::SubscriptionsListed(listed) => {
                    let ghost all = listed@;
                    let mut subscriptions = listed;
                    subscriptions.truncate(config.subscriber_page_size);
                    assert(subscriptions@ =~= first_page(all, config.subscriber_page_size));
                    let copies = duplicate_subscriptions(&subscriptions);
                    (
                        Flow::Delivering { channel_id, text, sender_ip, subscriptions },
                        Action::Deliver {
                            payload,
                            subscriptions: copies,
                            timeout_secs: DELIVERY_TIMEOUT_SECS,
                        },
                    )
                },
                _ => internal,
            },
            Flow::Delivering { channel_id, text, sender_ip, subscriptions } => match event {
                Event::Delivered { outcomes, time } => {
                    if outcomes.len() == subscriptions.len() {
                        let message = build_message(
                            text.as_str(),
                            sender_ip.as_str(),
                            time,
                            &subscriptions,
                            &outcomes,
                        );
                        (Flow::StoringMessage, Action::CreateMessage { channel_id, message })
                    } else {
                        internal
                    }
                },
                _ => internal,
            },
            Flow::StoringMessage => match event {
                Event::MessageCreated => (Flow::Done, Action::Reply(Ok(Reply::Sent))),
                _ => internal,
            },
            Flow::Done => internal,
        }
    }
}


/// A request for the info of, a subscription to, or a message to a channel
/// that the store does not hold ends in `NotFound`, with nothing recorded.
pub proof fn lemma_unknown_channel_not_found(
    flow: Flow,
    config: ServiceConfig,
    channel_id: Seq<char>,
    next: Flow,
    action: Action,
)
    requires
        checks_channel(flow, channel_id),
        steps_to(flow, config, Event::ChannelMissing, next, action),
    ensures
        next is Done,
        action == fail(ApiError::NotFound),
{
}

/// Once the deliveries of a message to K subscriptions resolve, the message
/// that is recorded holds exactly K results, one for each of them.
pub proof fn lemma_send_records_one_result_per_subscription(
    flow: Flow,
    config: ServiceConfig,
    outcomes: Vec<DeliveryOutcome>,
    time: Timestamp,
    next: Flow,
    action: Action,
)
    requires
        flow is Delivering,
        outcomes.len() == flow->Delivering_subscriptions.len(),
        steps_to(flow, config, Event::Delivered { outcomes, time }, next, action),
    ensures
        action matches Action::CreateMessage { message, .. } && message.result.len()
            == flow->Delivering_subscriptions.len(),
{
}

/// A subscription is handed to the store under the id it was requested with,
/// as it was requested; where the store reports that id taken, the request
/// ends in `Conflict` and nothing is overwritten.
pub proof fn lemma_subscription_kept_under_its_id(
    flow: Flow,
    config: ServiceConfig,
    next: Flow,
    action: Action,
    after: Flow,
    answer: Action,
)
    requires
        flow is CheckingForSubscribe,
        steps_to(flow, config, Event::ChannelFound, next, action),
        steps_to(next, config, Event::SubscriptionCreated(false), after, answer),
    ensures
        action matches Action::CreateSubscription { channel_id, subscription_id, subscription }
            && channel_id@ == flow->CheckingForSubscribe_channel_id@ && subscription_id@
            == flow->CheckingForSubscribe_subscription_id@ && subscription
            == flow->CheckingForSubscribe_subscription,
        after is Done,
        answer == fail(ApiError::Conflict),
{
}

} // verus!
