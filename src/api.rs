use vstd::prelude::*;

use crate::config::ServiceConfig;
use crate::model::{Message, MessageResult, Timestamp};

verus! {

/// The errors that a request can end in. A failed delivery is none of them:
/// it is recorded as data of the message.
#[derive(Clone, Copy, PartialEq, Eq, Structural, Debug)]
pub enum ApiError {
    /// The channel does not exist.
    NotFound,
    /// The client spent its quota of requests.
    RateLimited,
    /// A subscription with the requested id already exists in the channel.
    Conflict,
    /// The store failed, or the request went another way than it can.
    Internal,
}

pub open spec fn status_code_of(e: ApiError) -> u16 {
    match e {
        ApiError::NotFound => 404,
        ApiError::RateLimited => 429,
        ApiError::Conflict => 409,
        ApiError::Internal => 500,
    }
}

impl ApiError {
    /// The HTTP status that the error is answered with.
    pub fn status_code(&self) -> (r: u16)
        ensures
            r == status_code_of(*self),
    {
        match self {
            ApiError::NotFound => 404,
            ApiError::RateLimited => 429,
            ApiError::Conflict => 409,
            ApiError::Internal => 500,
        }
    }
}

/// One message as a channel's info lists it.
#[derive(Debug)]
pub struct MessageInfo {
    pub message: String,
    pub result: Vec<MessageResult>,
    pub time: Timestamp,
}

/// What a client learns of a channel: its id, its latest messages and the
/// addresses and key that it is used with.
#[derive(Debug)]
pub struct ChannelInfo {
    pub channel_id: String,
    pub messages: Vec<MessageInfo>,
    pub time: String,
    pub pub_key: String,
    pub endpoint: String,
    pub channel_page: String,
}

/// The listed message is the stored one.
pub open spec fn message_info_is(info: MessageInfo, m: Message) -> bool {
    &&& info.message@ == m.message@
    &&& info.result == m.result
    &&& info.time == m.message_time
}

/// The info of a channel with the given id and messages.
pub open spec fn channel_info_is(
    info: ChannelInfo,
    config: ServiceConfig,
    channel_id: Seq<char>,
    messages: Seq<Message>,
) -> bool {
    &&& info.channel_id@ == channel_id
    &&& info.time@ == Seq::<char>::empty()
    &&& info.pub_key@ == config.vapid_pubkey@
    &&& info.endpoint@ == config.endpoint_url_spec(channel_id)
    &&& info.channel_page@ == config.channel_page_url_spec(channel_id)
    &&& info.messages.len() == messages.len()
    &&& forall|i: int|
        0 <= i < messages.len() ==> message_info_is(#[trigger] info.messages@[i], messages[i])
}

/// The info of a channel, with the messages listed for it.
pub fn channel_info(config: &ServiceConfig, channel_id: &str, messages: Vec<Message>) -> (r: ChannelInfo)
    ensures
        channel_info_is(r, *config, channel_id@, messages@),
{
    let ghost listed = messages@;
    assert(listed.len() == messages.len());
    let mut infos: Vec<MessageInfo> = Vec::new();
    let mut rest = messages;
    let mut k: usize = 0;
    while rest.len() > 0
        invariant
            k + rest.len() == listed.len(),
            listed.len() <= usize::MAX,
            rest@ == listed.subrange(k as int, listed.len() as int),
            infos.len() == k,
            forall|i: int| 0 <= i < k ==> message_info_is(#[trigger] infos@[i], listed[i]),
        decreases rest.len(),
    {
        let m = rest.remove(0);
        proof {
            assert(m == listed[k as int]);
            assert(rest@ =~= listed.subrange(k + 1, listed.len() as int));
        }
        infos.push(MessageInfo { message: m.message, result: m.result, time: m.message_time });
        k = k + 1;
    }
    ChannelInfo {
        channel_id: String::from_str(channel_id),
        messages: infos,
        time: String::new(),
        pub_key: config.vapid_pubkey.clone(),
        endpoint: config.endpoint_url(channel_id),
        channel_page: config.channel_page_url(channel_id),
    }
}

} // verus!
