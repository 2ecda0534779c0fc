use vstd::prelude::*;

use crate::model::{Message, MessageResult, Subscription, Timestamp};

verus! {

/// What became of one delivery attempt.
#[derive(Clone, Debug)]
pub enum DeliveryOutcome {
    /// The push service accepted the message.
    Delivered,
    /// The push service or the transport reported an error, given as text.
    Failed(String),
    /// No answer came within the delivery timeout.
    TimedOut,
}

pub open spec fn delivered_status() -> Seq<char> {
    seq!['2', '0', '1']
}

pub open spec fn timed_out_status() -> Seq<char> {
    seq!['T', 'i', 'm', 'e', 'd', ' ', 'o', 'u', 't', '.']
}

/// The status that is recorded for an outcome.
pub open spec fn status_text(outcome: DeliveryOutcome) -> Seq<char> {
    match outcome {
        DeliveryOutcome::Delivered => delivered_status(),
        DeliveryOutcome::Failed(error) => error@,
        DeliveryOutcome::TimedOut => timed_out_status(),
    }
}

/// The authority (host and port) of a URI, or `None` where the text is not a
/// URI or has no authority.
pub uninterp spec fn authority_of(uri: Seq<char>) -> Option<Seq<char>>;

/// Relies on `http::Uri::from_str` and `Uri::authority`: whether the text
/// parses as a URI with an authority, and that authority's text, depend on
/// the text alone.
#[verifier::external_body]
fn uri_authority(uri: &str) -> (r: Option<String>)
    ensures
        match r {
            Some(a) => authority_of(uri@) == Some(a@),
            None => authority_of(uri@) is None,
        },
{
    match uri.parse::<axum::http::Uri>() {
        Ok(parsed) => parsed.authority().map(|a| a.as_str().to_string()),
        Err(_) => None,
    }
}

/// The domain that a result records for an endpoint: its authority, or the
/// empty text where it has none.
pub open spec fn domain_of(authority: Option<Seq<char>>) -> Seq<char> {
    match authority {
        Some(a) => a,
        None => Seq::empty(),
    }
}

/// The result recorded for a subscriber whose endpoint has the given authority.
pub open spec fn result_is(r: MessageResult, authority: Option<Seq<char>>, outcome: DeliveryOutcome) -> bool {
    &&& r.endpoint_domain@ == domain_of(authority)
    &&& r.result_status@ == status_text(outcome)
}

/// The status text of an outcome.
pub fn status_of(outcome: &DeliveryOutcome) -> (r: String)
    ensures
        r@ == status_text(*outcome),
{
    match outcome {
        DeliveryOutcome::Delivered => {
            let s = String::from_str("201");
            proof {
                reveal_strlit("201");
                assert(s@ =~= delivered_status());
            }
            s
        },
        DeliveryOutcome::Failed(error) => error.clone(),
        DeliveryOutcome::TimedOut => {
            let s = String::from_str("Timed out.");
            proof {
                reveal_strlit("Timed out.");
                assert(s@ =~= timed_out_status());
            }
            s
        },
    }
}

impl MessageResult {
    /// The result for a subscriber, given the authority of its endpoint.
    pub fn from_outcome(authority: Option<String>, outcome: &DeliveryOutcome) -> (r: MessageResult)
        ensures
            result_is(r, authority.deep_view(), *outcome),
    {
        let endpoint_domain = match authority {
            Some(a) => a,
            None => String::new(),
        };
        MessageResult { endpoint_domain, result_status: status_of(outcome) }
    }
}

/// The result recorded for a subscription: the domain of its endpoint and the
/// status of the delivery to it.
pub fn delivery_result(subscription: &Subscription, outcome: &DeliveryOutcome) -> (r: MessageResult)
    ensures
        result_is(r, authority_of(subscription.endpoint@), *outcome),
{
    let authority = uri_authority(subscription.endpoint.as_str());
    MessageResult::from_outcome(authority, outcome)
}

/// Each result belongs to the subscription and the outcome at its own index.
pub open spec fn results_match(
    subscriptions: Seq<Subscription>,
    outcomes: Seq<DeliveryOutcome>,
    results: Seq<MessageResult>,
) -> bool {
    &&& results.len() == subscriptions.len()
    &&& results.len() == outcomes.len()
    &&& forall|i: int|
        0 <= i < results.len() ==> #[trigger] result_is(
            results[i],
            authority_of(subscriptions[i].endpoint@),
            outcomes[i],
        )
}

/// The results of a fan-out, one per subscription, in the order of the
/// subscriptions.
pub fn delivery_results(subscriptions: &Vec<Subscription>, outcomes: &Vec<DeliveryOutcome>) -> (r: Vec<MessageResult>)
    requires
        subscriptions.len() == outcomes.len(),
    ensures
        results_match(subscriptions@, outcomes@, r@),
{
    let mut results: Vec<MessageResult> = Vec::new();
    let mut i: usize = 0;
    while i < subscriptions.len()
        invariant
            i <= subscriptions.len(),
            subscriptions.len() == outcomes.len(),
            results.len() == i,
            forall|j: int|
                0 <= j < i ==> #[trigger] result_is(
                    results@[j],
                    authority_of(subscriptions@[j].endpoint@),
                    outcomes@[j],
                ),
        decreases subscriptions.len() - i,
    {
        let result = delivery_result(&subscriptions[i], &outcomes[i]);
        results.push(result);
        i = i + 1;
    }
    results
}

/// The message record holds the text, the sender, the time and the results.
pub open spec fn message_is(
    m: Message,
    text: Seq<char>,
    sender_ip: Seq<char>,
    time: Timestamp,
    subscriptions: Seq<Subscription>,
    outcomes: Seq<DeliveryOutcome>,
) -> bool {
    &&& m.message@ == text
    &&& m.sender_ip@ == sender_ip
    &&& m.message_time == time
    &&& results_match(subscriptions, outcomes, m.result@)
}

/// The record of a message once every delivery of it has resolved.
pub fn build_message(
    text: &str,
    sender_ip: &str,
    time: Timestamp,
    subscriptions: &Vec<Subscription>,
    outcomes: &Vec<DeliveryOutcome>,
) -> (r: Message)
    requires
        subscriptions.len() == outcomes.len(),
    ensures
        message_is(r, text@, sender_ip@, time, subscriptions@, outcomes@),
{
    Message {
        message: String::from_str(text),
        sender_ip: String::from_str(sender_ip),
        message_time: time,
        result: delivery_results(subscriptions, outcomes),
    }
}


/// A message sent to K subscriptions is recorded with exactly K results, one
/// per subscription, whatever became of the deliveries.
pub proof fn lemma_one_result_per_subscription(
    m: Message,
    text: Seq<char>,
    sender_ip: Seq<char>,
    time: Timestamp,
    subscriptions: Seq<Subscription>,
    outcomes: Seq<DeliveryOutcome>,
)
    requires
        message_is(m, text, sender_ip, time, subscriptions, outcomes),
    ensures
        m.result@.len() == subscriptions.len(),
{
}

/// A delivery that timed out is recorded with the timeout status, and the
/// results of the other subscribers are those that their own outcomes give:
/// two fan-outs that differ only in that one delivery timed out record the
/// same results for everyone else.
pub proof fn lemma_timeout_is_recorded_alone(
    subscriptions: Seq<Subscription>,
    outcomes: Seq<DeliveryOutcome>,
    results: Seq<MessageResult>,
    other_outcomes: Seq<DeliveryOutcome>,
    other_results: Seq<MessageResult>,
    j: int,
)
    requires
        results_match(subscriptions, outcomes, results),
        results_match(subscriptions, other_outcomes, other_results),
        0 <= j < subscriptions.len(),
        outcomes[j] is TimedOut,
        forall|i: int| 0 <= i < subscriptions.len() && i != j ==> outcomes[i] == other_outcomes[i],
    ensures
        results[j].result_status@ == timed_out_status(),
        results[j].endpoint_domain@ == domain_of(authority_of(subscriptions[j].endpoint@)),
        forall|i: int|
            0 <= i < subscriptions.len() && i != j ==> {
                &&& results[i].endpoint_domain@ == other_results[i].endpoint_domain@
                &&& results[i].result_status@ == other_results[i].result_status@
            },
{
    assert(result_is(results[j], authority_of(subscriptions[j].endpoint@), outcomes[j]));
    assert forall|i: int| 0 <= i < subscriptions.len() && i != j implies {
        &&& results[i].endpoint_domain@ == other_results[i].endpoint_domain@
        &&& results[i].result_status@ == other_results[i].result_status@
    } by {
        assert(result_is(results[i], authority_of(subscriptions[i].endpoint@), outcomes[i]));
        assert(result_is(other_results[i], authority_of(subscriptions[i].endpoint@), other_outcomes[i]));
    }
}

} // verus!
