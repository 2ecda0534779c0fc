use notify_run::api::{ApiError, ChannelInfo};
use notify_run::config::{ServiceConfig, DELIVERY_TIMEOUT_SECS, MESSAGE_PAGE_SIZE};
use notify_run::delivery::DeliveryOutcome;
use notify_run::flow::{Action, Event, Flow, Reply};
use notify_run::model::{Message, Subscription, Timestamp};

fn config() -> ServiceConfig {
    ServiceConfig::new("https://notify.example", "PUBKEY", "AQID").unwrap()
}

fn subscription(endpoint: &str) -> Subscription {
    Subscription {
        endpoint: endpoint.to_string(),
        auth: "auth".to_string(),
        p256dh: "p256dh".to_string(),
    }
}

fn error_of(action: Action) -> ApiError {
    match action {
        Action::Reply(Err(e)) => e,
        other => panic!("expected an error reply, got {:?}", other),
    }
}

fn channel_info_of(action: Action) -> ChannelInfo {
    match action {
        Action::Reply(Ok(Reply::Channel(info))) => info,
        other => panic!("expected channel info, got {:?}", other),
    }
}

#[test]
fn unknown_channel_is_not_found_for_info_subscribe_and_send() {
    let c = config();
    let (flow, action) = Flow::info("nochannel");
    assert!(matches!(action, Action::GetChannel { ref channel_id } if channel_id == "nochannel"));
    let (flow, action) = flow.step(&c, Event::ChannelMissing);
    assert!(flow.is_done());
    assert_eq!(error_of(action), ApiError::NotFound);

    let (flow, _) = Flow::subscribe("nochannel", "dev1", subscription("https://push.example.com/abc"));
    let (flow, action) = flow.step(&c, Event::ChannelMissing);
    assert!(flow.is_done());
    assert_eq!(error_of(action), ApiError::NotFound);

    let (flow, _) = Flow::send("nochannel", "hello", "10.0.0.1");
    let (flow, action) = flow.step(&c, Event::ChannelMissing);
    assert!(flow.is_done());
    assert_eq!(error_of(action), ApiError::NotFound);
}

#[test]
fn store_failure_is_internal() {
    let c = config();
    let (flow, _) = Flow::send("ch", "hello", "10.0.0.1");
    let (flow, action) = flow.step(&c, Event::StoreFailed);
    assert!(flow.is_done());
    assert_eq!(error_of(action), ApiError::Internal);

    let (flow, _) = Flow::register_channel("agent", "ip", Timestamp { seconds: 0, nanos: 0 });
    let (_, action) = flow.step(&c, Event::StoreFailed);
    assert_eq!(error_of(action), ApiError::Internal);
}

#[test]
fn unexpected_event_is_internal() {
    let c = config();
    let (flow, _) = Flow::info("ch");
    let (flow, action) = flow.step(&c, Event::MessageCreated);
    assert!(flow.is_done());
    assert_eq!(error_of(action), ApiError::Internal);
    let (_, action) = flow.step(&c, Event::ChannelFound);
    assert_eq!(error_of(action), ApiError::Internal);
}

#[test]
fn send_to_k_subscriptions_records_k_results() {
    let c = config();
    let (flow, _) = Flow::send("ch", "hello", "10.0.0.1");
    let (flow, action) = flow.step(&c, Event::ChannelFound);
    match action {
        Action::ListSubscriptions { channel_id, page_size } => {
            assert_eq!(channel_id, "ch");
            assert_eq!(page_size, 10);
        }
        other => panic!("unexpected {:?}", other),
    }
    let listed = vec![
        subscription("https://a.example/1"),
        subscription("https://b.example/2"),
        subscription("https://c.example/3"),
    ];
    let (flow, action) = flow.step(&c, Event::SubscriptionsListed(listed));
    match action {
        Action::Deliver { payload, subscriptions, timeout_secs } => {
            assert_eq!(subscriptions.len(), 3);
            assert_eq!(timeout_secs, DELIVERY_TIMEOUT_SECS);
            assert_eq!(payload.message, "hello");
            assert_eq!(payload.data.action, "https://notify.example/c/ch");
        }
        other => panic!("unexpected {:?}", other),
    }
    let outcomes = vec![
        DeliveryOutcome::Delivered,
        DeliveryOutcome::TimedOut,
        DeliveryOutcome::Failed("500".to_string()),
    ];
    let time = Timestamp { seconds: 42, nanos: 0 };
    let (flow, action) = flow.step(&c, Event::Delivered { outcomes, time });
    match action {
        Action::CreateMessage { channel_id, message } => {
            assert_eq!(channel_id, "ch");
            assert_eq!(message.result.len(), 3);
            assert_eq!(message.result[1].result_status, "Timed out.");
            assert_eq!(message.result[1].endpoint_domain, "b.example");
            assert_eq!(message.result[2].result_status, "500");
            assert_eq!(message.message_time, time);
        }
        other => panic!("unexpected {:?}", other),
    }
    let (flow, action) = flow.step(&c, Event::MessageCreated);
    assert!(flow.is_done());
    assert!(matches!(action, Action::Reply(Ok(Reply::Sent))));
}

#[test]
fn send_delivers_to_one_page_only() {
    let c = config();
    let (flow, _) = Flow::send("ch", "hi", "ip");
    let (flow, _) = flow.step(&c, Event::ChannelFound);
    let listed: Vec<Subscription> = (0..12).map(|i| subscription(&format!("https://s{}.example/x", i))).collect();
    let (_, action) = flow.step(&c, Event::SubscriptionsListed(listed));
    match action {
        Action::Deliver { subscriptions, .. } => {
            assert_eq!(subscriptions.len(), 10);
            assert_eq!(subscriptions[9].endpoint, "https://s9.example/x");
        }
        other => panic!("unexpected {:?}", other),
    }
}

#[test]
fn outcome_count_mismatch_is_internal() {
    let c = config();
    let (flow, _) = Flow::send("ch", "hi", "ip");
    let (flow, _) = flow.step(&c, Event::ChannelFound);
    let (flow, _) = flow.step(&c, Event::SubscriptionsListed(vec![subscription("https://a.example/")]));
    let (flow, action) = flow.step(&c, Event::Delivered { outcomes: vec![], time: Timestamp { seconds: 0, nanos: 0 } });
    assert!(flow.is_done());
    assert_eq!(error_of(action), ApiError::Internal);
}

#[test]
fn send_with_no_subscribers_still_records_the_message() {
    let c = config();
    let (flow, _) = Flow::send("ch", "message=hi&action=https://x.example/", "ip");
    let (flow, _) = flow.step(&c, Event::ChannelFound);
    let (flow, action) = flow.step(&c, Event::SubscriptionsListed(vec![]));
    match action {
        Action::Deliver { payload, subscriptions, .. } => {
            assert!(subscriptions.is_empty());
            assert_eq!(payload.message, "hi");
            assert_eq!(payload.data.action, "https://x.example/");
        }
        other => panic!("unexpected {:?}", other),
    }
    let (_, action) = flow.step(&c, Event::Delivered { outcomes: vec![], time: Timestamp { seconds: 1, nanos: 0 } });
    match action {
        Action::CreateMessage { message, .. } => {
            assert_eq!(message.message, "hi");
            assert!(message.result.is_empty());
        }
        other => panic!("unexpected {:?}", other),
    }
}

#[test]
fn subscription_is_created_under_its_id_and_never_overwritten() {
    let c = config();
    let (flow, _) = Flow::subscribe("ch", "dev1", subscription("https://push.example.com/abc"));
    let (flow, action) = flow.step(&c, Event::ChannelFound);
    match action {
        Action::CreateSubscription { channel_id, subscription_id, subscription } => {
            assert_eq!(channel_id, "ch");
            assert_eq!(subscription_id, "dev1");
            assert_eq!(subscription.endpoint, "https://push.example.com/abc");
            assert_eq!(subscription.auth, "auth");
            assert_eq!(subscription.p256dh, "p256dh");
        }
        other => panic!("unexpected {:?}", other),
    }
    let (_, action) = flow.step(&c, Event::SubscriptionCreated(true));
    assert!(matches!(action, Action::Reply(Ok(Reply::Subscribed))));

    let (flow, _) = Flow::subscribe("ch", "dev1", subscription("https://other.example/"));
    let (flow, _) = flow.step(&c, Event::ChannelFound);
    let (_, action) = flow.step(&c, Event::SubscriptionCreated(false));
    assert_eq!(error_of(action), ApiError::Conflict);
}

/// A store held in memory, standing for the document store in the scenario.
struct Store {
    channels: Vec<(String, Vec<(String, Subscription)>, Vec<Message>)>,
}

impl Store {
    fn run(&mut self, c: &ServiceConfig, start: (Flow, Action)) -> Result<Reply, ApiError> {
        let (mut flow, mut action) = start;
        loop {
            let event = match action {
                Action::Reply(r) => return r,
                Action::CreateChannel { .. } => {
                    let id = format!("chan{}xyz", self.channels.len());
                    self.channels.push((id.clone(), vec![], vec![]));
                    Event::ChannelCreated(id)
                }
                Action::GetChannel { channel_id } => {
                    if self.channels.iter().any(|ch| ch.0 == channel_id) {
                        Event::ChannelFound
                    } else {
                        Event::ChannelMissing
                    }
                }
                Action::ListMessages { channel_id, page_size } => {
                    let ch = self.channels.iter().find(|ch| ch.0 == channel_id).unwrap();
                    Event::MessagesListed(ch.2.iter().rev().take(page_size).cloned().collect())
                }
                Action::CreateSubscription { channel_id, subscription_id, subscription } => {
                    let ch = self.channels.iter_mut().find(|ch| ch.0 == channel_id).unwrap();
                    if ch.1.iter().any(|s| s.0 == subscription_id) {
                        Event::SubscriptionCreated(false)
                    } else {
                        ch.1.push((subscription_id, subscription));
                        Event::SubscriptionCreated(true)
                    }
                }
                Action::ListSubscriptions { channel_id, page_size } => {
                    let ch = self.channels.iter().find(|ch| ch.0 == channel_id).unwrap();
                    Event::SubscriptionsListed(ch.1.iter().take(page_size).map(|s| s.1.clone()).collect())
                }
                Action::Deliver { subscriptions, .. } => Event::Delivered {
                    outcomes: subscriptions.iter().map(|_| DeliveryOutcome::Delivered).collect(),
                    time: Timestamp { seconds: 1_700_000_000, nanos: 0 },
                },
                Action::CreateMessage { channel_id, message } => {
                    let ch = self.channels.iter_mut().find(|ch| ch.0 == channel_id).unwrap();
                    ch.2.push(message);
                    Event::MessageCreated
                }
            };
            let (next, next_action) = flow.step(c, event);
            flow = next;
            action = next_action;
        }
    }
}

#[test]
fn register_subscribe_send_then_info() {
    let c = config();
    let mut store = Store { channels: vec![] };
    let time = Timestamp { seconds: 1_600_000_000, nanos: 0 };

    let registered = store.run(&c, Flow::register_channel("curl/7", "10.0.0.1", time));
    let info = match registered {
        Ok(Reply::Channel(info)) => info,
        other => panic!("unexpected {:?}", other),
    };
    assert_eq!(info.pub_key, "PUBKEY");
    assert!(info.messages.is_empty());
    assert_eq!(info.endpoint, format!("https://notify.example/{}", info.channel_id));
    assert_eq!(info.channel_page, format!("https://notify.example/c/{}", info.channel_id));
    let channel_id = info.channel_id;

    let subscribed = store.run(
        &c,
        Flow::subscribe(&channel_id, "dev1", subscription("https://push.example.com/abc")),
    );
    assert!(matches!(subscribed, Ok(Reply::Subscribed)));

    let sent = store.run(&c, Flow::send(&channel_id, "hello", "10.0.0.2"));
    assert!(matches!(sent, Ok(Reply::Sent)));

    let info = channel_info_of(Action::Reply(store.run(&c, Flow::info(&channel_id))));
    assert_eq!(info.channel_id, channel_id);
    assert_eq!(info.messages.len(), 1);
    assert_eq!(info.messages[0].message, "hello");
    assert_eq!(info.messages[0].result.len(), 1);
    assert_eq!(info.messages[0].result[0].endpoint_domain, "push.example.com");
    assert_eq!(info.messages[0].result[0].result_status, "201");
    assert_eq!(info.time, "");
}

#[test]
fn info_lists_messages_in_the_order_given() {
    let c = config();
    let (flow, _) = Flow::info("ch");
    let (flow, action) = flow.step(&c, Event::ChannelFound);
    match action {
        Action::ListMessages { channel_id, page_size } => {
            assert_eq!(channel_id, "ch");
            assert_eq!(page_size, MESSAGE_PAGE_SIZE);
        }
        other => panic!("unexpected {:?}", other),
    }
    let messages = vec![
        Message { message: "b".to_string(), sender_ip: "i".to_string(), message_time: Timestamp { seconds: 2, nanos: 0 }, result: vec![] },
        Message { message: "a".to_string(), sender_ip: "i".to_string(), message_time: Timestamp { seconds: 1, nanos: 0 }, result: vec![] },
    ];
    let (_, action) = flow.step(&c, Event::MessagesListed(messages));
    let info = channel_info_of(action);
    assert_eq!(info.messages.len(), 2);
    assert_eq!(info.messages[0].message, "b");
    assert_eq!(info.messages[1].time, Timestamp { seconds: 1, nanos: 0 });
}
