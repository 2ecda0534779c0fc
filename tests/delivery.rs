use notify_run::delivery::{build_message, delivery_result, delivery_results, status_of, DeliveryOutcome};
use notify_run::model::{MessageResult, Subscription, Timestamp};

fn subscription(endpoint: &str) -> Subscription {
    Subscription {
        endpoint: endpoint.to_string(),
        auth: "auth".to_string(),
        p256dh: "key".to_string(),
    }
}

#[test]
fn statuses_of_outcomes() {
    assert_eq!(status_of(&DeliveryOutcome::Delivered), "201");
    assert_eq!(status_of(&DeliveryOutcome::TimedOut), "Timed out.");
    assert_eq!(status_of(&DeliveryOutcome::Failed("410 Gone".to_string())), "410 Gone");
}

#[test]
fn endpoint_domain_is_the_authority() {
    let r = delivery_result(&subscription("https://push.example.com/abc"), &DeliveryOutcome::Delivered);
    assert_eq!(r.endpoint_domain, "push.example.com");
    assert_eq!(r.result_status, "201");
    let r = delivery_result(&subscription("https://fcm.example.net:8443/send/x"), &DeliveryOutcome::TimedOut);
    assert_eq!(r.endpoint_domain, "fcm.example.net:8443");
}

#[test]
fn unparsable_endpoint_has_empty_domain() {
    let r = delivery_result(&subscription("not a uri"), &DeliveryOutcome::Delivered);
    assert_eq!(r.endpoint_domain, "");
    let r = delivery_result(&subscription("/relative/path"), &DeliveryOutcome::Delivered);
    assert_eq!(r.endpoint_domain, "");
}

#[test]
fn from_outcome_without_authority() {
    let r = MessageResult::from_outcome(None, &DeliveryOutcome::Failed("boom".to_string()));
    assert_eq!(r.endpoint_domain, "");
    assert_eq!(r.result_status, "boom");
}

#[test]
fn message_has_one_result_per_subscription() {
    let subs = vec![
        subscription("https://a.example/1"),
        subscription("https://b.example/2"),
        subscription("https://c.example/3"),
    ];
    let outcomes = vec![
        DeliveryOutcome::Delivered,
        DeliveryOutcome::Failed("400 Bad Request".to_string()),
        DeliveryOutcome::Delivered,
    ];
    let time = Timestamp { seconds: 1_600_000_000, nanos: 5 };
    let m = build_message("hello", "10.0.0.1", time, &subs, &outcomes);
    assert_eq!(m.result.len(), 3);
    assert_eq!(m.message, "hello");
    assert_eq!(m.sender_ip, "10.0.0.1");
    assert_eq!(m.message_time, time);
    assert_eq!(m.result[1].endpoint_domain, "b.example");
    assert_eq!(m.result[1].result_status, "400 Bad Request");
}

#[test]
fn timeout_is_recorded_without_touching_others() {
    let subs = vec![
        subscription("https://a.example/1"),
        subscription("https://slow.example/2"),
        subscription("https://c.example/3"),
    ];
    let outcomes = vec![
        DeliveryOutcome::Delivered,
        DeliveryOutcome::TimedOut,
        DeliveryOutcome::Failed("oops".to_string()),
    ];
    let results = delivery_results(&subs, &outcomes);
    assert_eq!(results.len(), 3);
    assert_eq!(results[0].result_status, "201");
    assert_eq!(results[1].result_status, "Timed out.");
    assert_eq!(results[1].endpoint_domain, "slow.example");
    assert_eq!(results[2].result_status, "oops");
}

#[test]
fn no_subscribers_gives_no_results() {
    let m = build_message("x", "ip", Timestamp { seconds: 0, nanos: 0 }, &vec![], &vec![]);
    assert!(m.result.is_empty());
}
