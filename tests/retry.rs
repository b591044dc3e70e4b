use claus::retry::{RetryDecision, RetryPolicy};

#[test]
fn three_rate_limits_exhaust_the_budget() {
    let mut p = RetryPolicy::new();
    assert!(p.may_send());
    assert_eq!(p.on_status(429, Some(2)), RetryDecision::Wait { seconds: 2 });
    assert!(p.may_send());
    assert_eq!(p.on_status(420, None), RetryDecision::Wait { seconds: 1 });
    assert!(p.may_send());
    assert_eq!(p.on_status(429, None), RetryDecision::GiveUp);
    assert!(!p.may_send());
}

#[test]
fn success_is_delivered() {
    let mut p = RetryPolicy::new();
    assert_eq!(p.on_status(429, None), RetryDecision::Wait { seconds: 1 });
    assert_eq!(p.on_status(200, None), RetryDecision::Deliver);
}

#[test]
fn other_failures_are_not_retried() {
    let mut p = RetryPolicy::new();
    assert_eq!(p.on_status(500, Some(3)), RetryDecision::Fail { status: 500 });
    assert_eq!(p.on_status(404, None), RetryDecision::Fail { status: 404 });
    assert!(p.may_send());
}
