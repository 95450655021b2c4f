use just_merge::pubsub::gitlab::User;
use just_merge::pubsub::redis_cli::{
    lock_acquired, redis_url, LOCK_CONCURRENCY, LOCK_EXPIRE_SECS, SEMAPHORE_SCRIPT,
};
use just_merge::pubsub::{
    approval_payload, response_pattern, Approval, IncomingAction, PushKind, REQUEST_CHANNEL,
};

fn user(id: u64, name: &str) -> User {
    User { id, name: name.to_string(), username: format!("{}_login", name) }
}

fn request() -> Approval {
    Approval::new_request(user(7, "Alice"), "group/app".to_string(), 42, "details".to_string())
}

#[test]
fn new_request_is_unanswered() {
    let a = request();
    assert_eq!(a.requester.id, 7);
    assert_eq!(a.requester.name, "Alice");
    assert!(a.approver.is_none());
    assert_eq!(a.pid, "group/app");
    assert_eq!(a.mid, 42);
    assert_eq!(a.request_details, "details");
    assert!(a.fail_reason.is_none());
    assert!(!a.is_response());
    assert!(a.is_requested_by_yourself(7));
    assert!(!a.is_requested_by_yourself(8));
}

#[test]
fn own_request_is_ignored_and_others_process_it() {
    let a = request();
    assert_eq!(a.incoming_action(7), IncomingAction::Ignore);
    assert_eq!(a.incoming_action(8), IncomingAction::Process);
}

#[test]
fn recorded_approval_is_forwarded() {
    let mut a = request();
    a.record_approval(user(8, "Bob"), None);
    assert!(a.is_response());
    assert_eq!(a.approver.as_ref().unwrap().name, "Bob");
    assert!(a.fail_reason.is_none());
    assert_eq!(a.incoming_action(7), IncomingAction::Forward);
    assert_eq!(a.incoming_action(8), IncomingAction::Forward);
}

#[test]
fn failure_is_recorded_and_first_answer_stands() {
    let mut a = request();
    a.record_approval(user(8, "Bob"), Some("already merged".to_string()));
    assert_eq!(a.fail_reason.as_deref(), Some("already merged"));
    a.record_approval(user(9, "Carol"), Some("other".to_string()));
    assert_eq!(a.approver.as_ref().unwrap().id, 8);
    assert_eq!(a.fail_reason.as_deref(), Some("already merged"));
}

#[test]
fn channels_and_keys() {
    let a = request();
    assert_eq!(a.response_channel(), "mr.res.7");
    assert_eq!(response_pattern(&user(7, "Alice")), "mr.res.7*");
    assert_eq!(a.lock_key(), "mr.lock.group/app.42");
    assert_eq!(REQUEST_CHANNEL, "mr");
    let big = Approval::new_request(user(u64::MAX, "M"), "p".to_string(), 0, String::new());
    assert_eq!(big.response_channel(), "mr.res.18446744073709551615");
    assert_eq!(big.lock_key(), "mr.lock.p.0");
}

#[test]
fn notification_names_the_approver() {
    let mut a = request();
    assert!(a.notification().is_none());
    a.record_approval(user(8, "Bob"), None);
    let (title, body) = a.notification().unwrap();
    assert_eq!(title, "group/app42");
    assert_eq!(body, "Bob approved your request!");
}

#[test]
fn request_payload_on_request_channel() {
    let data = vec!["mr".to_string(), "{\"x\":1}".to_string()];
    assert_eq!(approval_payload(PushKind::Message, &data), Some("{\"x\":1}".to_string()));
    let other = vec!["news".to_string(), "p".to_string()];
    assert_eq!(approval_payload(PushKind::Message, &other), None);
    let short = vec!["mr".to_string()];
    assert_eq!(approval_payload(PushKind::Message, &short), None);
}

#[test]
fn answer_payload_on_response_pattern() {
    let data = vec!["mr.res.7*".to_string(), "mr.res.7".to_string(), "body".to_string()];
    assert_eq!(approval_payload(PushKind::PMessage, &data), Some("body".to_string()));
    let wrong = vec!["mr.res.7*".to_string(), "mr.other".to_string(), "body".to_string()];
    assert_eq!(approval_payload(PushKind::PMessage, &wrong), None);
    assert_eq!(approval_payload(PushKind::Other, &data), None);
    let as_message = vec!["mr".to_string(), "x".to_string()];
    assert_eq!(approval_payload(PushKind::PMessage, &as_message), None);
}

#[test]
fn redis_url_and_semaphore() {
    assert_eq!(redis_url("127.0.0.1", 6379), "redis://127.0.0.1:6379?protocol=resp3");
    assert_eq!(redis_url("h", 0), "redis://h:0?protocol=resp3");
    assert!(lock_acquired(1));
    assert!(!lock_acquired(0));
    assert!(!lock_acquired(2));
    assert_eq!(LOCK_EXPIRE_SECS, 10);
    assert_eq!(LOCK_CONCURRENCY, 3);
    assert!(SEMAPHORE_SCRIPT.contains("redis.call('incr', KEYS[1])"));
}
