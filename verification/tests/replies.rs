use mesh_jawn::bot::replies::{CommandResponse, ReplyDestination};

#[test]
fn test_from_str() {
    let response: CommandResponse = "Hello".into();
    assert_eq!(response.messages, vec!["Hello"]);
    assert_eq!(response.destination, ReplyDestination::Sender);
}

#[test]
fn test_from_string() {
    let response: CommandResponse = String::from("Hello").into();
    assert_eq!(response.messages, vec!["Hello"]);
    assert_eq!(response.destination, ReplyDestination::Sender);
}

#[test]
fn test_from_vec() {
    let messages = vec!["Line 1".to_string(), "Line 2".to_string()];
    let response: CommandResponse = messages.clone().into();
    assert_eq!(response.messages, messages);
    assert_eq!(response.destination, ReplyDestination::Sender);
}

#[test]
fn test_broadcast() {
    let response = CommandResponse::broadcast("Announcement");
    assert_eq!(response.messages, vec!["Announcement"]);
    assert_eq!(response.destination, ReplyDestination::Broadcast);
}

#[test]
fn new_and_new_multi_reply_to_sender() {
    let single = CommandResponse::new("one");
    assert_eq!(single.messages, vec!["one"]);
    assert_eq!(single.destination, ReplyDestination::Sender);
    let multi = CommandResponse::new_multi(vec!["a".to_string(), "b".to_string()]);
    assert_eq!(multi.messages, vec!["a", "b"]);
    assert_eq!(multi.destination, ReplyDestination::Sender);
}
