use std::collections::HashMap;
use stockdata::ntfy::{
    error_message, info_message, success_message, warning_message, NtfyAction, NtfyMessage,
};

#[test]
fn test_warning_message() {
    let message = warning_message("afg".to_string(), "test".to_string(), "test".to_string());
    assert_eq!(message.topic, "afg");
    assert_eq!(message.title.as_deref(), Some("test"));
    assert_eq!(message.message.as_deref(), Some("test"));
    assert_eq!(message.tags, Some(vec!["warning".to_string()]));
    assert_eq!(message.priority, Some(4));
    let message = success_message("afg".to_string(), "test".to_string(), "test".to_string());
    assert_eq!(message.tags, Some(vec!["white_check_mark".to_string()]));
    assert_eq!(message.priority, Some(3));
    let message = error_message("afg".to_string(), "test".to_string(), "test".to_string());
    assert_eq!(message.tags, Some(vec!["rotating_light".to_string()]));
    assert_eq!(message.priority, Some(5));
    let message = info_message("afg".to_string(), "test".to_string(), "test".to_string());
    assert_eq!(message.tags, Some(vec!["information".to_string()]));
    assert_eq!(message.priority, Some(3));
    assert!(message.actions.is_none());
    assert!(message.click.is_none());
}

#[test]
fn test_http_action() {
    let action_msg = NtfyMessage::new("afg".to_string())
        .title("test".to_string())
        .message("test".to_string())
        .add_action(NtfyAction::new().http_action(
            "go to baidu".to_string(),
            "https://www.baidu.com".to_string(),
            "GET".to_string(),
            HashMap::new(),
            "".to_string(),
        ));
    let actions = action_msg.actions.unwrap();
    assert_eq!(actions.len(), 1);
    assert_eq!(actions[0].action, "http");
    assert_eq!(actions[0].label, "go to baidu");
    assert_eq!(actions[0].url, "https://www.baidu.com");
    assert_eq!(actions[0].method.as_deref(), Some("GET"));
    assert_eq!(actions[0].headers, Some(HashMap::new()));
    assert_eq!(actions[0].body.as_deref(), Some(""));
    assert_eq!(actions[0].clear, None);
}

#[test]
fn test_view_action() {
    let action_msg = NtfyMessage::new("afg".to_string())
        .title("test".to_string())
        .message("test".to_string())
        .add_action(
            NtfyAction::new()
                .view_action("go to baidu".to_string(), "https://www.baidu.com".to_string()),
        );
    let actions = action_msg.actions.unwrap();
    assert_eq!(actions.len(), 1);
    assert_eq!(actions[0].action, "view");
    assert_eq!(actions[0].label, "go to baidu");
    assert_eq!(actions[0].url, "https://www.baidu.com");
    assert!(actions[0].method.is_none());
    assert!(actions[0].headers.is_none());
    assert!(actions[0].body.is_none());
}

#[test]
fn a_view_action_drops_what_an_http_action_set() {
    let action = NtfyAction::new()
        .http_action(
            "a".to_string(),
            "b".to_string(),
            "POST".to_string(),
            HashMap::new(),
            "c".to_string(),
        )
        .view_action("d".to_string(), "e".to_string());
    assert_eq!(action.action, "view");
    assert_eq!(action.label, "d");
    assert!(action.method.is_none());
    assert!(action.headers.is_none());
    assert!(action.body.is_none());
}

#[test]
fn a_new_message_has_only_its_topic() {
    let m = NtfyMessage::new("t".to_string());
    assert_eq!(m.topic, "t");
    assert!(m.message.is_none() && m.title.is_none() && m.tags.is_none());
    assert!(m.priority.is_none() && m.actions.is_none() && m.click.is_none());
    assert!(m.attach.is_none() && m.markdown.is_none() && m.icon.is_none());
    assert!(m.filename.is_none() && m.delay.is_none() && m.email.is_none() && m.call.is_none());
    let a = NtfyAction::new();
    assert!(a.action.is_empty() && a.label.is_empty() && a.url.is_empty());
}

#[test]
fn only_priorities_from_one_to_five_are_taken() {
    let m = NtfyMessage::new("t".to_string());
    assert_eq!(m.clone().priority(0).priority, None);
    assert_eq!(m.clone().priority(6).priority, None);
    assert_eq!(m.clone().priority(-3).priority, None);
    assert_eq!(m.clone().priority(1).priority, Some(1));
    assert_eq!(m.clone().priority(5).priority, Some(5));
    assert_eq!(m.clone().priority(2).priority(9).priority, Some(2));
}

#[test]
fn setters_set_their_field_and_no_other() {
    let m = NtfyMessage::new("t".to_string())
        .click("c".to_string())
        .attach("a".to_string())
        .with_markdown()
        .icon("i".to_string())
        .filename("f".to_string())
        .delay("d".to_string())
        .email("e".to_string())
        .call("n".to_string());
    assert_eq!(m.click.as_deref(), Some("c"));
    assert_eq!(m.attach.as_deref(), Some("a"));
    assert_eq!(m.markdown, Some(true));
    assert_eq!(m.icon.as_deref(), Some("i"));
    assert_eq!(m.filename.as_deref(), Some("f"));
    assert_eq!(m.delay.as_deref(), Some("d"));
    assert_eq!(m.email.as_deref(), Some("e"));
    assert_eq!(m.call.as_deref(), Some("n"));
    assert!(m.title.is_none() && m.message.is_none() && m.tags.is_none());
}

#[test]
fn tags_are_added_in_order_or_replaced() {
    let m = NtfyMessage::new("t".to_string()).add_tag("a".to_string()).add_tag("b".to_string());
    assert_eq!(m.tags, Some(vec!["a".to_string(), "b".to_string()]));
    let m = m.tags(vec!["z".to_string()]).add_tag("y".to_string());
    assert_eq!(m.tags, Some(vec!["z".to_string(), "y".to_string()]));
}
