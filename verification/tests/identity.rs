use omniemployee_gui::api::{StreamEvent, ToolCall, UserSwitchResponse};
use omniemployee_gui::app::{short_form, short_id, App, Effect};
use omniemployee_gui::models::{ChatMessage, MessageRole, MessageSegment};
use serde_json::Value;

fn answer(success: bool, user: &str) -> UserSwitchResponse {
    UserSwitchResponse { success, user_id: user.to_string() }
}

#[test]
fn messages_keep_the_given_id_and_label() {
    let calls = vec![ToolCall {
        name: "grep".to_string(),
        arguments: Value::Null,
        result: None,
        success: true,
    }];
    let m = ChatMessage::with_text(
        "id-1".to_string(),
        "09:41".to_string(),
        MessageRole::Assistant,
        "answer",
        calls,
    );
    assert_eq!(m.id, "id-1");
    assert_eq!(m.timestamp, "09:41");
    assert_eq!(m.role, MessageRole::Assistant);
    assert_eq!(m.content, "answer");
    assert_eq!(m.tool_calls.len(), 1);
    assert!(matches!(&m.segments[..], [MessageSegment::Text(t)] if t == "answer"));
    let p = ChatMessage::streaming_with("id-2".to_string(), "23:59".to_string());
    assert_eq!(p.id, "id-2");
    assert_eq!(p.timestamp, "23:59");
    assert_eq!(p.role, MessageRole::Assistant);
    assert_eq!(p.content, "");
    assert!(p.segments.is_empty());
    assert!(p.tool_calls.is_empty());
}

#[test]
fn drawn_labels_are_times_of_day() {
    for m in [
        ChatMessage::user("a"),
        ChatMessage::system("b"),
        ChatMessage::assistant("c", Vec::new()),
        ChatMessage::assistant_streaming(),
    ] {
        let label: Vec<char> = m.timestamp.chars().collect();
        assert_eq!(label.len(), 5);
        assert_eq!(label[2], ':');
        for i in [0, 1, 3, 4] {
            assert!(label[i].is_ascii_digit());
        }
        assert_eq!(m.id.chars().count(), 36);
    }
}

#[test]
fn short_forms() {
    assert_eq!(short_form("0123456789abcdef"), "01234567");
    assert_eq!(short_form("01234567"), "01234567");
    assert_eq!(short_form("0123"), "0123");
    assert_eq!(short_form(""), "");
    assert_eq!(short_form("äöüäöüäöüä"), "äöüäöüäö");
    assert_eq!(short_id().chars().count(), 8);
    assert_ne!(short_id(), short_id());
}

#[test]
fn a_client_starts_with_the_given_ids() {
    let app = App::new_with("sess0001".to_string(), "n-1".to_string(), "10:00".to_string());
    assert_eq!(app.session_id, "sess0001");
    assert_eq!(app.messages.len(), 1);
    assert_eq!(app.messages[0].id, "n-1");
    assert_eq!(app.messages[0].timestamp, "10:00");
    assert_eq!(app.messages[0].role, MessageRole::System);
    assert_eq!(app.messages[0].content, "Connecting to OmniEmployee backend...");
    assert!(!app.is_loading);
    assert!(app.streaming_message_id.is_none());
    assert_eq!(app.current_user_id, "default");
}

#[test]
fn a_switch_takes_the_new_session_id() {
    let mut app = App::new_with("old-sess".to_string(), "n".to_string(), "10:00".to_string());
    app.show_user_dropdown = true;
    let effect = app.finish_switch_user_with(answer(true, "bob"), "new-sess".to_string());
    assert!(matches!(effect, Effect::RefreshSidebar));
    assert_eq!(app.session_id, "new-sess");
    assert_eq!(app.current_user_id, "bob");
    assert!(!app.show_user_dropdown);
    assert_eq!(app.messages.len(), 1);
    assert_eq!(app.messages[0].content, "Switched to user: bob\nNew session started.");
    let effect = app.finish_switch_user_with(answer(false, "eve"), "other".to_string());
    assert!(matches!(effect, Effect::Nothing));
    assert_eq!(app.session_id, "new-sess");
    assert_eq!(app.current_user_id, "bob");
}

#[test]
fn a_switch_draws_a_session_id_that_is_not_the_old_one() {
    let mut app = App::new();
    let old = app.session_id.clone();
    app.finish_switch_user(answer(true, "bob"));
    assert_ne!(app.session_id, old);
    let second = app.session_id.clone();
    app.finish_switch_user(answer(true, "bob"));
    assert_ne!(app.session_id, second);
}

#[test]
fn a_creation_takes_the_new_session_id_and_adds_the_user_once() {
    let mut app = App::new_with("old-sess".to_string(), "n".to_string(), "10:00".to_string());
    app.available_users = vec!["alice".to_string(), "bob".to_string()];
    let effect = app.finish_create_user_with(answer(true, "carol"), "sess-2".to_string());
    assert!(matches!(effect, Effect::RefreshSidebar));
    assert_eq!(app.session_id, "sess-2");
    assert_eq!(app.current_user_id, "carol");
    assert_eq!(
        app.available_users,
        vec!["alice".to_string(), "bob".to_string(), "carol".to_string()]
    );
    assert_eq!(app.messages.len(), 1);
    assert_eq!(
        app.messages[0].content,
        "Created and switched to new user: carol\nNew session started."
    );
    app.finish_create_user_with(answer(true, "bob"), "sess-3".to_string());
    assert_eq!(app.session_id, "sess-3");
    assert_eq!(app.current_user_id, "bob");
    assert_eq!(
        app.available_users,
        vec!["alice".to_string(), "bob".to_string(), "carol".to_string()]
    );
    let effect = app.finish_create_user_with(answer(false, "dave"), "sess-4".to_string());
    assert!(matches!(effect, Effect::Nothing));
    assert_eq!(app.session_id, "sess-3");
    assert_eq!(app.available_users.len(), 3);
    let old = app.session_id.clone();
    app.finish_create_user(answer(true, "erin"));
    assert_ne!(app.session_id, old);
    assert_eq!(app.session_id.chars().count(), 8);
}

#[test]
fn a_user_is_asked_for_under_the_given_name() {
    let mut app = App::new();
    match app.handle_create_new_user_with("ab12cd34") {
        Effect::CreateUser { request } => {
            assert_eq!(
                request.url,
                "http://localhost:8765/api/user/create?user_id=user_ab12cd34"
            );
        }
        other => panic!("unexpected effect {:?}", other),
    }
    match app.handle_create_new_user_with("a b") {
        Effect::CreateUser { request } => {
            assert_eq!(request.url, "http://localhost:8765/api/user/create?user_id=user_a%20b");
        }
        other => panic!("unexpected effect {:?}", other),
    }
    assert_eq!(app.messages.len(), 1);
}

#[test]
fn a_turn_opens_with_the_given_ids() {
    let mut app = App::new_with("sess0001".to_string(), "n".to_string(), "10:00".to_string());
    let effect = app.open_turn_with(
        "hello",
        "u-1".to_string(),
        "10:01".to_string(),
        "a-1".to_string(),
        "10:02".to_string(),
    );
    match effect {
        Effect::OpenStream { request, target } => {
            assert_eq!(target, "a-1");
            assert_eq!(
                request.url,
                "http://localhost:8765/api/chat/stream?message=hello&session_id=sess0001"
            );
        }
        other => panic!("unexpected effect {:?}", other),
    }
    assert_eq!(app.messages.len(), 3);
    assert_eq!(app.messages[1].id, "u-1");
    assert_eq!(app.messages[1].timestamp, "10:01");
    assert_eq!(app.messages[1].role, MessageRole::User);
    assert_eq!(app.messages[1].content, "hello");
    assert_eq!(app.messages[2].id, "a-1");
    assert_eq!(app.messages[2].timestamp, "10:02");
    assert_eq!(app.messages[2].role, MessageRole::Assistant);
    assert!(app.messages[2].segments.is_empty());
    assert!(app.is_loading);
    assert_eq!(app.streaming_message_id.as_deref(), Some("a-1"));

    let effect = app.open_turn_with(
        "again",
        "u-2".to_string(),
        "10:03".to_string(),
        "a-2".to_string(),
        "10:04".to_string(),
    );
    assert!(matches!(effect, Effect::Nothing));
    assert_eq!(app.messages.len(), 3);
    assert_eq!(app.streaming_message_id.as_deref(), Some("a-1"));
}

#[test]
fn the_id_of_the_target_fences_an_earlier_stream() {
    let mut app = App::new_with("sess0001".to_string(), "n".to_string(), "10:00".to_string());
    app.open_turn_with(
        "one",
        "u-1".to_string(),
        "10:01".to_string(),
        "a-1".to_string(),
        "10:01".to_string(),
    );
    app.finish_clear_command();
    app.open_turn_with(
        "two",
        "u-2".to_string(),
        "10:02".to_string(),
        "a-2".to_string(),
        "10:02".to_string(),
    );
    app.handle_stream_event("a-1", StreamEvent::Chunk { content: "stale".to_string() });
    app.handle_stream_event("a-1", StreamEvent::Done { tool_calls: vec![] });
    assert!(app.is_loading);
    assert_eq!(app.messages.last().unwrap().content, "");
    app.handle_stream_event("a-2", StreamEvent::Chunk { content: "fresh".to_string() });
    app.handle_stream_event("a-2", StreamEvent::Done { tool_calls: vec![] });
    assert!(!app.is_loading);
    assert_eq!(app.messages.last().unwrap().id, "a-2");
    assert_eq!(app.messages.last().unwrap().content, "fresh");
}

#[test]
fn the_log_takes_the_given_message() {
    let mut app = App::new_with("s".to_string(), "n".to_string(), "10:00".to_string());
    let m = |id: &str| {
        ChatMessage::with_text(
            id.to_string(),
            "11:11".to_string(),
            MessageRole::System,
            "note",
            Vec::new(),
        )
    };
    app.push_message(m("m-1"));
    assert_eq!(app.messages.len(), 2);
    assert_eq!(app.messages[1].id, "m-1");
    app.replace_last_message(m("m-2"));
    assert_eq!(app.messages.len(), 2);
    assert_eq!(app.messages[0].id, "n");
    assert_eq!(app.messages[1].id, "m-2");
    app.reset_log_to(m("m-3"));
    assert_eq!(app.messages.len(), 1);
    assert_eq!(app.messages[0].id, "m-3");
    app.messages.clear();
    app.replace_last_message(m("m-4"));
    assert_eq!(app.messages.len(), 1);
    assert_eq!(app.messages[0].id, "m-4");
    assert_eq!(app.session_id, "s");
}
