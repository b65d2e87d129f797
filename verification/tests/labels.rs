use omniemployee_gui::api::{record_event, ContextKnowledge, StreamEvent, StreamToolCall, ToolCall};
use omniemployee_gui::labels::{
    agent_subtitle, connection_label, knowledge_label, preview, result_label, role_label,
    status_icon,
};
use omniemployee_gui::models::{ConnectionStatus, MessageRole, ToolStatus};
use serde_json::Value;

#[test]
fn role_and_status_labels() {
    assert_eq!(role_label(MessageRole::User), "You");
    assert_eq!(role_label(MessageRole::Assistant), "Assistant");
    assert_eq!(role_label(MessageRole::System), "System");
    assert_eq!(status_icon(ToolStatus::Running), "⏳");
    assert_eq!(status_icon(ToolStatus::Completed), "✅");
    assert_eq!(status_icon(ToolStatus::Failed), "❌");
    assert_eq!(connection_label(&ConnectionStatus::Connected), "Connected");
    assert_eq!(connection_label(&ConnectionStatus::Connecting), "Connecting...");
    assert_eq!(connection_label(&ConnectionStatus::Disconnected), "Disconnected");
    assert_eq!(connection_label(&ConnectionStatus::Error("x".to_string())), "Error");
}

#[test]
fn result_labels() {
    assert_eq!(result_label(&Some("out".to_string()), ToolStatus::Running), "out");
    assert_eq!(result_label(&Some("".to_string()), ToolStatus::Failed), "");
    assert_eq!(result_label(&None, ToolStatus::Running), "Executing...");
    assert_eq!(result_label(&None, ToolStatus::Completed), "No result");
    assert_eq!(result_label(&None, ToolStatus::Failed), "No result");
}

#[test]
fn previews_cut_by_characters() {
    assert_eq!(preview("short", 50), "short");
    assert_eq!(preview("abcdef", 3), "abc...");
    assert_eq!(preview("abc", 3), "abc");
    assert_eq!(preview("äöüß", 2), "äö...");
    assert_eq!(preview("abc", 0), "...");
    assert_eq!(preview("", 0), "");
    let long: String = "x".repeat(51);
    assert_eq!(preview(&long, 50), format!("{}...", "x".repeat(50)));
}

#[test]
fn subtitles_and_facts() {
    assert_eq!(agent_subtitle("", "acme"), "AI Assistant");
    assert_eq!(agent_subtitle("m-1", "acme"), "m-1 • acme");
    let k = ContextKnowledge {
        subject: "sky".to_string(),
        predicate: "is".to_string(),
        object: "blue".to_string(),
        confidence_bits: 0,
        source: "chat".to_string(),
    };
    assert_eq!(knowledge_label(&k), "(sky, is, blue)");
}

#[test]
fn a_stream_reports_the_calls_of_its_last_closing_event() {
    let mut calls: Vec<ToolCall> = Vec::new();
    record_event(&mut calls, &StreamEvent::Chunk { content: "x".to_string() });
    assert!(calls.is_empty());
    record_event(
        &mut calls,
        &StreamEvent::Done {
            tool_calls: vec![StreamToolCall {
                name: "grep".to_string(),
                arguments: Value::String("a".to_string()),
            }],
        },
    );
    assert_eq!(calls.len(), 1);
    assert_eq!(calls[0].name, "grep");
    assert_eq!(calls[0].arguments, Value::String("a".to_string()));
    assert!(calls[0].result.is_none());
    assert!(calls[0].success);
    record_event(&mut calls, &StreamEvent::Error { content: "late".to_string() });
    assert_eq!(calls.len(), 1);
    record_event(&mut calls, &StreamEvent::Done { tool_calls: vec![] });
    assert!(calls.is_empty());
}
