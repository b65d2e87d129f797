use omniemployee_gui::api::{AgentInfo, KnowledgeStats, MemoryStats, UserSwitchResponse, UsersResponse};
use omniemployee_gui::app::{App, Effect};
use omniemployee_gui::handlers::{
    format_knowledge_stats, format_memory_stats, format_stats, strip_pattern, tidy,
};
use omniemployee_gui::models::{AppConfig, Command, ConnectionStatus, MessageRole};

fn info() -> AgentInfo {
    AgentInfo {
        provider: "acme".to_string(),
        model: "m-1".to_string(),
        skills: vec!["search".to_string(), "code".to_string()],
        tools: vec!["grep".to_string()],
        memory_enabled: true,
        knowledge_enabled: false,
    }
}

#[test]
fn parse_plain_commands() {
    assert!(matches!(Command::parse("/stats"), Some(Command::Stats)));
    assert!(matches!(Command::parse("/memory"), Some(Command::Memory)));
    assert!(matches!(Command::parse("/knowledge"), Some(Command::Knowledge)));
    assert!(matches!(Command::parse("/help"), Some(Command::Help)));
    assert!(matches!(Command::parse("/h"), Some(Command::Help)));
    assert!(matches!(Command::parse("/?"), Some(Command::Help)));
    assert!(matches!(Command::parse("/clear"), Some(Command::Clear)));
    assert!(matches!(Command::parse("/reconnect"), Some(Command::Reconnect)));
}

#[test]
fn parse_lower_cases_the_first_token() {
    assert!(matches!(Command::parse("/HELP"), Some(Command::Help)));
    assert!(matches!(Command::parse("  /Stats  now "), Some(Command::Stats)));
    assert!(matches!(Command::parse("/ClEaR"), Some(Command::Clear)));
    match Command::parse("/FooBar baz") {
        Some(Command::Unknown(name)) => assert_eq!(name, "foobar"),
        other => panic!("unexpected {:?}", other),
    }
}

#[test]
fn parse_rejects_what_is_no_command() {
    assert!(Command::parse("hello").is_none());
    assert!(Command::parse("").is_none());
    assert!(Command::parse("   ").is_none());
    assert!(Command::parse("/").is_none());
    assert!(Command::parse("  /   ").is_none());
    assert!(Command::parse("hello /help").is_none());
}

#[test]
fn parse_config_takes_a_key_and_a_value() {
    match Command::parse("/config show_memory TRUE") {
        Some(Command::Config { key, value }) => {
            assert_eq!(key, "show_memory");
            assert_eq!(value, "TRUE");
        }
        other => panic!("unexpected {:?}", other),
    }
    match Command::parse("/config\tshow_tools \u{3000} false\n") {
        Some(Command::Config { key, value }) => {
            assert_eq!(key, "show_tools");
            assert_eq!(value, "false");
        }
        other => panic!("unexpected {:?}", other),
    }
    assert!(matches!(Command::parse("/config"), Some(Command::Unknown(n)) if n == "config"));
    assert!(matches!(Command::parse("/config key"), Some(Command::Unknown(n)) if n == "config"));
    assert!(matches!(
        Command::parse("/config key value more"),
        Some(Command::Unknown(n)) if n == "config"
    ));
}

#[test]
fn tokens_and_from_parts() {
    let parts = Command::tokens(" /a  b\tc ").unwrap();
    assert_eq!(parts, vec!["a".to_string(), "b".to_string(), "c".to_string()]);
    assert!(Command::tokens("a b").is_none());
    assert_eq!(Command::tokens("/").unwrap().len(), 0);
    let parts = vec!["config".to_string(), "k".to_string(), "v".to_string()];
    assert!(matches!(
        Command::from_parts("config", &parts),
        Command::Config { key, value } if key == "k" && value == "v"
    ));
    assert!(matches!(Command::from_parts("Help", &parts), Command::Unknown(n) if n == "Help"));
}

#[test]
fn help_adds_one_notice() {
    let mut app = App::new();
    let effect = app.send_message_with_text("/help".to_string());
    assert!(matches!(effect, Effect::Nothing));
    assert_eq!(app.messages.len(), 2);
    assert_eq!(app.messages[1].role, MessageRole::System);
    assert_eq!(
        app.messages[1].content,
        "**Available Commands:**\n\n/stats - Show agent statistics\n/memory - Show memory statistics\n/knowledge - Show learned knowledge\n/clear - Clear conversation\n/reconnect - Reconnect to backend\n/config <key> <value> - Update config\n\nConfig keys: show_memory, show_knowledge, show_tools"
    );
    assert!(!app.is_loading);
}

#[test]
fn unknown_command_is_reported() {
    let mut app = App::new();
    let effect = app.send_message_with_text("/Frobnicate now".to_string());
    assert!(matches!(effect, Effect::Nothing));
    assert_eq!(
        app.messages.last().unwrap().content,
        "Unknown command: /frobnicate. Type /help for help."
    );
}

#[test]
fn config_twice_sets_once_and_confirms_twice() {
    let mut app = App::new();
    app.config.show_memory = false;
    app.send_message_with_text("/config show_memory true".to_string());
    assert!(app.config.show_memory);
    app.send_message_with_text("/config show_memory true".to_string());
    assert!(app.config.show_memory);
    assert_eq!(app.messages.len(), 3);
    assert_eq!(app.messages[1].content, "✓ show_memory set to true");
    assert_eq!(app.messages[2].content, "✓ show_memory set to true");
    assert!(app.config.show_knowledge && app.config.show_tool_use);
}

#[test]
fn config_values_and_keys() {
    let mut app = App::new();
    app.handle_command(Command::Config {
        key: "show_knowledge".to_string(),
        value: "no".to_string(),
    });
    assert!(!app.config.show_knowledge);
    assert_eq!(app.messages.last().unwrap().content, "✓ show_knowledge set to false");
    app.handle_command(Command::Config {
        key: "show_knowledge".to_string(),
        value: "TrUe".to_string(),
    });
    assert!(app.config.show_knowledge);
    assert_eq!(app.messages.last().unwrap().content, "✓ show_knowledge set to true");
    app.handle_command(Command::Config { key: "show_tools".to_string(), value: "0".to_string() });
    assert!(!app.config.show_tool_use);
    assert_eq!(app.messages.last().unwrap().content, "✓ show_tools set to false");
    let before = app.config;
    app.handle_command(Command::Config { key: "colour".to_string(), value: "true".to_string() });
    assert_eq!(app.config, before);
    assert_eq!(app.messages.last().unwrap().content, "Unknown config key: colour");
    assert_eq!(app.set_config("show_memory", false), "✓ show_memory set to false");
    assert_eq!(
        app.config,
        AppConfig { show_memory: false, show_knowledge: true, show_tool_use: false }
    );
}

#[test]
fn stats_command_replaces_its_placeholder() {
    let mut app = App::new();
    let effect = app.send_message_with_text("/stats".to_string());
    assert!(matches!(effect, Effect::FetchStats));
    assert_eq!(app.messages.len(), 2);
    assert_eq!(app.messages[1].content, "Fetching stats...");
    app.finish_stats_command(Some(info()));
    assert_eq!(app.messages.len(), 2);
    assert_eq!(
        app.messages[1].content,
        "📊 **Agent Statistics**\n\nModel: m-1\nProvider: acme\nSkills: search, code\nTools: grep\nMemory: enabled\nKnowledge: disabled"
    );
    app.handle_stats_command();
    app.finish_stats_command(None);
    assert_eq!(app.messages.len(), 3);
    assert_eq!(
        app.messages[2].content,
        "📊 **Agent Statistics**\n\nFailed to fetch agent info"
    );
}

#[test]
fn finishing_a_fetch_on_an_empty_log_only_adds() {
    let mut app = App::new();
    app.messages.clear();
    app.finish_memory_command(None);
    assert_eq!(app.messages.len(), 1);
    assert_eq!(
        app.messages[0].content,
        "🧠 **Memory Statistics** (per-user)\n\nMemory system not available"
    );
}

#[test]
fn memory_command_shows_the_sizes() {
    let mut app = App::new();
    let effect = app.send_message_with_text("/memory".to_string());
    assert!(matches!(effect, Effect::FetchMemoryStats));
    assert_eq!(app.messages[1].content, "Fetching memory stats...");
    app.finish_memory_command(Some(MemoryStats {
        l1_count: 3,
        l2_vector_count: 120,
        l2_graph_nodes: 0,
        l2_graph_edges: -1,
        l3_facts: 9,
        l3_links: 1000,
    }));
    assert_eq!(app.messages.len(), 2);
    assert_eq!(
        app.messages[1].content,
        "🧠 **Memory Statistics** (per-user)\n\nL1 Working: 3 nodes\nL2 Vector: 120 nodes\nL2 Graph: 0 nodes, -1 edges\nL3 Facts: 9\nL3 Links: 1000"
    );
    assert_eq!(
        format_memory_stats(&Some(MemoryStats::default())),
        "🧠 **Memory Statistics** (per-user)\n\nL1 Working: 0 nodes\nL2 Vector: 0 nodes\nL2 Graph: 0 nodes, 0 edges\nL3 Facts: 0\nL3 Links: 0"
    );
}

#[test]
fn knowledge_command_shows_the_sizes() {
    let mut app = App::new();
    let effect = app.send_message_with_text("/knowledge".to_string());
    assert!(matches!(effect, Effect::FetchKnowledgeStats));
    assert_eq!(app.messages[1].content, "Fetching knowledge stats...");
    let stats = KnowledgeStats {
        total_triples: 12,
        unique_subjects: 4,
        unique_predicates: 3,
        total_updates: 20,
        pending_confirmations: 1,
        status: None,
    };
    app.finish_knowledge_command(Some(stats.clone()));
    assert_eq!(
        app.messages[1].content,
        "📚 **Knowledge Statistics** (global, shared)\n\nTotal triples: 12\nUnique subjects: 4\nUnique predicates: 3\nTotal updates: 20\nPending confirmations: 1"
    );
    let unavailable = KnowledgeStats { status: Some("unavailable".to_string()), ..stats.clone() };
    assert_eq!(
        format_knowledge_stats(&Some(unavailable)),
        "📚 **Knowledge Statistics** (global, shared)\n\nKnowledge system not available"
    );
    let ready = KnowledgeStats { status: Some("ready".to_string()), ..stats };
    assert!(format_knowledge_stats(&Some(ready)).ends_with("Pending confirmations: 1"));
    assert_eq!(
        format_knowledge_stats(&None),
        "📚 **Knowledge Statistics** (global, shared)\n\nKnowledge system not available"
    );
    assert_eq!(KnowledgeStats::default().total_triples, 0);
    assert!(KnowledgeStats::default().status.is_none());
}

#[test]
fn format_stats_with_empty_lists() {
    let mut i = info();
    i.skills.clear();
    i.tools.clear();
    i.memory_enabled = false;
    i.knowledge_enabled = true;
    assert_eq!(
        format_stats(&Some(i)),
        "📊 **Agent Statistics**\n\nModel: m-1\nProvider: acme\nSkills: \nTools: \nMemory: disabled\nKnowledge: enabled"
    );
}

#[test]
fn clear_asks_first_and_clears_on_completion() {
    let mut app = App::new();
    app.send_message_with_text("/help".to_string());
    let session = app.session_id.clone();
    let effect = app.send_message_with_text("/clear".to_string());
    assert_eq!(app.messages.len(), 2);
    match effect {
        Effect::ClearChat { request } => {
            assert_eq!(
                request.url,
                format!("http://localhost:8765/api/chat/clear?session_id={}", session)
            );
        }
        other => panic!("unexpected effect {:?}", other),
    }
    app.finish_clear_command();
    assert_eq!(app.messages.len(), 1);
    assert_eq!(app.messages[0].role, MessageRole::System);
    assert_eq!(app.messages[0].content, "Conversation cleared.");
    assert!(app.current_tool_calls.is_empty());
    assert_eq!(app.session_id, session);
}

#[test]
fn reconnect_resets_the_log_and_asks_to_connect() {
    let mut app = App::new();
    app.finish_initialize(Err("refused".to_string()));
    app.send_message_with_text("/help".to_string());
    let effect = app.send_message_with_text("/reconnect".to_string());
    assert!(matches!(effect, Effect::Connect));
    assert_eq!(app.messages.len(), 1);
    assert_eq!(app.messages[0].content, "Reconnecting...");
    assert!(matches!(app.connection_status, ConnectionStatus::Connecting));
    assert!(!app.connection_status.is_connected());
}

#[test]
fn connecting_succeeds() {
    let mut app = App::new();
    assert!(matches!(app.initialize(), Effect::Connect));
    app.finish_initialize(Ok(info()));
    assert!(app.connection_status.is_connected());
    assert_eq!(app.agent_model, "m-1");
    assert_eq!(app.agent_provider, "acme");
    assert_eq!(app.agent_skills, vec!["search".to_string(), "code".to_string()]);
    assert_eq!(app.agent_tools, vec!["grep".to_string()]);
    assert!(app.config.show_memory);
    assert!(!app.config.show_knowledge);
    assert!(app.config.show_tool_use);
    assert_eq!(app.messages.len(), 1);
    assert_eq!(
        app.messages[0].content,
        "Connected to OmniEmployee!\nModel: m-1 (acme)\nSkills: search, code\nTools: grep\n\nType a message or use /help for commands."
    );
}

#[test]
fn connecting_without_skills_says_none() {
    let mut app = App::new();
    let mut i = info();
    i.skills.clear();
    i.tools.clear();
    app.finish_initialize(Ok(i));
    assert_eq!(
        app.messages[0].content,
        "Connected to OmniEmployee!\nModel: m-1 (acme)\nSkills: none\nTools: none\n\nType a message or use /help for commands."
    );
}

#[test]
fn connecting_fails() {
    let mut app = App::new();
    app.finish_initialize(Err("connection refused".to_string()));
    match &app.connection_status {
        ConnectionStatus::Error(e) => assert_eq!(e, "Failed to connect: connection refused"),
        other => panic!("unexpected status {:?}", other),
    }
    assert_eq!(app.messages.len(), 1);
    assert_eq!(
        app.messages[0].content,
        "⚠️ Could not connect to backend at http://localhost:8765.\n\nMake sure the server is running:\nuv run uvicorn src.omniemployee.web.app:app --port 8765\n\nUse /reconnect to try again."
    );
}

#[test]
fn users_are_taken_from_the_backend() {
    let mut app = App::new();
    assert_eq!(app.refresh_users().url, "http://localhost:8765/api/users");
    app.finish_refresh_users(UsersResponse {
        users: vec!["alice".to_string(), "bob".to_string()],
        current: "alice".to_string(),
    });
    assert_eq!(app.available_users, vec!["alice".to_string(), "bob".to_string()]);
    assert_eq!(app.current_user_id, "alice");
    assert!(UsersResponse::default().users.is_empty());
}

#[test]
fn switching_asks_with_the_encoded_id() {
    let mut app = App::new();
    match app.switch_user("bob smith") {
        Effect::SwitchUser { request } => {
            assert_eq!(request.url, "http://localhost:8765/api/user/switch?user_id=bob%20smith");
        }
        other => panic!("unexpected effect {:?}", other),
    }
    assert_eq!(app.messages.len(), 1);
    assert_eq!(app.current_user_id, "default");
}

#[test]
fn creating_a_user() {
    let mut app = App::new();
    app.show_user_dropdown = true;
    let name = match app.handle_create_new_user() {
        Effect::CreateUser { request } => {
            let prefix = "http://localhost:8765/api/user/create?user_id=user_";
            assert!(request.url.starts_with(prefix));
            assert_eq!(request.url.len(), prefix.len() + 8);
            request.url[prefix.len() - 5..].to_string()
        }
        other => panic!("unexpected effect {:?}", other),
    };
    let old_session = app.session_id.clone();
    let effect = app.finish_create_user(UserSwitchResponse { success: true, user_id: name.clone() });
    assert!(matches!(effect, Effect::RefreshSidebar));
    assert_eq!(app.current_user_id, name);
    assert_eq!(app.available_users, vec![name.clone()]);
    assert!(!app.show_user_dropdown);
    assert_ne!(app.session_id, old_session);
    assert_eq!(app.messages.len(), 1);
    assert_eq!(
        app.messages[0].content,
        format!("Created and switched to new user: {}\nNew session started.", name)
    );
    app.finish_create_user(UserSwitchResponse { success: true, user_id: name.clone() });
    assert_eq!(app.available_users, vec![name.clone()]);
    let effect = app.finish_create_user(UserSwitchResponse {
        success: false,
        user_id: "other".to_string(),
    });
    assert!(matches!(effect, Effect::Nothing));
    assert_eq!(app.available_users, vec![name]);
}

#[test]
fn cleaning_removes_tool_output() {
    assert_eq!(App::clean_response_content("plain answer"), "plain answer");
    assert_eq!(App::clean_response_content("  padded \n"), "padded");
    assert_eq!(App::clean_response_content("🔧 **grep** done"), "done");
    assert_eq!(
        App::clean_response_content("Before\n🔧 **grep**\n_Searching..._\n```\nout\n```\nAfter"),
        "Before\n\nAfter"
    );
    assert_eq!(App::clean_response_content("A [Summarized from 1200 chars] B"), "A  B");
    assert_eq!(App::clean_response_content("x\n_Reading file..._\ny"), "x\n\ny");
    assert_eq!(App::clean_response_content("a\n```\n\n```\nb"), "a\n\nb");
    assert_eq!(App::clean_response_content("a\n\n\n\n\nb\n\n\nc"), "a\n\nb\n\nc");
    assert_eq!(App::clean_response_content(""), "");
}

#[test]
fn strip_pattern_keeps_the_text_under_a_bad_pattern() {
    assert_eq!(strip_pattern("(", "a(b".to_string()), "a(b");
    assert_eq!(strip_pattern("b+", "abbbc b".to_string()), "ac ");
    assert_eq!(strip_pattern("z", "abc".to_string()), "abc");
}

#[test]
fn tidy_squeezes_and_trims() {
    assert_eq!(tidy("\n\n\na\n\n\n\nb\n\nc\nd \n\n\n"), "a\n\nb\n\nc\nd");
    assert_eq!(tidy("\u{a0} x \u{2003}"), "x");
    assert_eq!(tidy("   "), "");
}

#[test]
fn a_failed_connection_leaves_nothing_loading() {
    let mut app = App::new();
    let target = match app.send_message_with_text("hello".to_string()) {
        Effect::OpenStream { target, .. } => target,
        other => panic!("unexpected effect {:?}", other),
    };
    assert!(app.is_loading);
    app.finish_initialize(Err("timed out".to_string()));
    assert!(!app.is_loading);
    assert!(app.streaming_message_id.is_none());
    assert_eq!(app.messages.len(), 1);
    app.handle_stream_events(
        &target,
        vec![omniemployee_gui::api::StreamEvent::Chunk { content: "late".to_string() }],
    );
    assert_eq!(app.messages.len(), 1);
    assert!(app.messages[0].content.starts_with("⚠️ Could not connect to backend at "));
}

#[test]
fn a_successful_connection_leaves_the_turn_as_it_is() {
    let mut app = App::new();
    let target = match app.send_message_with_text("hello".to_string()) {
        Effect::OpenStream { target, .. } => target,
        other => panic!("unexpected effect {:?}", other),
    };
    app.finish_initialize(Ok(info()));
    assert!(app.is_loading);
    assert_eq!(app.streaming_message_id, Some(target));
}
