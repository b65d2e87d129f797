//! The transitions of a chat turn: submitting a message, applying the
//! events of its stream, and running slash commands.
use crate::api::{
    clear_request, finalize_calls, finalized, knowledge_view, memories_view, stream_calls_view,
    stream_request, tool_calls_view, AgentInfo, AgentInfoView, KnowledgeStats,
    KnowledgeStatsView, MemoryStats, StreamEvent, StreamEventView, ToolCall,
};
use crate::app::{
    abandoned, log_extended, log_reset, without_last, App, AppView, Effect, EffectView,
};
use crate::models::{
    find_live, flat_text, live_position, live_toggled, live_with_result, parse_spec,
    segments_toggled, segments_view, segments_with_result, segments_with_text, settle, settled,
    streaming_message, text_message, AppConfig, ChatMessage, Command, CommandView, ConnectionStatus, ConnectionView,
    InlineToolCall, LiveToolCall, MessageRole, MessageView, SegmentView, ToolEntry, ToolStatus,
};
use crate::text::{
    bool_text, bool_to_string, chars_of, decimal, int_to_string, join, joined,
    squeeze_blank_lines, squeezed, str_eq, string_of, trim, trim_chars, trimmed,
};
use crate::trusted::{
    clock_label, fresh_id, lowercase, lowercased, regex_removed, remove_matches,
};
use vstd::prelude::*;

verus! {

/// The last message of `log` has the id `target`.
pub open spec fn targets_last(log: Seq<MessageView>, target: Seq<char>) -> bool {
    log.len() > 0 && log.last().id == target
}

/// `log` with its last message replaced by `m`.
pub open spec fn with_last(log: Seq<MessageView>, m: MessageView) -> Seq<MessageView> {
    log.update(log.len() - 1, m)
}

/// The record of a tool call that has just started: running, unfolded,
/// without a result.
pub open spec fn started_entry(
    name: Seq<char>,
    arguments: serde_json::Value,
    id: Seq<char>,
) -> ToolEntry {
    ToolEntry {
        id: id,
        name: name,
        arguments: arguments,
        result: None,
        status: ToolStatus::Running,
        expanded: true,
    }
}

/// The text that replaces a message whose stream reported the error
/// `content`.
pub open spec fn error_text(content: Seq<char>) -> Seq<char> {
    "⚠️ Error: "@ + content
}

/// The target message after the event `e` of its stream.
pub open spec fn message_after(m: MessageView, e: StreamEventView) -> MessageView {
    match e {
        StreamEventView::Context { .. } => m,
        StreamEventView::Chunk { content } => MessageView {
            content: m.content + content,
            segments: segments_with_text(m.segments, content),
            ..m
        },
        StreamEventView::ToolStart { name, arguments, id } => MessageView {
            segments: m.segments.push(SegmentView::ToolCall(started_entry(name, arguments, id))),
            ..m
        },
        StreamEventView::ToolResult { id, result } => MessageView {
            segments: segments_with_result(m.segments, id, result, ToolStatus::Completed),
            ..m
        },
        StreamEventView::Done { tool_calls } => MessageView {
            tool_calls: finalized(tool_calls),
            content: flat_text(m.segments),
            ..m
        },
        StreamEventView::Error { content } => MessageView {
            content: error_text(content),
            role: MessageRole::System,
            segments: Seq::empty(),
            ..m
        },
    }
}

/// The log after the event `e` of the stream that targets `target`: the
/// last message changes if it is the target, and nothing else ever does.
pub open spec fn log_after(
    log: Seq<MessageView>,
    target: Seq<char>,
    e: StreamEventView,
) -> Seq<MessageView> {
    if targets_last(log, target) {
        with_last(log, message_after(log.last(), e))
    } else {
        log
    }
}

/// The state after the event `e` of the stream that was opened for the
/// message `target`. An event of a stream that is not the active one is
/// dropped: the state stays as it is.
pub open spec fn apply_event(s: AppView, target: Seq<char>, e: StreamEventView) -> AppView {
    if s.streaming_message_id != Some(target) {
        s
    } else {
        match e {
            StreamEventView::Context { memories, knowledge } => AppView {
                current_context_memories: memories,
                current_context_knowledge: knowledge,
                ..s
            },
            StreamEventView::Chunk { content } => AppView {
                streaming_content: s.streaming_content + content,
                messages: log_after(s.messages, target, e),
                ..s
            },
            StreamEventView::ToolStart { name, arguments, id } => if find_live(
                s.live_tool_calls,
                id,
                0,
            ) < s.live_tool_calls.len() {
                s
            } else {
                AppView {
                    live_tool_calls: s.live_tool_calls.push(started_entry(name, arguments, id)),
                    tool_expanded: true,
                    messages: log_after(s.messages, target, e),
                    ..s
                }
            },
            StreamEventView::ToolResult { id, result } => AppView {
                live_tool_calls: live_with_result(s.live_tool_calls, id, result),
                messages: log_after(s.messages, target, e),
                ..s
            },
            StreamEventView::Done { tool_calls } => AppView {
                current_tool_calls: finalized(tool_calls),
                live_tool_calls: settled(s.live_tool_calls, ToolStatus::Completed),
                messages: log_after(s.messages, target, e),
                is_loading: false,
                streaming_message_id: None,
                ..s
            },
            StreamEventView::Error { content } => AppView {
                live_tool_calls: settled(s.live_tool_calls, ToolStatus::Failed),
                messages: log_after(s.messages, target, e),
                is_loading: false,
                streaming_message_id: None,
                ..s
            },
        }
    }
}

/// What the caller has to do after the event `e`: reload the sidebar when
/// the active stream closes, else nothing.
pub open spec fn event_effect(s: AppView, target: Seq<char>, e: StreamEventView) -> EffectView {
    if s.streaming_message_id == Some(target) && e is Done {
        EffectView::RefreshSidebar
    } else {
        EffectView::Nothing
    }
}

/// The state after the events `events` of the stream that was opened for
/// the message `target`, applied in order.
pub open spec fn apply_events(
    s: AppView,
    target: Seq<char>,
    events: Seq<StreamEventView>,
) -> AppView
    decreases events.len(),
{
    if events.len() == 0 {
        s
    } else {
        apply_event(apply_events(s, target, events.drop_last()), target, events.last())
    }
}

/// The views of a vector of events.
pub open spec fn events_view(v: Seq<StreamEvent>) -> Seq<StreamEventView> {
    v.map_values(|e: StreamEvent| e@)
}

/// Whether one of the events `events`, applied in order from the state
/// `s`, closes the active stream, so that the sidebar is to be reloaded.
pub open spec fn refresh_due(s: AppView, target: Seq<char>, events: Seq<StreamEventView>) -> bool
    decreases events.len(),
{
    if events.len() == 0 {
        false
    } else {
        refresh_due(s, target, events.drop_last()) || event_effect(
            apply_events(s, target, events.drop_last()),
            target,
            events.last(),
        ) is RefreshSidebar
    }
}

impl App {
    /// Whether the stream that was opened for the message `target` is the
    /// active one.
    pub fn is_active_stream(&self, target: &str) -> (b: bool)
        ensures
            b == (self@.streaming_message_id == Some(target@)),
    {
        match &self.streaming_message_id {
            Some(id) => str_eq(id.as_str(), target),
            None => false,
        }
    }

    /// Whether the last message of the log has the id `target`.
    pub fn last_message_is(&self, target: &str) -> (b: bool)
        ensures
            b == targets_last(self@.messages, target@),
    {
        let n = self.messages.len();
        n > 0 && str_eq(self.messages[n - 1].id.as_str(), target)
    }

    fn on_context(
        &mut self,
        target: &str,
        memories: Vec<crate::api::ContextMemory>,
        knowledge: Vec<crate::api::ContextKnowledge>,
    )
        requires
            old(self)@.streaming_message_id == Some(target@),
        ensures
            final(self)@ == apply_event(
                old(self)@,
                target@,
                StreamEventView::Context {
                    memories: memories_view(memories@),
                    knowledge: knowledge_view(knowledge@),
                },
            ),
    {
        self.current_context_memories = memories;
        self.current_context_knowledge = knowledge;
    }

    fn on_chunk(&mut self, target: &str, content: String)
        requires
            old(self)@.streaming_message_id == Some(target@),
        ensures
            final(self)@ == apply_event(
                old(self)@,
                target@,
                StreamEventView::Chunk { content: content@ },
            ),
    {
        let ghost e = StreamEventView::Chunk { content: content@ };
        let ghost log = self@.messages;
        self.streaming_content.append(content.as_str());
        if self.last_message_is(target) {
            let n = self.messages.len();
            self.messages[n - 1].append_text(content.as_str());
            assert(self@.messages =~= log_after(log, target@, e));
        }
    }

    fn on_tool_start(&mut self, target: &str, name: String, arguments: serde_json::Value, id: String)
        requires
            old(self)@.streaming_message_id == Some(target@),
        ensures
            final(self)@ == apply_event(
                old(self)@,
                target@,
                StreamEventView::ToolStart { name: name@, arguments: arguments, id: id@ },
            ),
    {
        let ghost e = StreamEventView::ToolStart { name: name@, arguments: arguments, id: id@ };
        let ghost log = self@.messages;
        let ghost live = self@.live_tool_calls;
        if live_position(&self.live_tool_calls, id.as_str()) < self.live_tool_calls.len() {
            return ;
        }
        self.live_tool_calls.push(
            LiveToolCall {
                id: id.clone(),
                name: name.clone(),
                arguments: arguments.clone(),
                result: None,
                status: ToolStatus::Running,
                expanded: true,
            },
        );
        assert(self@.live_tool_calls =~= live.push(started_entry(name@, arguments, id@)));
        self.tool_expanded = true;
        if self.last_message_is(target) {
            let n = self.messages.len();
            self.messages[n - 1].add_tool_call(
                InlineToolCall {
                    id,
                    name,
                    arguments,
                    result: None,
                    status: ToolStatus::Running,
                    expanded: true,
                },
            );
            assert(self@.messages =~= log_after(log, target@, e));
        }
    }

    fn on_tool_result(&mut self, target: &str, id: String, result: String)
        requires
            old(self)@.streaming_message_id == Some(target@),
        ensures
            final(self)@ == apply_event(
                old(self)@,
                target@,
                StreamEventView::ToolResult { id: id@, result: result@ },
            ),
    {
        let ghost e = StreamEventView::ToolResult { id: id@, result: result@ };
        let ghost log = self@.messages;
        let ghost live = self@.live_tool_calls;
        let i = live_position(&self.live_tool_calls, id.as_str());
        if i < self.live_tool_calls.len() {
            self.live_tool_calls[i].result = Some(result.clone());
            self.live_tool_calls[i].status = ToolStatus::Completed;
            assert(self@.live_tool_calls =~= live_with_result(live, id@, result@));
        }
        if self.last_message_is(target) {
            let n = self.messages.len();
            self.messages[n - 1].update_tool_result(id.as_str(), result, ToolStatus::Completed);
            assert(self@.messages =~= log_after(log, target@, e));
        }
    }

    fn on_done(&mut self, target: &str, tool_calls: Vec<crate::api::StreamToolCall>)
        requires
            old(self)@.streaming_message_id == Some(target@),
        ensures
            final(self)@ == apply_event(
                old(self)@,
                target@,
                StreamEventView::Done { tool_calls: stream_calls_view(tool_calls@) },
            ),
    {
        let ghost e = StreamEventView::Done { tool_calls: stream_calls_view(tool_calls@) };
        let ghost log = self@.messages;
        self.current_tool_calls = finalize_calls(&tool_calls);
        settle(&mut self.live_tool_calls, ToolStatus::Completed);
        if self.last_message_is(target) {
            let n = self.messages.len();
            let calls = finalize_calls(&tool_calls);
            self.messages[n - 1].tool_calls = calls;
            assert(self.messages@[n - 1]@ == (MessageView {
                tool_calls: finalized(stream_calls_view(tool_calls@)),
                ..log[n - 1]
            }));
            self.messages[n - 1].rebuild_content();
            assert(self.messages@[n - 1]@ == message_after(log[n - 1], e));
            assert(self@.messages =~= log_after(log, target@, e));
        }
        self.is_loading = false;
        self.streaming_message_id = None;
    }

    fn on_error(&mut self, target: &str, content: String)
        requires
            old(self)@.streaming_message_id == Some(target@),
        ensures
            final(self)@ == apply_event(
                old(self)@,
                target@,
                StreamEventView::Error { content: content@ },
            ),
    {
        let ghost e = StreamEventView::Error { content: content@ };
        let ghost log = self@.messages;
        if self.last_message_is(target) {
            let n = self.messages.len();
            let mut text = "⚠️ Error: ".to_owned();
            text.append(content.as_str());
            self.messages[n - 1].content = text;
            self.messages[n - 1].role = MessageRole::System;
            self.messages[n - 1].segments = Vec::new();
            assert(segments_view(self.messages@[n - 1].segments@) =~= Seq::empty());
            assert(self.messages@[n - 1]@ == message_after(log[n - 1], e));
            assert(self@.messages =~= log_after(log, target@, e));
        }
        settle(&mut self.live_tool_calls, ToolStatus::Failed);
        self.is_loading = false;
        self.streaming_message_id = None;
    }

    /// Applies one event of the stream that was opened for the message
    /// `target`. While that stream is the active one, the event changes
    /// the context, the live registry and the target message as
    /// `apply_event` says, and a closing or failing event ends the turn.
    /// An event of any other stream changes nothing.
    pub fn handle_stream_event(&mut self, target: &str, event: StreamEvent) -> (effect: Effect)
        ensures
            final(self)@ == apply_event(old(self)@, target@, event@),
            effect@ == event_effect(old(self)@, target@, event@),
    {
        if !self.is_active_stream(target) {
            return Effect::Nothing;
        }
        match event {
            StreamEvent::Context { memories, knowledge } => {
                self.on_context(target, memories, knowledge);
                Effect::Nothing
            },
            StreamEvent::Chunk { content } => {
                self.on_chunk(target, content);
                Effect::Nothing
            },
            StreamEvent::ToolStart { name, arguments, id } => {
                self.on_tool_start(target, name, arguments, id);
                Effect::Nothing
            },
            StreamEvent::ToolResult { id, result } => {
                self.on_tool_result(target, id, result);
                Effect::Nothing
            },
            StreamEvent::Done { tool_calls } => {
                self.on_done(target, tool_calls);
                Effect::RefreshSidebar
            },
            StreamEvent::Error { content } => {
                self.on_error(target, content);
                Effect::Nothing
            },
        }
    }

    /// Applies the events `events` of the stream that was opened for the
    /// message `target`, one at a time and in their order, and says whether
    /// one of them asked for the sidebar to be reloaded.
    pub fn handle_stream_events(&mut self, target: &str, events: Vec<StreamEvent>) -> (refresh:
        bool)
        ensures
            final(self)@ == apply_events(old(self)@, target@, events_view(events@)),
            refresh == refresh_due(old(self)@, target@, events_view(events@)),
    {
        let ghost all = events_view(events@);
        let mut rest = events;
        let mut queue: Vec<StreamEvent> = Vec::new();
        assert(events_view(rest@) + events_view(queue@).reverse() =~= all);
        while rest.len() > 0
            invariant
                events_view(rest@) + events_view(queue@).reverse() == all,
            decreases rest@.len(),
        {
            let ghost r = events_view(rest@);
            let ghost q = events_view(queue@);
            let e = rest.pop().unwrap();
            queue.push(e);
            assert(events_view(rest@) =~= r.drop_last());
            assert(events_view(queue@) =~= q.push(e@));
            assert(q.push(e@).reverse() =~= seq![e@] + q.reverse());
            assert(r.drop_last() + (seq![e@] + q.reverse()) =~= r + q.reverse());
        }
        let mut refresh = false;
        let ghost mut done: Seq<StreamEventView> = Seq::empty();
        assert(done + events_view(queue@).reverse() =~= all);
        while queue.len() > 0
            invariant
                done + events_view(queue@).reverse() == all,
                self@ == apply_events(old(self)@, target@, done),
                refresh == refresh_due(old(self)@, target@, done),
            decreases queue@.len(),
        {
            let ghost q = events_view(queue@);
            let ghost before = done;
            let e = queue.pop().unwrap();
            proof {
                done = done.push(e@);
                assert(events_view(queue@) =~= q.drop_last());
                assert(q.reverse() =~= seq![e@] + q.drop_last().reverse());
                assert(done + q.drop_last().reverse() =~= before + q.reverse());
                assert(done.drop_last() =~= before);
            }
            let effect = self.handle_stream_event(target, e);
            match effect {
                Effect::RefreshSidebar => {
                    refresh = true;
                },
                _ => {},
            }
        }
        assert(done =~= all);
        refresh
    }
}

/// The log after the first message with the id `msg_id` had its tool call
/// `tool_id` folded or unfolded, looking from position `from` on.
pub open spec fn log_toggled(
    log: Seq<MessageView>,
    msg_id: Seq<char>,
    tool_id: Seq<char>,
    from: int,
) -> Seq<MessageView>
    decreases log.len() - from,
{
    if from < 0 || from >= log.len() {
        log
    } else if log[from].id == msg_id {
        log.update(
            from,
            MessageView { segments: segments_toggled(log[from].segments, tool_id), ..log[from] },
        )
    } else {
        log_toggled(log, msg_id, tool_id, from + 1)
    }
}

/// The user's message that opens a turn.
pub open spec fn user_message(id: Seq<char>, timestamp: Seq<char>, text: Seq<char>) -> MessageView {
    text_message(id, timestamp, MessageRole::User, text, Seq::empty())
}

/// The empty message that a stream fills.
pub open spec fn placeholder(id: Seq<char>, timestamp: Seq<char>) -> MessageView {
    streaming_message(id, timestamp)
}

/// The state after a turn was opened for the message `text`, where `user`
/// is the user's message and `target` the empty message that the stream
/// fills: both stand at the end of the log, the target's id is the fence of
/// the stream, and what the last turn left in the registry and the
/// accumulator is gone.
pub open spec fn turn_state(before: AppView, user: MessageView, target: MessageView) -> AppView {
    AppView {
        messages: before.messages.push(user).push(target),
        is_loading: true,
        current_tool_calls: Seq::empty(),
        live_tool_calls: Seq::empty(),
        streaming_content: Seq::empty(),
        streaming_message_id: Some(target.id),
        ..before
    }
}

/// `after` is `before` with a turn opened for the message `text`: the log
/// has grown by the user's message and an empty placeholder, the
/// placeholder is the target of the stream, and what the last turn left in
/// the registry and the accumulator is gone.
pub open spec fn turn_begun(before: AppView, text: Seq<char>, after: AppView) -> bool {
    let n = before.messages.len() as int;
    &&& after.messages.len() == n + 2
    &&& after.messages.subrange(0, n) == before.messages
    &&& after.messages[n] == user_message(after.messages[n].id, after.messages[n].timestamp, text)
    &&& after.messages[n + 1] == placeholder(
        after.messages[n + 1].id,
        after.messages[n + 1].timestamp,
    )
    &&& after == (AppView {
        messages: after.messages,
        is_loading: true,
        current_tool_calls: Seq::empty(),
        live_tool_calls: Seq::empty(),
        streaming_content: Seq::empty(),
        streaming_message_id: Some(after.messages[n + 1].id),
        ..before
    })
}

/// The effect that opens the stream of the turn that `after` is in.
pub open spec fn stream_opening(after: AppView, text: Seq<char>) -> EffectView {
    EffectView::OpenStream {
        request: stream_request(after.base_url, text, Some(after.session_id)),
        target: after.messages.last().id,
    }
}

/// The notice after a stream broke off with the transport error `error`.
pub open spec fn transport_failure_text(error: Seq<char>) -> Seq<char> {
    "⚠️ Error: "@ + error + ". Is the backend running?"@
}

/// What the help command shows.
pub const HELP_TEXT: &'static str =
    "**Available Commands:**\n\n/stats - Show agent statistics\n/memory - Show memory statistics\n/knowledge - Show learned knowledge\n/clear - Clear conversation\n/reconnect - Reconnect to backend\n/config <key> <value> - Update config\n\nConfig keys: show_memory, show_knowledge, show_tools";

/// What the log says while the agent's description is fetched.
pub const FETCHING_STATS_TEXT: &'static str = "Fetching stats...";

/// What the log says while the memory sizes are fetched.
pub const FETCHING_MEMORY_TEXT: &'static str = "Fetching memory stats...";

/// What the log says while the knowledge sizes are fetched.
pub const FETCHING_KNOWLEDGE_TEXT: &'static str = "Fetching knowledge stats...";

/// What the log says after the conversation was cleared.
pub const CLEARED_TEXT: &'static str = "Conversation cleared.";

/// What the log says while a new connection attempt runs.
pub const RECONNECTING_TEXT: &'static str = "Reconnecting...";

/// The settings after the key `key` was set to `flag`. An unknown key
/// changes nothing.
pub open spec fn config_after(config: AppConfig, key: Seq<char>, flag: bool) -> AppConfig {
    if key == "show_memory"@ {
        AppConfig { show_memory: flag, ..config }
    } else if key == "show_knowledge"@ {
        AppConfig { show_knowledge: flag, ..config }
    } else if key == "show_tools"@ {
        AppConfig { show_tool_use: flag, ..config }
    } else {
        config
    }
}

/// The confirmation after the key `key` was set to `flag`.
pub open spec fn config_reply(key: Seq<char>, flag: bool) -> Seq<char> {
    if key == "show_memory"@ {
        "✓ show_memory set to "@ + bool_text(flag)
    } else if key == "show_knowledge"@ {
        "✓ show_knowledge set to "@ + bool_text(flag)
    } else if key == "show_tools"@ {
        "✓ show_tools set to "@ + bool_text(flag)
    } else {
        "Unknown config key: "@ + key
    }
}

/// The flag that the value `value` of a config command stands for: set
/// exactly if the value, lower-cased, reads `true`.
pub open spec fn config_flag(value: Seq<char>) -> bool {
    lowercased(value) == "true"@
}

/// The reply to a command that the client does not know.
pub open spec fn unknown_command_text(name: Seq<char>) -> Seq<char> {
    "Unknown command: /"@ + name + ". Type /help for help."@
}

/// `after` is `before` with one notice with the text `text` added to the
/// log and nothing else changed.
pub open spec fn noticed(before: AppView, after: AppView, text: Seq<char>) -> bool {
    &&& after == (AppView { messages: after.messages, ..before })
    &&& log_extended(before.messages, after.messages, text)
}

/// The command `c` takes the state `before` to `after` and leaves the
/// caller `effect` to do.
pub open spec fn command_outcome(
    before: AppView,
    c: CommandView,
    after: AppView,
    effect: EffectView,
) -> bool {
    match c {
        CommandView::Help => noticed(before, after, HELP_TEXT@) && effect is Nothing,
        CommandView::Stats => noticed(before, after, FETCHING_STATS_TEXT@) && effect is FetchStats,
        CommandView::Memory => noticed(before, after, FETCHING_MEMORY_TEXT@)
            && effect is FetchMemoryStats,
        CommandView::Knowledge => noticed(before, after, FETCHING_KNOWLEDGE_TEXT@)
            && effect is FetchKnowledgeStats,
        CommandView::Clear => after == before && effect == (EffectView::ClearChat {
            request: clear_request(before.base_url, Some(before.session_id)),
        }),
        CommandView::Reconnect => {
            &&& after == (AppView {
                messages: after.messages,
                connection_status: ConnectionView::Connecting,
                ..abandoned(before)
            })
            &&& log_reset(after.messages, RECONNECTING_TEXT@)
            &&& effect is Connect
        },
        CommandView::Config { key, value } => {
            &&& noticed(
                AppView { config: config_after(before.config, key, config_flag(value)), ..before },
                after,
                config_reply(key, config_flag(value)),
            )
            &&& effect is Nothing
        },
        CommandView::Unknown(name) => noticed(before, after, unknown_command_text(name))
            && effect is Nothing,
    }
}

/// What the statistics command shows for the agent's description, or for
/// the lack of one.
pub open spec fn stats_text(info: Option<AgentInfoView>) -> Seq<char> {
    match info {
        Some(i) => "📊 **Agent Statistics**\n\n"@ + "Model: "@ + i.model + "\n"@ + "Provider: "@
            + i.provider + "\n"@ + "Skills: "@ + joined(i.skills, ", "@) + "\n"@ + "Tools: "@
            + joined(i.tools, ", "@) + "\n"@ + "Memory: "@ + enabled_text(i.memory_enabled)
            + "\n"@ + "Knowledge: "@ + enabled_text(i.knowledge_enabled),
        None => "📊 **Agent Statistics**\n\n"@ + "Failed to fetch agent info"@,
    }
}

/// `enabled` or `disabled`.
pub open spec fn enabled_text(b: bool) -> Seq<char> {
    if b {
        "enabled"@
    } else {
        "disabled"@
    }
}

/// What the memory command shows for the sizes of the tiers, or for the
/// lack of them.
pub open spec fn memory_text(stats: Option<MemoryStats>) -> Seq<char> {
    match stats {
        Some(m) => "🧠 **Memory Statistics** (per-user)\n\n"@ + "L1 Working: "@ + decimal(
            m.l1_count as int,
        ) + " nodes\n"@ + "L2 Vector: "@ + decimal(m.l2_vector_count as int) + " nodes\n"@
            + "L2 Graph: "@ + decimal(m.l2_graph_nodes as int) + " nodes, "@ + decimal(
            m.l2_graph_edges as int,
        ) + " edges\n"@ + "L3 Facts: "@ + decimal(m.l3_facts as int) + "\n"@ + "L3 Links: "@
            + decimal(m.l3_links as int),
        None => "🧠 **Memory Statistics** (per-user)\n\n"@ + "Memory system not available"@,
    }
}

/// The knowledge store answered and did not report itself unavailable.
pub open spec fn knowledge_available(stats: Option<KnowledgeStatsView>) -> bool {
    stats is Some && stats->0.status != Some("unavailable"@)
}

/// What the knowledge command shows for the sizes of the store, or for the
/// lack of them.
pub open spec fn knowledge_text(stats: Option<KnowledgeStatsView>) -> Seq<char> {
    if knowledge_available(stats) {
        let k = stats->0;
        "📚 **Knowledge Statistics** (global, shared)\n\n"@ + "Total triples: "@ + decimal(
            k.total_triples,
        ) + "\n"@ + "Unique subjects: "@ + decimal(k.unique_subjects) + "\n"@
            + "Unique predicates: "@ + decimal(k.unique_predicates) + "\n"@ + "Total updates: "@
            + decimal(k.total_updates) + "\n"@ + "Pending confirmations: "@ + decimal(
            k.pending_confirmations,
        )
    } else {
        "📚 **Knowledge Statistics** (global, shared)\n\n"@ + "Knowledge system not available"@
    }
}

/// `after` is the state that a transport failure of the stream for
/// `target` leaves: while that stream is active and loading, the log gains
/// the failure notice, the turn ends and what was running has failed; in
/// any other state nothing changes.
pub open spec fn failure_outcome(
    before: AppView,
    target: Seq<char>,
    error: Seq<char>,
    after: AppView,
) -> bool {
    if before.is_loading && before.streaming_message_id == Some(target) {
        &&& after == (AppView { messages: after.messages, ..abandoned(before) })
        &&& log_extended(before.messages, after.messages, transport_failure_text(error))
    } else {
        after == before
    }
}

/// Shows the agent's description, or says that there is none.
pub fn format_stats(info: &Option<AgentInfo>) -> (r: String)
    ensures
        r@ == stats_text(
            match *info {
                Some(i) => Some(i@),
                None => None,
            },
        ),
{
    let mut text = "📊 **Agent Statistics**\n\n".to_owned();
    match info {
        Some(i) => {
            text.append("Model: ");
            text.append(i.model.as_str());
            text.append("\n");
            text.append("Provider: ");
            text.append(i.provider.as_str());
            text.append("\n");
            text.append("Skills: ");
            let skills = join(&i.skills, ", ");
            text.append(skills.as_str());
            text.append("\n");
            text.append("Tools: ");
            let tools = join(&i.tools, ", ");
            text.append(tools.as_str());
            text.append("\n");
            text.append("Memory: ");
            text.append(
                if i.memory_enabled {
                    "enabled"
                } else {
                    "disabled"
                },
            );
            text.append("\n");
            text.append("Knowledge: ");
            text.append(
                if i.knowledge_enabled {
                    "enabled"
                } else {
                    "disabled"
                },
            );
        },
        None => {
            text.append("Failed to fetch agent info");
        },
    }
    text
}

/// Shows the sizes of the memory tiers, or says that there are none.
pub fn format_memory_stats(stats: &Option<MemoryStats>) -> (r: String)
    ensures
        r@ == memory_text(*stats),
{
    let mut text = "🧠 **Memory Statistics** (per-user)\n\n".to_owned();
    match stats {
        Some(m) => {
            text.append("L1 Working: ");
            text.append(int_to_string(m.l1_count).as_str());
            text.append(" nodes\n");
            text.append("L2 Vector: ");
            text.append(int_to_string(m.l2_vector_count).as_str());
            text.append(" nodes\n");
            text.append("L2 Graph: ");
            text.append(int_to_string(m.l2_graph_nodes).as_str());
            text.append(" nodes, ");
            text.append(int_to_string(m.l2_graph_edges).as_str());
            text.append(" edges\n");
            text.append("L3 Facts: ");
            text.append(int_to_string(m.l3_facts).as_str());
            text.append("\n");
            text.append("L3 Links: ");
            text.append(int_to_string(m.l3_links).as_str());
        },
        None => {
            text.append("Memory system not available");
        },
    }
    text
}

/// Shows the sizes of the knowledge store, or says that there are none.
pub fn format_knowledge_stats(stats: &Option<KnowledgeStats>) -> (r: String)
    ensures
        r@ == knowledge_text(
            match *stats {
                Some(k) => Some(k@),
                None => None,
            },
        ),
{
    let mut text = "📚 **Knowledge Statistics** (global, shared)\n\n".to_owned();
    let available = match stats {
        Some(k) => match &k.status {
            Some(status) => !str_eq(status.as_str(), "unavailable"),
            None => true,
        },
        None => false,
    };
    if available {
        match stats {
            Some(k) => {
                text.append("Total triples: ");
                text.append(int_to_string(k.total_triples).as_str());
                text.append("\n");
                text.append("Unique subjects: ");
                text.append(int_to_string(k.unique_subjects).as_str());
                text.append("\n");
                text.append("Unique predicates: ");
                text.append(int_to_string(k.unique_predicates).as_str());
                text.append("\n");
                text.append("Total updates: ");
                text.append(int_to_string(k.total_updates).as_str());
                text.append("\n");
                text.append("Pending confirmations: ");
                text.append(int_to_string(k.pending_confirmations).as_str());
            },
            None => {},
        }
    } else {
        text.append("Knowledge system not available");
    }
    text
}

impl App {
    /// Folds or unfolds the first entry of the live registry with the id
    /// `tool_id`, and says whether there was one.
    pub fn toggle_tool_call(&mut self, tool_id: &str) -> (found: bool)
        ensures
            final(self)@ == (AppView {
                live_tool_calls: live_toggled(old(self)@.live_tool_calls, tool_id@),
                ..old(self)@
            }),
            found == (find_live(old(self)@.live_tool_calls, tool_id@, 0)
                < old(self)@.live_tool_calls.len()),
    {
        let ghost live = self@.live_tool_calls;
        let i = live_position(&self.live_tool_calls, tool_id);
        if i < self.live_tool_calls.len() {
            let expanded = self.live_tool_calls[i].expanded;
            self.live_tool_calls[i].expanded = !expanded;
            assert(self@.live_tool_calls =~= live_toggled(live, tool_id@));
            true
        } else {
            false
        }
    }

    /// Folds or unfolds the tool call `tool_id` inside the first message
    /// with the id `msg_id`; does nothing if the log holds no such message.
    pub fn toggle_inline_tool(&mut self, msg_id: &str, tool_id: &str)
        ensures
            final(self)@ == (AppView {
                messages: log_toggled(old(self)@.messages, msg_id@, tool_id@, 0),
                ..old(self)@
            }),
    {
        let ghost log = self@.messages;
        let mut i: usize = 0;
        while i < self.messages.len()
            invariant
                i <= self.messages@.len(),
                *self == *old(self),
                log == old(self)@.messages,
                log_toggled(log, msg_id@, tool_id@, 0) == log_toggled(
                    log,
                    msg_id@,
                    tool_id@,
                    i as int,
                ),
            decreases self.messages@.len() - i,
        {
            if str_eq(self.messages[i].id.as_str(), msg_id) {
                self.messages[i].toggle_tool_expanded(tool_id);
                assert(self@.messages =~= log_toggled(log, msg_id@, tool_id@, i as int));
                return ;
            }
            i = i + 1;
        }
    }

    /// Opens a turn for the message `text`, unless one is in flight. The
    /// user's message gets the id `user_id` and the time label
    /// `user_label`; the empty message that the stream fills gets
    /// `stream_id` and `stream_label`, and `stream_id` is the fence of the
    /// stream: the effect names it as the target. While a turn is in
    /// flight nothing changes and nothing is left to do.
    pub fn open_turn_with(
        &mut self,
        text: &str,
        user_id: String,
        user_label: String,
        stream_id: String,
        stream_label: String,
    ) -> (effect: Effect)
        ensures
            old(self)@.is_loading ==> final(self)@ == old(self)@ && effect@ is Nothing,
            !old(self)@.is_loading ==> {
                &&& final(self)@ == turn_state(
                    old(self)@,
                    user_message(user_id@, user_label@, text@),
                    placeholder(stream_id@, stream_label@),
                )
                &&& effect@ == (EffectView::OpenStream {
                    request: stream_request(
                        old(self)@.base_url,
                        text@,
                        Some(old(self)@.session_id),
                    ),
                    target: stream_id@,
                })
            },
    {
        if self.is_loading {
            return Effect::Nothing;
        }
        let ghost log = self@.messages;
        let no_calls: Vec<ToolCall> = Vec::new();
        assert(tool_calls_view(no_calls@) =~= Seq::empty());
        let user = ChatMessage::with_text(user_id, user_label, MessageRole::User, text, no_calls);
        let target = stream_id.clone();
        let stream_msg = ChatMessage::streaming_with(stream_id, stream_label);
        self.messages.push(user);
        self.is_loading = true;
        self.current_tool_calls = Vec::new();
        self.live_tool_calls = Vec::new();
        self.streaming_message_id = Some(target.clone());
        self.streaming_content = String::new();
        self.messages.push(stream_msg);
        assert(self@.messages =~= log.push(user@).push(stream_msg@));
        assert(self@.current_tool_calls =~= Seq::empty());
        assert(self@.live_tool_calls =~= Seq::empty());
        let request = self.api_client.chat_stream(text, Some(self.session_id.clone()));
        Effect::OpenStream { request, target }
    }

    fn begin_turn(&mut self, text: &str) -> (effect: Effect)
        requires
            !old(self)@.is_loading,
        ensures
            turn_begun(old(self)@, text@, final(self)@),
            effect@ == stream_opening(final(self)@, text@),
    {
        let ghost log = self@.messages;
        let effect = self.open_turn_with(text, fresh_id(), clock_label(), fresh_id(), clock_label());
        assert(self@.messages.subrange(0, log.len() as int) =~= log);
        effect
    }

    /// Submits what the user typed. Blank input, and any input while a
    /// turn is in flight, is dropped: the state stays as it is and nothing
    /// is left to do. Input that reads as a command runs as one. Any other
    /// input opens a turn: the log gains the user's message and an empty
    /// placeholder, and the effect tells the caller to open the stream.
    pub fn send_message_with_text(&mut self, text: String) -> (effect: Effect)
        ensures
            ({
                let t = trimmed(text@);
                if t.len() == 0 || old(self)@.is_loading {
                    final(self)@ == old(self)@ && effect@ is Nothing
                } else {
                    match parse_spec(t) {
                        Some(c) => command_outcome(old(self)@, c, final(self)@, effect@),
                        None => turn_begun(old(self)@, t, final(self)@) && effect@
                            == stream_opening(final(self)@, t),
                    }
                }
            }),
    {
        let text = trim(text.as_str());
        if text.as_str().is_empty() || self.is_loading {
            return Effect::Nothing;
        }
        match Command::parse(text.as_str()) {
            Some(command) => self.handle_command(command),
            None => self.begin_turn(text.as_str()),
        }
    }

    /// Takes in the transport failure `error` of the stream that was opened
    /// for the message `target`. While that stream is still the active
    /// one, the log gains a notice and the turn ends; a failure of a stream
    /// that has already ended, or was abandoned, changes nothing.
    pub fn handle_stream_failure(&mut self, target: &str, error: &str)
        ensures
            failure_outcome(old(self)@, target@, error@, final(self)@),
    {
        if self.is_loading && self.is_active_stream(target) {
            let mut text = "⚠️ Error: ".to_owned();
            text.append(error);
            text.append(". Is the backend running?");
            self.abandon_stream();
            self.push_notice(text.as_str());
        }
    }

    /// Sets the setting `key` to `flag` and returns the confirmation. An
    /// unknown key changes nothing and is reported as such.
    pub fn set_config(&mut self, key: &str, flag: bool) -> (reply: String)
        ensures
            final(self)@ == (AppView {
                config: config_after(old(self)@.config, key@, flag),
                ..old(self)@
            }),
            reply@ == config_reply(key@, flag),
    {
        if str_eq(key, "show_memory") {
            self.config.show_memory = flag;
            let mut reply = "✓ show_memory set to ".to_owned();
            reply.append(bool_to_string(flag).as_str());
            reply
        } else if str_eq(key, "show_knowledge") {
            self.config.show_knowledge = flag;
            let mut reply = "✓ show_knowledge set to ".to_owned();
            reply.append(bool_to_string(flag).as_str());
            reply
        } else if str_eq(key, "show_tools") {
            self.config.show_tool_use = flag;
            let mut reply = "✓ show_tools set to ".to_owned();
            reply.append(bool_to_string(flag).as_str());
            reply
        } else {
            let mut reply = "Unknown config key: ".to_owned();
            reply.append(key);
            reply
        }
    }

    /// Runs a slash command. Help, config and unknown commands answer at
    /// once with a notice. The statistics commands put a placeholder into
    /// the log and leave the fetch to the caller. Clear leaves the request
    /// to the caller and changes nothing yet. Reconnect empties the log,
    /// abandons a turn in flight and leaves the connection attempt to the
    /// caller.
    pub fn handle_command(&mut self, command: Command) -> (effect: Effect)
        ensures
            command_outcome(old(self)@, command@, final(self)@, effect@),
    {
        match command {
            Command::Help => {
                self.push_notice(HELP_TEXT);
                Effect::Nothing
            },
            Command::Stats => self.handle_stats_command(),
            Command::Memory => self.handle_memory_command(),
            Command::Knowledge => self.handle_knowledge_command(),
            Command::Clear => self.handle_clear_command(),
            Command::Reconnect => {
                self.abandon_stream();
                self.connection_status = ConnectionStatus::Connecting;
                self.reset_log(RECONNECTING_TEXT);
                self.initialize()
            },
            Command::Config { key, value } => {
                let lowered = lowercase(value.as_str());
                let flag = str_eq(lowered.as_str(), "true");
                let reply = self.set_config(key.as_str(), flag);
                self.push_notice(reply.as_str());
                Effect::Nothing
            },
            Command::Unknown(name) => {
                let mut text = "Unknown command: /".to_owned();
                text.append(name.as_str());
                text.append(". Type /help for help.");
                self.push_notice(text.as_str());
                Effect::Nothing
            },
        }
    }

    /// Announces the fetch of the agent's description.
    pub fn handle_stats_command(&mut self) -> (effect: Effect)
        ensures
            noticed(old(self)@, final(self)@, FETCHING_STATS_TEXT@),
            effect@ is FetchStats,
    {
        self.push_notice(FETCHING_STATS_TEXT);
        Effect::FetchStats
    }

    /// Replaces the last message of the log, the announcement of the
    /// fetch, by the agent's description; `None` stands for a failed fetch.
    pub fn finish_stats_command(&mut self, info: Option<AgentInfo>)
        ensures
            final(self)@ == (AppView { messages: final(self)@.messages, ..old(self)@ }),
            log_extended(
                without_last(old(self)@.messages),
                final(self)@.messages,
                stats_text(
                    match info {
                        Some(i) => Some(i@),
                        None => None,
                    },
                ),
            ),
    {
        let text = format_stats(&info);
        self.replace_last_notice(text.as_str());
    }

    /// Announces the fetch of the memory sizes.
    pub fn handle_memory_command(&mut self) -> (effect: Effect)
        ensures
            noticed(old(self)@, final(self)@, FETCHING_MEMORY_TEXT@),
            effect@ is FetchMemoryStats,
    {
        self.push_notice(FETCHING_MEMORY_TEXT);
        Effect::FetchMemoryStats
    }

    /// Replaces the last message of the log, the announcement of the
    /// fetch, by the memory sizes; `None` stands for a failed fetch.
    pub fn finish_memory_command(&mut self, stats: Option<MemoryStats>)
        ensures
            final(self)@ == (AppView { messages: final(self)@.messages, ..old(self)@ }),
            log_extended(
                without_last(old(self)@.messages),
                final(self)@.messages,
                memory_text(stats),
            ),
    {
        let text = format_memory_stats(&stats);
        self.replace_last_notice(text.as_str());
    }

    /// Announces the fetch of the knowledge sizes.
    pub fn handle_knowledge_command(&mut self) -> (effect: Effect)
        ensures
            noticed(old(self)@, final(self)@, FETCHING_KNOWLEDGE_TEXT@),
            effect@ is FetchKnowledgeStats,
    {
        self.push_notice(FETCHING_KNOWLEDGE_TEXT);
        Effect::FetchKnowledgeStats
    }

    /// Replaces the last message of the log, the announcement of the
    /// fetch, by the knowledge sizes; `None` stands for a failed fetch.
    pub fn finish_knowledge_command(&mut self, stats: Option<KnowledgeStats>)
        ensures
            final(self)@ == (AppView { messages: final(self)@.messages, ..old(self)@ }),
            log_extended(
                without_last(old(self)@.messages),
                final(self)@.messages,
                knowledge_text(
                    match stats {
                        Some(k) => Some(k@),
                        None => None,
                    },
                ),
            ),
    {
        let text = format_knowledge_stats(&stats);
        self.replace_last_notice(text.as_str());
    }

    /// Asks the backend to clear the history of the session. The state
    /// does not change until the backend has answered.
    pub fn handle_clear_command(&mut self) -> (effect: Effect)
        ensures
            final(self)@ == old(self)@,
            effect@ == (EffectView::ClearChat {
                request: clear_request(old(self)@.base_url, Some(old(self)@.session_id)),
            }),
    {
        Effect::ClearChat { request: self.api_client.clear_chat(Some(self.session_id.clone())) }
    }

    /// Clears the conversation once the backend has been asked to, whatever
    /// it answered: the log holds the notice alone, the summary of the last
    /// turn is gone, and a turn in flight is abandoned.
    pub fn finish_clear_command(&mut self)
        ensures
            final(self)@ == (AppView {
                messages: final(self)@.messages,
                current_tool_calls: Seq::empty(),
                ..abandoned(old(self)@)
            }),
            log_reset(final(self)@.messages, CLEARED_TEXT@),
    {
        self.abandon_stream();
        self.current_tool_calls = Vec::new();
        assert(self@.current_tool_calls =~= Seq::empty());
        self.reset_log(CLEARED_TEXT);
    }
}

/// A tool's report from its header to the end of its fenced output.
pub const TOOL_BLOCK_PATTERN: &'static str = r"(?s)🔧\s*\*\*\w+\*\*.*?```[\s\S]*?```";

/// A tool's header with the line that describes what it is doing.
pub const TOOL_PROGRESS_PATTERN: &'static str = r"🔧\s*\*\*\w+\*\*\s*\n_[^_]*\.\.\._";

/// A tool's header alone.
pub const TOOL_HEADER_PATTERN: &'static str = r"🔧\s*\*\*\w+\*\*";

/// The mark that a tool's output was shortened.
pub const SUMMARY_MARK_PATTERN: &'static str = r"\[Summarized from \d+ chars\]";

/// A line that describes what a tool is doing.
pub const PROGRESS_LINE_PATTERN: &'static str = r"_[^_\n]+\.\.\._";

/// A fenced block with nothing in it.
pub const EMPTY_FENCE_PATTERN: &'static str = r"```\s*\n?\s*```";

/// `text` without the matches of `pattern`; `text` itself where the pattern
/// is not a valid regular expression.
pub open spec fn stripped(pattern: Seq<char>, text: Seq<char>) -> Seq<char> {
    match regex_removed(pattern, text) {
        Some(r) => r,
        None => text,
    }
}

/// `content` without the traces of tool output, pattern after pattern.
pub open spec fn without_tool_output(content: Seq<char>) -> Seq<char> {
    stripped(
        EMPTY_FENCE_PATTERN@,
        stripped(
            PROGRESS_LINE_PATTERN@,
            stripped(
                SUMMARY_MARK_PATTERN@,
                stripped(
                    TOOL_HEADER_PATTERN@,
                    stripped(TOOL_PROGRESS_PATTERN@, stripped(TOOL_BLOCK_PATTERN@, content)),
                ),
            ),
        ),
    )
}

/// `text` with every run of three or more line feeds cut to two, and
/// without white space at its ends.
pub open spec fn tidied(text: Seq<char>) -> Seq<char> {
    trimmed(squeezed(text))
}

/// Removes the matches of `pattern` from `text`; a pattern that is not a
/// valid regular expression removes nothing.
pub fn strip_pattern(pattern: &str, text: String) -> (r: String)
    ensures
        r@ == stripped(pattern@, text@),
{
    match remove_matches(pattern, text.as_str()) {
        Some(r) => r,
        None => text,
    }
}

/// Cuts every run of three or more line feeds to two and removes white
/// space at both ends.
pub fn tidy(text: &str) -> (r: String)
    ensures
        r@ == tidied(text@),
{
    let v = chars_of(text);
    let squeezed = squeeze_blank_lines(&v);
    let t = trim_chars(&squeezed);
    string_of(&t)
}

impl App {
    /// Cleans an answer of the agent for display: removes what tools wrote
    /// into it, then tidies blank lines and the ends.
    pub fn clean_response_content(content: &str) -> (r: String)
        ensures
            r@ == tidied(without_tool_output(content@)),
    {
        let mut result = content.to_owned();
        result = strip_pattern(TOOL_BLOCK_PATTERN, result);
        result = strip_pattern(TOOL_PROGRESS_PATTERN, result);
        result = strip_pattern(TOOL_HEADER_PATTERN, result);
        result = strip_pattern(SUMMARY_MARK_PATTERN, result);
        result = strip_pattern(PROGRESS_LINE_PATTERN, result);
        result = strip_pattern(EMPTY_FENCE_PATTERN, result);
        tidy(result.as_str())
    }
}

} // verus!
