//! The transcript model: messages, their segments, tool-call records, slash
//! commands and the client's settings.
use crate::api::{opt_view, tool_calls_view, ToolCall, ToolCallView};
use crate::text::{chars_of, split_words, str_eq, strings_view, trim_chars, trimmed, words};
use crate::trusted::{clock_label, fresh_id, is_clock_label, lowercase, lowercased};
use vstd::prelude::*;

verus! {

/// Who authored a transcript entry.
#[derive(Debug, Clone, Copy, PartialEq, Eq, Structural)]
pub enum MessageRole {
    User,
    Assistant,
    System,
}

/// How far a tool invocation has come.
#[derive(Debug, Clone, Copy, PartialEq, Eq, Structural)]
pub enum ToolStatus {
    Running,
    Completed,
    Failed,
}

/// What a tool-call record holds, inline or in the live registry.
pub struct ToolEntry {
    pub id: Seq<char>,
    pub name: Seq<char>,
    pub arguments: serde_json::Value,
    pub result: Option<Seq<char>>,
    pub status: ToolStatus,
    pub expanded: bool,
}

/// A tool invocation shown inside a message.
#[derive(Debug, Clone)]
pub struct InlineToolCall {
    pub id: String,
    pub name: String,
    pub arguments: serde_json::Value,
    pub result: Option<String>,
    pub status: ToolStatus,
    pub expanded: bool,
}

impl View for InlineToolCall {
    type V = ToolEntry;

    open spec fn view(&self) -> ToolEntry {
        ToolEntry {
            id: self.id@,
            name: self.name@,
            arguments: self.arguments,
            result: opt_view(self.result),
            status: self.status,
            expanded: self.expanded,
        }
    }
}

/// A tool invocation shown in the live registry of the current turn.
#[derive(Debug, Clone)]
pub struct LiveToolCall {
    pub id: String,
    pub name: String,
    pub arguments: serde_json::Value,
    pub result: Option<String>,
    pub status: ToolStatus,
    pub expanded: bool,
}

impl View for LiveToolCall {
    type V = ToolEntry;

    open spec fn view(&self) -> ToolEntry {
        ToolEntry {
            id: self.id@,
            name: self.name@,
            arguments: self.arguments,
            result: opt_view(self.result),
            status: self.status,
            expanded: self.expanded,
        }
    }
}

/// The views of the live registry.
pub open spec fn live_view(v: Seq<LiveToolCall>) -> Seq<ToolEntry> {
    v.map_values(|t: LiveToolCall| t@)
}

/// The position of the first entry of the registry with the id `id`, from
/// position `from` on; the length of the registry if there is none.
pub open spec fn find_live(live: Seq<ToolEntry>, id: Seq<char>, from: int) -> int
    decreases live.len() - from,
{
    if from < 0 || from >= live.len() {
        live.len() as int
    } else if live[from].id == id {
        from
    } else {
        find_live(live, id, from + 1)
    }
}

/// The registry after the first entry with the id `id` got the result
/// `result` and completed; unchanged if there is none.
pub open spec fn live_with_result(
    live: Seq<ToolEntry>,
    id: Seq<char>,
    result: Seq<char>,
) -> Seq<ToolEntry> {
    let i = find_live(live, id, 0);
    if i < live.len() {
        live.update(
            i,
            ToolEntry { result: Some(result), status: ToolStatus::Completed, ..live[i] },
        )
    } else {
        live
    }
}

/// The registry after the first entry with the id `id` was folded or
/// unfolded; unchanged if there is none.
pub open spec fn live_toggled(live: Seq<ToolEntry>, id: Seq<char>) -> Seq<ToolEntry> {
    let i = find_live(live, id, 0);
    if i < live.len() {
        live.update(i, ToolEntry { expanded: !live[i].expanded, ..live[i] })
    } else {
        live
    }
}

/// The live registry after its stream has ended: every entry that was
/// running has the status `status`, the others are as they were.
pub open spec fn settled(live: Seq<ToolEntry>, status: ToolStatus) -> Seq<ToolEntry> {
    live.map_values(
        |t: ToolEntry|
            if t.status == ToolStatus::Running {
                ToolEntry { status: status, ..t }
            } else {
                t
            },
    )
}

/// No entry of the registry is running.
pub open spec fn none_running(live: Seq<ToolEntry>) -> bool {
    forall|i: int| 0 <= i < live.len() ==> (#[trigger] live[i]).status != ToolStatus::Running
}

/// The position of the first entry of `live` with the id `id`; the length
/// of `live` if there is none.
pub fn live_position(live: &Vec<LiveToolCall>, id: &str) -> (i: usize)
    ensures
        i == find_live(live_view(live@), id@, 0),
        i <= live@.len(),
{
    let mut i: usize = 0;
    while i < live.len()
        invariant
            i <= live@.len(),
            find_live(live_view(live@), id@, 0) == find_live(live_view(live@), id@, i as int),
        decreases live@.len() - i,
    {
        if str_eq(live[i].id.as_str(), id) {
            return i;
        }
        i = i + 1;
    }
    i
}

/// Ends every running entry of `live` with the status `status`.
pub fn settle(live: &mut Vec<LiveToolCall>, status: ToolStatus)
    ensures
        live_view(final(live)@) == settled(live_view(old(live)@), status),
{
    let mut i: usize = 0;
    while i < live.len()
        invariant
            i <= live@.len(),
            live@.len() == old(live)@.len(),
            forall|k: int|
                0 <= k < i ==> (#[trigger] live@[k])@ == settled(
                    live_view(old(live)@),
                    status,
                )[k],
            forall|k: int| i <= k < live@.len() ==> #[trigger] live@[k] == old(live)@[k],
        decreases live@.len() - i,
    {
        match live[i].status {
            ToolStatus::Running => {
                live[i].status = status;
            },
            _ => {},
        }
        i = i + 1;
    }
    assert(live_view(live@) =~= settled(live_view(old(live)@), status));
}

/// One piece of a message: a run of text or a tool invocation.
#[derive(Debug, Clone)]
pub enum MessageSegment {
    Text(String),
    ToolCall(InlineToolCall),
}

pub enum SegmentView {
    Text(Seq<char>),
    ToolCall(ToolEntry),
}

impl View for MessageSegment {
    type V = SegmentView;

    open spec fn view(&self) -> SegmentView {
        match *self {
            MessageSegment::Text(s) => SegmentView::Text(s@),
            MessageSegment::ToolCall(t) => SegmentView::ToolCall(t@),
        }
    }
}

/// The views of a vector of segments.
pub open spec fn segments_view(v: Seq<MessageSegment>) -> Seq<SegmentView> {
    v.map_values(|s: MessageSegment| s@)
}

/// One turn of the visible transcript.
#[derive(Debug, Clone)]
pub struct ChatMessage {
    pub id: String,
    pub role: MessageRole,
    pub content: String,
    pub timestamp: String,
    pub tool_calls: Vec<ToolCall>,
    pub segments: Vec<MessageSegment>,
}

pub struct MessageView {
    pub id: Seq<char>,
    pub role: MessageRole,
    pub content: Seq<char>,
    pub timestamp: Seq<char>,
    pub tool_calls: Seq<ToolCallView>,
    pub segments: Seq<SegmentView>,
}

impl View for ChatMessage {
    type V = MessageView;

    open spec fn view(&self) -> MessageView {
        MessageView {
            id: self.id@,
            role: self.role,
            content: self.content@,
            timestamp: self.timestamp@,
            tool_calls: tool_calls_view(self.tool_calls@),
            segments: segments_view(self.segments@),
        }
    }
}

/// The views of a message log.
pub open spec fn messages_view(v: Seq<ChatMessage>) -> Seq<MessageView> {
    v.map_values(|m: ChatMessage| m@)
}

/// The concatenation of the text segments of `segs`, in order; tool-call
/// segments contribute nothing.
pub open spec fn flat_text(segs: Seq<SegmentView>) -> Seq<char>
    decreases segs.len(),
{
    if segs.len() == 0 {
        Seq::empty()
    } else {
        let rest = flat_text(segs.drop_last());
        match segs.last() {
            SegmentView::Text(s) => rest + s,
            SegmentView::ToolCall(_) => rest,
        }
    }
}

/// `segs` after `text` has been streamed in: the trailing text segment
/// grows, or a new text segment is opened.
pub open spec fn segments_with_text(segs: Seq<SegmentView>, text: Seq<char>) -> Seq<SegmentView> {
    if segs.len() > 0 && segs.last() is Text {
        segs.drop_last().push(SegmentView::Text(segs.last()->Text_0 + text))
    } else {
        segs.push(SegmentView::Text(text))
    }
}

/// The position of the first tool-call segment with the id `id`, from
/// position `from` on; the length of `segs` if there is none.
pub open spec fn find_tool(segs: Seq<SegmentView>, id: Seq<char>, from: int) -> int
    decreases segs.len() - from,
{
    if from < 0 || from >= segs.len() {
        segs.len() as int
    } else {
        match segs[from] {
            SegmentView::ToolCall(t) => if t.id == id {
                from
            } else {
                find_tool(segs, id, from + 1)
            },
            SegmentView::Text(_) => find_tool(segs, id, from + 1),
        }
    }
}

/// `segs` after the first tool call with the id `id` got the result
/// `result` and the status `status`; unchanged if there is none.
pub open spec fn segments_with_result(
    segs: Seq<SegmentView>,
    id: Seq<char>,
    result: Seq<char>,
    status: ToolStatus,
) -> Seq<SegmentView> {
    let i = find_tool(segs, id, 0);
    if i < segs.len() {
        segs.update(
            i,
            SegmentView::ToolCall(
                ToolEntry { result: Some(result), status: status, ..segs[i]->ToolCall_0 },
            ),
        )
    } else {
        segs
    }
}

/// `segs` after the first tool call with the id `id` was folded or
/// unfolded; unchanged if there is none.
pub open spec fn segments_toggled(segs: Seq<SegmentView>, id: Seq<char>) -> Seq<SegmentView> {
    let i = find_tool(segs, id, 0);
    if i < segs.len() {
        segs.update(
            i,
            SegmentView::ToolCall(
                ToolEntry { expanded: !(segs[i]->ToolCall_0).expanded, ..segs[i]->ToolCall_0 },
            ),
        )
    } else {
        segs
    }
}

/// The message with one text segment that holds `content`.
pub open spec fn text_message(
    id: Seq<char>,
    timestamp: Seq<char>,
    role: MessageRole,
    content: Seq<char>,
    tool_calls: Seq<ToolCallView>,
) -> MessageView {
    MessageView {
        id: id,
        role: role,
        content: content,
        timestamp: timestamp,
        tool_calls: tool_calls,
        segments: seq![SegmentView::Text(content)],
    }
}

/// The empty message of the assistant that a stream fills.
pub open spec fn streaming_message(id: Seq<char>, timestamp: Seq<char>) -> MessageView {
    MessageView {
        id: id,
        role: MessageRole::Assistant,
        content: Seq::empty(),
        timestamp: timestamp,
        tool_calls: Seq::empty(),
        segments: Seq::empty(),
    }
}

impl ChatMessage {
    /// The message with the id `id` and the time label `timestamp` that
    /// holds `content` as its one text segment.
    pub fn with_text(
        id: String,
        timestamp: String,
        role: MessageRole,
        content: &str,
        tool_calls: Vec<ToolCall>,
    ) -> (r: ChatMessage)
        ensures
            r@ == text_message(id@, timestamp@, role, content@, tool_calls_view(tool_calls@)),
    {
        let mut segments: Vec<MessageSegment> = Vec::new();
        segments.push(MessageSegment::Text(content.to_owned()));
        let r = ChatMessage {
            id,
            role,
            content: content.to_owned(),
            timestamp,
            tool_calls,
            segments,
        };
        assert(r@.segments =~= seq![SegmentView::Text(content@)]);
        r
    }

    /// The empty message of the assistant with the id `id` and the time
    /// label `timestamp`: no content, no segments, no tool calls.
    pub fn streaming_with(id: String, timestamp: String) -> (r: ChatMessage)
        ensures
            r@ == streaming_message(id@, timestamp@),
    {
        let r = ChatMessage {
            id,
            role: MessageRole::Assistant,
            content: String::new(),
            timestamp,
            tool_calls: Vec::new(),
            segments: Vec::new(),
        };
        assert(r@.segments =~= Seq::empty());
        assert(r@.tool_calls =~= Seq::empty());
        r
    }

    /// A message typed by the user: one text segment that holds `content`.
    /// The id is a fresh random identifier, the time label the time of day.
    pub fn user(content: &str) -> (r: ChatMessage)
        ensures
            r@ == text_message(
                r@.id,
                r@.timestamp,
                MessageRole::User,
                content@,
                Seq::empty(),
            ),
            r@.id.len() == 36,
            is_clock_label(r@.timestamp),
    {
        let tool_calls: Vec<ToolCall> = Vec::new();
        assert(tool_calls_view(tool_calls@) =~= Seq::empty());
        ChatMessage::with_text(fresh_id(), clock_label(), MessageRole::User, content, tool_calls)
    }

    /// A finished answer of the agent with the tool calls it made. The id
    /// is a fresh random identifier, the time label the time of day.
    pub fn assistant(content: &str, tool_calls: Vec<ToolCall>) -> (r: ChatMessage)
        ensures
            r@ == text_message(
                r@.id,
                r@.timestamp,
                MessageRole::Assistant,
                content@,
                tool_calls_view(tool_calls@),
            ),
            r@.id.len() == 36,
            is_clock_label(r@.timestamp),
    {
        ChatMessage::with_text(
            fresh_id(),
            clock_label(),
            MessageRole::Assistant,
            content,
            tool_calls,
        )
    }

    /// A notice of the client itself. The id is a fresh random identifier,
    /// the time label the time of day.
    pub fn system(content: &str) -> (r: ChatMessage)
        ensures
            r@ == text_message(
                r@.id,
                r@.timestamp,
                MessageRole::System,
                content@,
                Seq::empty(),
            ),
            r@.id.len() == 36,
            is_clock_label(r@.timestamp),
    {
        let tool_calls: Vec<ToolCall> = Vec::new();
        assert(tool_calls_view(tool_calls@) =~= Seq::empty());
        ChatMessage::with_text(fresh_id(), clock_label(), MessageRole::System, content, tool_calls)
    }

    /// The empty message that a stream fills: no content, no segments. The
    /// id is a fresh random identifier, the time label the time of day.
    pub fn assistant_streaming() -> (r: ChatMessage)
        ensures
            r@ == streaming_message(r@.id, r@.timestamp),
            r@.id.len() == 36,
            is_clock_label(r@.timestamp),
    {
        ChatMessage::streaming_with(fresh_id(), clock_label())
    }

    /// Streams `text` in: the content grows by it, and so does the trailing
    /// text segment; after a tool call, or in an empty message, a new text
    /// segment is opened.
    pub fn append_text(&mut self, text: &str)
        ensures
            final(self)@ == (MessageView {
                content: old(self)@.content + text@,
                segments: segments_with_text(old(self)@.segments, text@),
                ..old(self)@
            }),
    {
        self.content.append(text);
        let ghost before = self.segments@;
        let last = self.segments.pop();
        match last {
            Some(MessageSegment::Text(mut s)) => {
                s.append(text);
                self.segments.push(MessageSegment::Text(s));
                assert(segments_view(self.segments@) =~= segments_with_text(
                    segments_view(before),
                    text@,
                ));
            },
            Some(other) => {
                self.segments.push(other);
                self.segments.push(MessageSegment::Text(text.to_owned()));
                assert(segments_view(self.segments@) =~= segments_with_text(
                    segments_view(before),
                    text@,
                ));
            },
            None => {
                self.segments.push(MessageSegment::Text(text.to_owned()));
                assert(segments_view(self.segments@) =~= segments_with_text(
                    segments_view(before),
                    text@,
                ));
            },
        }
    }

    /// Appends a tool-call segment.
    pub fn add_tool_call(&mut self, tool: InlineToolCall)
        ensures
            final(self)@ == (MessageView {
                segments: old(self)@.segments.push(SegmentView::ToolCall(tool@)),
                ..old(self)@
            }),
    {
        self.segments.push(MessageSegment::ToolCall(tool));
        assert(segments_view(self.segments@) =~= segments_view(old(self).segments@).push(
            SegmentView::ToolCall(tool@),
        ));
    }

    /// The position of the first tool-call segment with the id `tool_id`;
    /// the number of segments if there is none.
    pub fn tool_position(&self, tool_id: &str) -> (i: usize)
        ensures
            i == find_tool(self@.segments, tool_id@, 0),
            i <= self.segments@.len(),
            i < self.segments@.len() ==> self.segments@[i as int] is ToolCall,
    {
        let mut i: usize = 0;
        while i < self.segments.len()
            invariant
                i <= self.segments@.len(),
                find_tool(self@.segments, tool_id@, 0) == find_tool(
                    self@.segments,
                    tool_id@,
                    i as int,
                ),
            decreases self.segments@.len() - i,
        {
            let hit = match &self.segments[i] {
                MessageSegment::ToolCall(tc) => str_eq(tc.id.as_str(), tool_id),
                MessageSegment::Text(_) => false,
            };
            if hit {
                return i;
            }
            i = i + 1;
        }
        i
    }

    /// Records the outcome of the first tool call with the id `tool_id`;
    /// does nothing if the message holds no such call.
    pub fn update_tool_result(&mut self, tool_id: &str, result: String, status: ToolStatus)
        ensures
            final(self)@ == (MessageView {
                segments: segments_with_result(old(self)@.segments, tool_id@, result@, status),
                ..old(self)@
            }),
    {
        let i = self.tool_position(tool_id);
        if i < self.segments.len() {
            match &mut self.segments[i] {
                MessageSegment::ToolCall(tc) => {
                    tc.result = Some(result);
                    tc.status = status;
                },
                MessageSegment::Text(_) => {},
            }
            assert(segments_view(self.segments@) =~= segments_with_result(
                old(self)@.segments,
                tool_id@,
                result@,
                status,
            ));
        }
    }

    /// Folds or unfolds the first tool call with the id `tool_id`; does
    /// nothing if the message holds no such call.
    pub fn toggle_tool_expanded(&mut self, tool_id: &str)
        ensures
            final(self)@ == (MessageView {
                segments: segments_toggled(old(self)@.segments, tool_id@),
                ..old(self)@
            }),
    {
        let i = self.tool_position(tool_id);
        if i < self.segments.len() {
            match &mut self.segments[i] {
                MessageSegment::ToolCall(tc) => {
                    tc.expanded = !tc.expanded;
                },
                MessageSegment::Text(_) => {},
            }
            assert(segments_view(self.segments@) =~= segments_toggled(
                old(self)@.segments,
                tool_id@,
            ));
        }
    }

    /// Sets the content to the concatenation of the text segments.
    pub fn rebuild_content(&mut self)
        ensures
            final(self)@ == (MessageView {
                content: flat_text(old(self)@.segments),
                ..old(self)@
            }),
    {
        let mut content = String::new();
        let mut i: usize = 0;
        while i < self.segments.len()
            invariant
                i <= self.segments@.len(),
                content@ == flat_text(self@.segments.subrange(0, i as int)),
            decreases self.segments@.len() - i,
        {
            assert(self@.segments.subrange(0, i + 1).drop_last() =~= self@.segments.subrange(
                0,
                i as int,
            ));
            match &self.segments[i] {
                MessageSegment::Text(s) => {
                    content.append(s.as_str());
                },
                MessageSegment::ToolCall(_) => {},
            }
            i = i + 1;
        }
        assert(self@.segments.subrange(0, self.segments@.len() as int) =~= self@.segments);
        self.content = content;
    }
}

/// A slash command.
#[derive(Debug, Clone)]
pub enum Command {
    Stats,
    Memory,
    Knowledge,
    Help,
    Clear,
    Reconnect,
    Config { key: String, value: String },
    Unknown(String),
}

pub enum CommandView {
    Stats,
    Memory,
    Knowledge,
    Help,
    Clear,
    Reconnect,
    Config { key: Seq<char>, value: Seq<char> },
    Unknown(Seq<char>),
}

impl View for Command {
    type V = CommandView;

    open spec fn view(&self) -> CommandView {
        match *self {
            Command::Stats => CommandView::Stats,
            Command::Memory => CommandView::Memory,
            Command::Knowledge => CommandView::Knowledge,
            Command::Help => CommandView::Help,
            Command::Clear => CommandView::Clear,
            Command::Reconnect => CommandView::Reconnect,
            Command::Config { key, value } => CommandView::Config { key: key@, value: value@ },
            Command::Unknown(name) => CommandView::Unknown(name@),
        }
    }
}

/// The command that the lower-cased first token `name` selects, given all
/// tokens `parts` of the input. `config` takes exactly a key and a value;
/// with any other number of tokens it is an unknown command.
pub open spec fn command_for(name: Seq<char>, parts: Seq<Seq<char>>) -> CommandView {
    if name == "stats"@ {
        CommandView::Stats
    } else if name == "memory"@ {
        CommandView::Memory
    } else if name == "knowledge"@ {
        CommandView::Knowledge
    } else if name == "help"@ || name == "h"@ || name == "?"@ {
        CommandView::Help
    } else if name == "clear"@ {
        CommandView::Clear
    } else if name == "reconnect"@ {
        CommandView::Reconnect
    } else if name == "config"@ && parts.len() == 3 {
        CommandView::Config { key: parts[1], value: parts[2] }
    } else {
        CommandView::Unknown(name)
    }
}

/// The tokens of a command line: the words that follow the leading slash
/// of the trimmed input. `None` if the trimmed input does not begin with a
/// slash.
pub open spec fn command_tokens(input: Seq<char>) -> Option<Seq<Seq<char>>> {
    let t = trimmed(input);
    if t.len() == 0 || t[0] != '/' {
        None
    } else {
        Some(words(t.subrange(1, t.len() as int)))
    }
}

/// What `input` means as a command: nothing unless it begins, after
/// trimming, with a slash that a token follows; else the command that the
/// lower-cased first token selects.
pub open spec fn parse_spec(input: Seq<char>) -> Option<CommandView> {
    match command_tokens(input) {
        None => None,
        Some(parts) => if parts.len() == 0 {
            None
        } else {
            Some(command_for(lowercased(parts[0]), parts))
        },
    }
}

impl Command {
    /// Splits a command line into its tokens.
    pub fn tokens(input: &str) -> (r: Option<Vec<String>>)
        ensures
            match r {
                Some(parts) => command_tokens(input@) == Some(strings_view(parts@)),
                None => command_tokens(input@) is None,
            },
    {
        let raw = chars_of(input);
        let t = trim_chars(&raw);
        if t.len() == 0 || t[0] != '/' {
            return None;
        }
        let mut rest: Vec<char> = Vec::new();
        let mut i: usize = 1;
        while i < t.len()
            invariant
                1 <= i <= t@.len(),
                rest@ == t@.subrange(1, i as int),
            decreases t@.len() - i,
        {
            rest.push(t[i]);
            i = i + 1;
            assert(rest@ =~= t@.subrange(1, i as int));
        }
        Some(split_words(&rest))
    }

    /// The command that the lower-cased first token `name` selects, given
    /// all tokens `parts` of the input.
    pub fn from_parts(name: &str, parts: &Vec<String>) -> (r: Command)
        ensures
            r@ == command_for(name@, strings_view(parts@)),
    {
        if str_eq(name, "stats") {
            Command::Stats
        } else if str_eq(name, "memory") {
            Command::Memory
        } else if str_eq(name, "knowledge") {
            Command::Knowledge
        } else if str_eq(name, "help") || str_eq(name, "h") || str_eq(name, "?") {
            Command::Help
        } else if str_eq(name, "clear") {
            Command::Clear
        } else if str_eq(name, "reconnect") {
            Command::Reconnect
        } else if str_eq(name, "config") && parts.len() == 3 {
            Command::Config { key: parts[1].clone(), value: parts[2].clone() }
        } else {
            Command::Unknown(name.to_owned())
        }
    }

    /// Reads `input` as a command. Input that does not begin with a slash,
    /// or holds nothing after it, is no command.
    pub fn parse(input: &str) -> (r: Option<Command>)
        ensures
            match r {
                Some(c) => parse_spec(input@) == Some(c@),
                None => parse_spec(input@) is None,
            },
    {
        match Command::tokens(input) {
            None => None,
            Some(parts) => {
                if parts.len() == 0 {
                    None
                } else {
                    let name = lowercase(parts[0].as_str());
                    Some(Command::from_parts(name.as_str(), &parts))
                }
            },
        }
    }
}

/// Which panels the client shows.
#[derive(Debug, Clone, Copy, PartialEq, Eq, Structural)]
pub struct AppConfig {
    pub show_memory: bool,
    pub show_knowledge: bool,
    pub show_tool_use: bool,
}

impl Default for AppConfig {
    /// Every panel is shown.
    fn default() -> (r: AppConfig)
        ensures
            r == (AppConfig { show_memory: true, show_knowledge: true, show_tool_use: true }),
    {
        AppConfig { show_memory: true, show_knowledge: true, show_tool_use: true }
    }
}

/// The state of the link to the backend.
#[derive(Debug, Clone)]
pub enum ConnectionStatus {
    Disconnected,
    Connecting,
    Connected,
    Error(String),
}

pub enum ConnectionView {
    Disconnected,
    Connecting,
    Connected,
    Error(Seq<char>),
}

impl View for ConnectionStatus {
    type V = ConnectionView;

    open spec fn view(&self) -> ConnectionView {
        match *self {
            ConnectionStatus::Disconnected => ConnectionView::Disconnected,
            ConnectionStatus::Connecting => ConnectionView::Connecting,
            ConnectionStatus::Connected => ConnectionView::Connected,
            ConnectionStatus::Error(s) => ConnectionView::Error(s@),
        }
    }
}

impl ConnectionStatus {
    /// Whether the backend answered the last connection attempt.
    pub fn is_connected(&self) -> (b: bool)
        ensures
            b == (self@ is Connected),
    {
        match self {
            ConnectionStatus::Connected => true,
            _ => false,
        }
    }
}

} // verus!
