//! The client's state: the message log, the session, the live tool-call
//! registry and the context of the current turn, with the transitions that
//! the user's identity and the sidebar's panels take.
use crate::api::{
    create_request, knowledge_view, memories_view, switch_request, tool_calls_view, AgentInfo,
    AgentInfoView, ApiClient, ApiRequest, ContextKnowledge, ContextKnowledgeView, ContextMemory,
    ContextMemoryView, RequestView, ToolCall, ToolCallView, UserSwitchResponse, UsersResponse,
    DEFAULT_API_URL,
};
use crate::models::{
    live_view, messages_view, none_running, settle, settled, text_message, AppConfig,
    ChatMessage, ConnectionStatus, ConnectionView, LiveToolCall, MessageRole, MessageView,
    ToolEntry, ToolStatus,
};
use crate::text::{chars_of, join, joined, push_chars, str_eq, strings_view};
use crate::trusted::{clock_label, fresh_id};
use vstd::prelude::*;

verus! {

/// Everything the client knows.
#[derive(Debug, Clone)]
pub struct App {
    pub messages: Vec<ChatMessage>,
    pub config: AppConfig,
    pub session_id: String,
    pub is_loading: bool,
    pub api_client: ApiClient,
    pub connection_status: ConnectionStatus,
    pub agent_model: String,
    pub agent_provider: String,
    pub agent_skills: Vec<String>,
    pub agent_tools: Vec<String>,
    pub current_user_id: String,
    pub available_users: Vec<String>,
    pub show_user_dropdown: bool,
    pub memory_expanded: bool,
    pub knowledge_expanded: bool,
    pub tool_expanded: bool,
    pub current_tool_calls: Vec<ToolCall>,
    pub live_tool_calls: Vec<LiveToolCall>,
    pub current_context_memories: Vec<ContextMemory>,
    pub current_context_knowledge: Vec<ContextKnowledge>,
    pub streaming_content: String,
    pub streaming_message_id: Option<String>,
}

pub struct AppView {
    pub messages: Seq<MessageView>,
    pub config: AppConfig,
    pub session_id: Seq<char>,
    pub is_loading: bool,
    pub base_url: Seq<char>,
    pub connection_status: ConnectionView,
    pub agent_model: Seq<char>,
    pub agent_provider: Seq<char>,
    pub agent_skills: Seq<Seq<char>>,
    pub agent_tools: Seq<Seq<char>>,
    pub current_user_id: Seq<char>,
    pub available_users: Seq<Seq<char>>,
    pub show_user_dropdown: bool,
    pub memory_expanded: bool,
    pub knowledge_expanded: bool,
    pub tool_expanded: bool,
    pub current_tool_calls: Seq<ToolCallView>,
    pub live_tool_calls: Seq<ToolEntry>,
    pub current_context_memories: Seq<ContextMemoryView>,
    pub current_context_knowledge: Seq<ContextKnowledgeView>,
    pub streaming_content: Seq<char>,
    pub streaming_message_id: Option<Seq<char>>,
}

impl View for App {
    type V = AppView;

    open spec fn view(&self) -> AppView {
        AppView {
            messages: messages_view(self.messages@),
            config: self.config,
            session_id: self.session_id@,
            is_loading: self.is_loading,
            base_url: self.api_client@,
            connection_status: self.connection_status@,
            agent_model: self.agent_model@,
            agent_provider: self.agent_provider@,
            agent_skills: strings_view(self.agent_skills@),
            agent_tools: strings_view(self.agent_tools@),
            current_user_id: self.current_user_id@,
            available_users: strings_view(self.available_users@),
            show_user_dropdown: self.show_user_dropdown,
            memory_expanded: self.memory_expanded,
            knowledge_expanded: self.knowledge_expanded,
            tool_expanded: self.tool_expanded,
            current_tool_calls: tool_calls_view(self.current_tool_calls@),
            live_tool_calls: live_view(self.live_tool_calls@),
            current_context_memories: memories_view(self.current_context_memories@),
            current_context_knowledge: knowledge_view(self.current_context_knowledge@),
            streaming_content: self.streaming_content@,
            streaming_message_id: crate::api::opt_view(self.streaming_message_id),
        }
    }
}

/// What the caller has to do after a transition: the network work that the
/// state itself cannot perform.
#[derive(Debug, Clone)]
pub enum Effect {
    /// Nothing.
    Nothing,
    /// Ask the backend who it is and which users it knows.
    Connect,
    /// Reload what the sidebar shows.
    RefreshSidebar,
    /// Fetch the agent's description for the statistics command.
    FetchStats,
    /// Fetch the sizes of the memory tiers.
    FetchMemoryStats,
    /// Fetch the sizes of the knowledge store.
    FetchKnowledgeStats,
    /// Send `request`, which clears the backend's history.
    ClearChat { request: ApiRequest },
    /// Send `request`, which switches to a user, and report the answer to
    /// `finish_switch_user`.
    SwitchUser { request: ApiRequest },
    /// Send `request`, which creates a user, and report the answer to
    /// `finish_create_user`.
    CreateUser { request: ApiRequest },
    /// Open the event stream at `request` and hand each of its events to
    /// the state together with `target`.
    OpenStream { request: ApiRequest, target: String },
}

pub enum EffectView {
    Nothing,
    Connect,
    RefreshSidebar,
    FetchStats,
    FetchMemoryStats,
    FetchKnowledgeStats,
    ClearChat { request: RequestView },
    SwitchUser { request: RequestView },
    CreateUser { request: RequestView },
    OpenStream { request: RequestView, target: Seq<char> },
}

impl View for Effect {
    type V = EffectView;

    open spec fn view(&self) -> EffectView {
        match *self {
            Effect::Nothing => EffectView::Nothing,
            Effect::Connect => EffectView::Connect,
            Effect::RefreshSidebar => EffectView::RefreshSidebar,
            Effect::FetchStats => EffectView::FetchStats,
            Effect::FetchMemoryStats => EffectView::FetchMemoryStats,
            Effect::FetchKnowledgeStats => EffectView::FetchKnowledgeStats,
            Effect::ClearChat { request } => EffectView::ClearChat { request: request@ },
            Effect::SwitchUser { request } => EffectView::SwitchUser { request: request@ },
            Effect::CreateUser { request } => EffectView::CreateUser { request: request@ },
            Effect::OpenStream { request, target } => EffectView::OpenStream {
                request: request@,
                target: target@,
            },
        }
    }
}

/// The notice with the text `text`, the id `id` and the time label
/// `timestamp`: a system message with one text segment.
pub open spec fn notice(id: Seq<char>, timestamp: Seq<char>, text: Seq<char>) -> MessageView {
    text_message(id, timestamp, MessageRole::System, text, Seq::empty())
}

/// `m` is a notice with the text `text`.
pub open spec fn is_notice(m: MessageView, text: Seq<char>) -> bool {
    m == notice(m.id, m.timestamp, text)
}

/// `after` is `before` with one notice added at the end.
pub open spec fn log_extended(
    before: Seq<MessageView>,
    after: Seq<MessageView>,
    text: Seq<char>,
) -> bool {
    &&& after.len() == before.len() + 1
    &&& after.drop_last() == before
    &&& is_notice(after.last(), text)
}

/// `after` holds one notice and nothing else.
pub open spec fn log_reset(after: Seq<MessageView>, text: Seq<char>) -> bool {
    after.len() == 1 && is_notice(after[0], text)
}

/// `log` without its last message; the empty log stays empty.
pub open spec fn without_last(log: Seq<MessageView>) -> Seq<MessageView> {
    if log.len() > 0 {
        log.drop_last()
    } else {
        log
    }
}

/// The state after the turn in flight, if any, has been abandoned: no
/// stream is active, and what it left running has failed.
pub open spec fn abandoned(s: AppView) -> AppView {
    AppView {
        is_loading: false,
        streaming_message_id: None,
        live_tool_calls: settled(s.live_tool_calls, ToolStatus::Failed),
        ..s
    }
}

/// The states that the transitions keep to: a stream is marked as loading
/// exactly while it has a target, and nothing runs without a stream.
pub open spec fn well_formed(s: AppView) -> bool {
    &&& s.is_loading == (s.streaming_message_id is Some)
    &&& s.streaming_message_id is None ==> none_running(s.live_tool_calls)
}

/// What the log says while the first connection attempt runs.
pub const CONNECTING_TEXT: &'static str = "Connecting to OmniEmployee backend...";

/// The user that is active before the backend has named one.
pub const DEFAULT_USER: &'static str = "default";

/// The state of a client that has just started, with the log `log` and the
/// session id `session_id`.
pub open spec fn initial_state(log: Seq<MessageView>, session_id: Seq<char>) -> AppView {
    AppView {
        messages: log,
        config: AppConfig { show_memory: true, show_knowledge: true, show_tool_use: true },
        session_id: session_id,
        is_loading: false,
        base_url: DEFAULT_API_URL@,
        connection_status: ConnectionView::Connecting,
        agent_model: Seq::empty(),
        agent_provider: Seq::empty(),
        agent_skills: Seq::empty(),
        agent_tools: Seq::empty(),
        current_user_id: DEFAULT_USER@,
        available_users: Seq::empty(),
        show_user_dropdown: false,
        memory_expanded: false,
        knowledge_expanded: false,
        tool_expanded: true,
        current_tool_calls: Seq::empty(),
        live_tool_calls: Seq::empty(),
        current_context_memories: Seq::empty(),
        current_context_knowledge: Seq::empty(),
        streaming_content: Seq::empty(),
        streaming_message_id: None,
    }
}

/// The list `items` as the connection notice shows it: `none` if it is
/// empty, else its items with commas between them.
pub open spec fn listed(items: Seq<Seq<char>>) -> Seq<char> {
    if items.len() == 0 {
        "none"@
    } else {
        joined(items, ", "@)
    }
}

/// The notice that greets the user once the backend has answered.
pub open spec fn connected_text(info: AgentInfoView) -> Seq<char> {
    "Connected to OmniEmployee!\nModel: "@ + info.model + " ("@ + info.provider + ")\nSkills: "@
        + listed(info.skills) + "\nTools: "@ + listed(info.tools)
        + "\n\nType a message or use /help for commands."@
}

/// The status text after a failed connection attempt.
pub open spec fn connect_failure_status(error: Seq<char>) -> Seq<char> {
    "Failed to connect: "@ + error
}

/// The notice after a failed connection attempt to the backend at `base`.
pub open spec fn connect_failure_text(base: Seq<char>) -> Seq<char> {
    "⚠️ Could not connect to backend at "@ + base
        + ".\n\nMake sure the server is running:\nuv run uvicorn src.omniemployee.web.app:app --port 8765\n\nUse /reconnect to try again."@
}

/// The notice after a switch to the user `user_id`.
pub open spec fn switched_text(user_id: Seq<char>) -> Seq<char> {
    "Switched to user: "@ + user_id + "\nNew session started."@
}

/// The notice after the user `user_id` was created.
pub open spec fn created_text(user_id: Seq<char>) -> Seq<char> {
    "Created and switched to new user: "@ + user_id + "\nNew session started."@
}

/// The name of a new user with the random part `suffix`.
pub open spec fn new_user_name(suffix: Seq<char>) -> Seq<char> {
    "user_"@ + suffix
}

/// `users` holds `user_id`.
pub open spec fn knows_user(users: Seq<Seq<char>>, user_id: Seq<char>) -> bool {
    exists|i: int| 0 <= i < users.len() && users[i] == user_id
}

/// The users `users` with `user_id` among them: added at the end unless it
/// is there already.
pub open spec fn users_with(users: Seq<Seq<char>>, user_id: Seq<char>) -> Seq<Seq<char>> {
    if knows_user(users, user_id) {
        users
    } else {
        users.push(user_id)
    }
}

/// The first eight characters of `id`; all of it where it is shorter.
pub open spec fn short_form_text(id: Seq<char>) -> Seq<char> {
    if id.len() < 8 {
        id
    } else {
        id.subrange(0, 8)
    }
}

/// Cuts an identifier to its first eight characters.
pub fn short_form(id: &str) -> (r: String)
    ensures
        r@ == short_form_text(id@),
{
    let v = chars_of(id);
    if v.len() < 8 {
        id.to_owned()
    } else {
        let mut r = String::new();
        push_chars(&mut r, &v, 0, 8);
        assert(r@ =~= id@.subrange(0, 8));
        r
    }
}

/// The first eight characters of a fresh random identifier.
pub fn short_id() -> (r: String)
    ensures
        r@.len() == 8,
{
    let id = fresh_id();
    short_form(id.as_str())
}

fn list_text(items: &Vec<String>) -> (r: String)
    ensures
        r@ == listed(strings_view(items@)),
{
    if items.len() == 0 {
        "none".to_owned()
    } else {
        join(items, ", ")
    }
}

fn contains_user(users: &Vec<String>, user_id: &str) -> (b: bool)
    ensures
        b == knows_user(strings_view(users@), user_id@),
{
    let mut i: usize = 0;
    while i < users.len()
        invariant
            i <= users@.len(),
            forall|k: int| 0 <= k < i ==> strings_view(users@)[k] != user_id@,
        decreases users@.len() - i,
    {
        if str_eq(users[i].as_str(), user_id) {
            assert(strings_view(users@)[i as int] == user_id@);
            return true;
        }
        i = i + 1;
    }
    false
}

impl App {
    /// The state of a client that has just started with the session id
    /// `session_id`: the log holds the connecting notice, with the id
    /// `notice_id` and the time label `notice_label`, and no stream is
    /// active.
    pub fn new_with(session_id: String, notice_id: String, notice_label: String) -> (r: App)
        ensures
            r@ == initial_state(
                seq![notice(notice_id@, notice_label@, CONNECTING_TEXT@)],
                session_id@,
            ),
    {
        let mut messages: Vec<ChatMessage> = Vec::new();
        let no_calls: Vec<ToolCall> = Vec::new();
        assert(tool_calls_view(no_calls@) =~= Seq::empty());
        messages.push(
            ChatMessage::with_text(
                notice_id,
                notice_label,
                MessageRole::System,
                CONNECTING_TEXT,
                no_calls,
            ),
        );
        let r = App {
            messages,
            config: AppConfig::default(),
            session_id,
            is_loading: false,
            api_client: ApiClient::new(None),
            connection_status: ConnectionStatus::Connecting,
            agent_model: String::new(),
            agent_provider: String::new(),
            agent_skills: Vec::new(),
            agent_tools: Vec::new(),
            current_user_id: DEFAULT_USER.to_owned(),
            available_users: Vec::new(),
            show_user_dropdown: false,
            memory_expanded: false,
            knowledge_expanded: false,
            tool_expanded: true,
            current_tool_calls: Vec::new(),
            live_tool_calls: Vec::new(),
            current_context_memories: Vec::new(),
            current_context_knowledge: Vec::new(),
            streaming_content: String::new(),
            streaming_message_id: None,
        };
        assert(r@.messages =~= seq![notice(notice_id@, notice_label@, CONNECTING_TEXT@)]);
        assert(r@.agent_skills =~= Seq::empty());
        assert(r@.agent_tools =~= Seq::empty());
        assert(r@.available_users =~= Seq::empty());
        assert(r@.current_tool_calls =~= Seq::empty());
        assert(r@.live_tool_calls =~= Seq::empty());
        assert(r@.current_context_memories =~= Seq::empty());
        assert(r@.current_context_knowledge =~= Seq::empty());
        r
    }

    /// The state of a client that has just started: a fresh session id of
    /// eight characters, one notice in the log, no stream.
    pub fn new() -> (r: App)
        ensures
            r@ == initial_state(r@.messages, r@.session_id),
            log_reset(r@.messages, CONNECTING_TEXT@),
            r@.session_id.len() == 8,
    {
        App::new_with(short_id(), fresh_id(), clock_label())
    }

    /// Adds the message `m` to the end of the log.
    pub fn push_message(&mut self, m: ChatMessage)
        ensures
            final(self)@ == (AppView { messages: old(self)@.messages.push(m@), ..old(self)@ }),
    {
        self.messages.push(m);
        assert(self@.messages =~= old(self)@.messages.push(m@));
    }

    /// Empties the log and puts the message `m` into it.
    pub fn reset_log_to(&mut self, m: ChatMessage)
        ensures
            final(self)@ == (AppView { messages: seq![m@], ..old(self)@ }),
    {
        let mut messages: Vec<ChatMessage> = Vec::new();
        messages.push(m);
        self.messages = messages;
        assert(self@.messages =~= seq![m@]);
    }

    /// Takes the last message off the log, if there is one, and adds the
    /// message `m`.
    pub fn replace_last_message(&mut self, m: ChatMessage)
        ensures
            final(self)@ == (AppView {
                messages: without_last(old(self)@.messages).push(m@),
                ..old(self)@
            }),
    {
        let _ = self.messages.pop();
        assert(self@.messages =~= without_last(old(self)@.messages));
        self.push_message(m);
    }

    /// Adds a notice with the text `text` to the end of the log. Its id is
    /// a fresh random identifier, its time label the time of day.
    pub fn push_notice(&mut self, text: &str)
        ensures
            final(self)@ == (AppView { messages: final(self)@.messages, ..old(self)@ }),
            log_extended(old(self)@.messages, final(self)@.messages, text@),
    {
        self.push_message(ChatMessage::system(text));
        assert(self@.messages.drop_last() =~= old(self)@.messages);
    }

    /// Empties the log and puts a notice with the text `text` into it. Its
    /// id is a fresh random identifier, its time label the time of day.
    pub fn reset_log(&mut self, text: &str)
        ensures
            final(self)@ == (AppView { messages: final(self)@.messages, ..old(self)@ }),
            log_reset(final(self)@.messages, text@),
    {
        self.reset_log_to(ChatMessage::system(text));
    }

    /// Takes the last message off the log, if there is one, and adds a
    /// notice with the text `text`. Its id is a fresh random identifier,
    /// its time label the time of day.
    pub fn replace_last_notice(&mut self, text: &str)
        ensures
            final(self)@ == (AppView { messages: final(self)@.messages, ..old(self)@ }),
            log_extended(without_last(old(self)@.messages), final(self)@.messages, text@),
    {
        self.replace_last_message(ChatMessage::system(text));
        assert(self@.messages.drop_last() =~= without_last(old(self)@.messages));
    }

    /// Abandons the turn in flight, if any: no stream is active afterwards,
    /// and every tool call that was running has failed. Events of the
    /// abandoned stream that arrive later find no target.
    pub fn abandon_stream(&mut self)
        ensures
            final(self)@ == abandoned(old(self)@),
    {
        self.is_loading = false;
        self.streaming_message_id = None;
        settle(&mut self.live_tool_calls, ToolStatus::Failed);
    }

    /// Starts the connection attempt. The state does not change; the
    /// caller asks the backend and reports the answer to
    /// `finish_initialize` and `finish_refresh_users`.
    pub fn initialize(&mut self) -> (effect: Effect)
        ensures
            final(self)@ == old(self)@,
            effect@ is Connect,
    {
        Effect::Connect
    }

    /// Takes in the answer to the connection attempt. On success the
    /// backend's description is stored and the log holds the greeting. On
    /// failure the status holds the error, the log says how to retry, and
    /// nothing is loading any more: a turn that was in flight is abandoned.
    pub fn finish_initialize(&mut self, result: Result<AgentInfo, String>)
        ensures
            match result {
                Ok(info) => {
                    &&& final(self)@ == (AppView {
                        messages: final(self)@.messages,
                        connection_status: ConnectionView::Connected,
                        agent_model: info@.model,
                        agent_provider: info@.provider,
                        agent_skills: info@.skills,
                        agent_tools: info@.tools,
                        config: AppConfig {
                            show_memory: info.memory_enabled,
                            show_knowledge: info.knowledge_enabled,
                            ..old(self)@.config
                        },
                        ..old(self)@
                    })
                    &&& log_reset(final(self)@.messages, connected_text(info@))
                },
                Err(e) => {
                    &&& final(self)@ == (AppView {
                        messages: final(self)@.messages,
                        connection_status: ConnectionView::Error(connect_failure_status(e@)),
                        ..abandoned(old(self)@)
                    })
                    &&& log_reset(
                        final(self)@.messages,
                        connect_failure_text(old(self)@.base_url),
                    )
                },
            },
    {
        match result {
            Ok(info) => {
                self.connection_status = ConnectionStatus::Connected;
                self.config.show_memory = info.memory_enabled;
                self.config.show_knowledge = info.knowledge_enabled;
                let mut text = "Connected to OmniEmployee!\nModel: ".to_owned();
                text.append(info.model.as_str());
                text.append(" (");
                text.append(info.provider.as_str());
                text.append(")\nSkills: ");
                let skills = list_text(&info.skills);
                text.append(skills.as_str());
                text.append("\nTools: ");
                let tools = list_text(&info.tools);
                text.append(tools.as_str());
                text.append("\n\nType a message or use /help for commands.");
                self.agent_model = info.model;
                self.agent_provider = info.provider;
                self.agent_skills = info.skills;
                self.agent_tools = info.tools;
                self.reset_log(text.as_str());
            },
            Err(e) => {
                self.abandon_stream();
                let mut status = "Failed to connect: ".to_owned();
                status.append(e.as_str());
                self.connection_status = ConnectionStatus::Error(status);
                let mut text = "⚠️ Could not connect to backend at ".to_owned();
                text.append(self.api_client.get_base_url());
                text.append(
                    ".\n\nMake sure the server is running:\nuv run uvicorn src.omniemployee.web.app:app --port 8765\n\nUse /reconnect to try again.",
                );
                self.reset_log(text.as_str());
            },
        }
    }

    /// The request for the list of users.
    pub fn refresh_users(&self) -> (r: ApiRequest)
        ensures
            r@ == crate::api::plain_request(
                crate::api::HttpMethod::Get,
                self@.base_url + "/api/users"@,
            ),
    {
        self.api_client.get_users()
    }

    /// Takes in the list of users.
    pub fn finish_refresh_users(&mut self, response: UsersResponse)
        ensures
            final(self)@ == (AppView {
                available_users: strings_view(response.users@),
                current_user_id: response.current@,
                ..old(self)@
            }),
    {
        self.available_users = response.users;
        self.current_user_id = response.current;
    }

    /// Asks for a switch to the user `user_id`. The state does not change
    /// until the backend has answered.
    pub fn switch_user(&mut self, user_id: &str) -> (effect: Effect)
        ensures
            final(self)@ == old(self)@,
            effect@ == (EffectView::SwitchUser {
                request: switch_request(old(self)@.base_url, user_id@),
            }),
    {
        Effect::SwitchUser { request: self.api_client.switch_user(user_id) }
    }

    /// Takes in the answer to a switch of users, with `session_id` as the
    /// id of the session that a switch starts. A refusal changes nothing.
    /// After a switch the session id is `session_id`, the log holds the
    /// switch notice alone, and a turn that was in flight is abandoned.
    pub fn finish_switch_user_with(&mut self, response: UserSwitchResponse, session_id: String) -> (effect:
        Effect)
        ensures
            !response.success ==> final(self)@ == old(self)@ && effect@ is Nothing,
            response.success ==> {
                &&& final(self)@ == (AppView {
                    messages: final(self)@.messages,
                    session_id: session_id@,
                    current_user_id: response.user_id@,
                    show_user_dropdown: false,
                    ..abandoned(old(self)@)
                })
                &&& log_reset(final(self)@.messages, switched_text(response.user_id@))
                &&& effect@ is RefreshSidebar
            },
    {
        if !response.success {
            return Effect::Nothing;
        }
        self.abandon_stream();
        let mut text = "Switched to user: ".to_owned();
        text.append(response.user_id.as_str());
        text.append("\nNew session started.");
        self.current_user_id = response.user_id;
        self.show_user_dropdown = false;
        self.session_id = session_id;
        self.reset_log(text.as_str());
        Effect::RefreshSidebar
    }

    /// Takes in the answer to a switch of users. A refusal changes
    /// nothing. After a switch the session id is a fresh one of eight
    /// characters, the log holds the switch notice alone, and a turn that
    /// was in flight is abandoned.
    pub fn finish_switch_user(&mut self, response: UserSwitchResponse) -> (effect: Effect)
        ensures
            !response.success ==> final(self)@ == old(self)@ && effect@ is Nothing,
            response.success ==> {
                &&& final(self)@ == (AppView {
                    messages: final(self)@.messages,
                    session_id: final(self)@.session_id,
                    current_user_id: response.user_id@,
                    show_user_dropdown: false,
                    ..abandoned(old(self)@)
                })
                &&& log_reset(final(self)@.messages, switched_text(response.user_id@))
                &&& final(self)@.session_id.len() == 8
                &&& effect@ is RefreshSidebar
            },
    {
        if !response.success {
            return Effect::Nothing;
        }
        self.finish_switch_user_with(response, short_id())
    }

    /// Asks for a new user whose name ends in `suffix`. The state does not
    /// change until the backend has answered.
    pub fn handle_create_new_user_with(&mut self, suffix: &str) -> (effect: Effect)
        ensures
            final(self)@ == old(self)@,
            effect@ == (EffectView::CreateUser {
                request: create_request(old(self)@.base_url, new_user_name(suffix@)),
            }),
    {
        let mut name = "user_".to_owned();
        name.append(suffix);
        Effect::CreateUser { request: self.api_client.create_user(name.as_str()) }
    }

    /// Asks for a new user with a random name: `user_` and eight random
    /// characters. The state does not change until the backend has
    /// answered.
    pub fn handle_create_new_user(&mut self) -> (effect: Effect)
        ensures
            final(self)@ == old(self)@,
            exists|suffix: Seq<char>|
                suffix.len() == 8 && effect@ == (EffectView::CreateUser {
                    request: create_request(old(self)@.base_url, new_user_name(suffix)),
                }),
    {
        let suffix = short_id();
        let effect = self.handle_create_new_user_with(suffix.as_str());
        assert(effect@ == (EffectView::CreateUser {
            request: create_request(old(self)@.base_url, new_user_name(suffix@)),
        }));
        effect
    }

    /// Takes in the answer to the creation of a user, with `session_id` as
    /// the id of the session that a creation starts. A refusal changes
    /// nothing. After a creation the new user is known and active, the
    /// session id is `session_id`, the log holds the creation notice alone,
    /// and a turn that was in flight is abandoned.
    pub fn finish_create_user_with(&mut self, response: UserSwitchResponse, session_id: String) -> (effect:
        Effect)
        ensures
            !response.success ==> final(self)@ == old(self)@ && effect@ is Nothing,
            response.success ==> {
                &&& final(self)@ == (AppView {
                    messages: final(self)@.messages,
                    session_id: session_id@,
                    current_user_id: response.user_id@,
                    show_user_dropdown: false,
                    available_users: users_with(
                        old(self)@.available_users,
                        response.user_id@,
                    ),
                    ..abandoned(old(self)@)
                })
                &&& log_reset(final(self)@.messages, created_text(response.user_id@))
                &&& effect@ is RefreshSidebar
            },
    {
        if !response.success {
            return Effect::Nothing;
        }
        self.abandon_stream();
        let mut text = "Created and switched to new user: ".to_owned();
        text.append(response.user_id.as_str());
        text.append("\nNew session started.");
        if !contains_user(&self.available_users, response.user_id.as_str()) {
            let ghost before = self@.available_users;
            self.available_users.push(response.user_id.clone());
            assert(self@.available_users =~= before.push(response.user_id@));
        }
        self.current_user_id = response.user_id;
        self.show_user_dropdown = false;
        self.session_id = session_id;
        self.reset_log(text.as_str());
        Effect::RefreshSidebar
    }

    /// Takes in the answer to the creation of a user. A refusal changes
    /// nothing. After a creation the new user is known and active, the
    /// session id is a fresh one of eight characters, the log holds the
    /// creation notice alone, and a turn that was in flight is abandoned.
    pub fn finish_create_user(&mut self, response: UserSwitchResponse) -> (effect: Effect)
        ensures
            !response.success ==> final(self)@ == old(self)@ && effect@ is Nothing,
            response.success ==> {
                &&& final(self)@ == (AppView {
                    messages: final(self)@.messages,
                    session_id: final(self)@.session_id,
                    current_user_id: response.user_id@,
                    show_user_dropdown: false,
                    available_users: users_with(
                        old(self)@.available_users,
                        response.user_id@,
                    ),
                    ..abandoned(old(self)@)
                })
                &&& log_reset(final(self)@.messages, created_text(response.user_id@))
                &&& final(self)@.session_id.len() == 8
                &&& effect@ is RefreshSidebar
            },
    {
        if !response.success {
            return Effect::Nothing;
        }
        self.finish_create_user_with(response, short_id())
    }

    /// Reloads what the sidebar shows. The context of a turn arrives with
    /// its stream, so there is nothing to reload and the state stays as it
    /// is.
    pub fn refresh_sidebar_data(&mut self)
        ensures
            final(self)@ == old(self)@,
    {
    }

    /// Folds or unfolds the memory panel.
    pub fn toggle_memory(&mut self)
        ensures
            final(self)@ == (AppView {
                memory_expanded: !old(self)@.memory_expanded,
                ..old(self)@
            }),
    {
        self.memory_expanded = !self.memory_expanded;
    }

    /// Folds or unfolds the knowledge panel.
    pub fn toggle_knowledge(&mut self)
        ensures
            final(self)@ == (AppView {
                knowledge_expanded: !old(self)@.knowledge_expanded,
                ..old(self)@
            }),
    {
        self.knowledge_expanded = !self.knowledge_expanded;
    }

    /// Folds or unfolds the tool panel.
    pub fn toggle_tools(&mut self)
        ensures
            final(self)@ == (AppView { tool_expanded: !old(self)@.tool_expanded, ..old(self)@ }),
    {
        self.tool_expanded = !self.tool_expanded;
    }
}

} // verus!
