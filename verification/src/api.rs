//! The wire-level data of the agent backend: request and response payloads,
//! the events of a chat stream, and the requests that the client issues.
use crate::text::{chars_of, digits, has_prefix, nat_to_string, starts_with, string_of, strings_view};
use crate::trusted::{percent_encode, url_encoded};
use vstd::prelude::*;

verus! {

/// The view of an optional string.
pub open spec fn opt_view(o: Option<String>) -> Option<Seq<char>> {
    match o {
        Some(s) => Some(s@),
        None => None,
    }
}

/// Body of a non-streaming chat request.
#[derive(Debug, Clone)]
pub struct ChatRequest {
    pub message: String,
    pub session_id: Option<String>,
}

pub struct ChatRequestView {
    pub message: Seq<char>,
    pub session_id: Option<Seq<char>>,
}

impl View for ChatRequest {
    type V = ChatRequestView;

    open spec fn view(&self) -> ChatRequestView {
        ChatRequestView { message: self.message@, session_id: opt_view(self.session_id) }
    }
}

/// A tool invocation as the backend reports it in a summary.
#[derive(Debug, Clone)]
pub struct ToolCall {
    pub name: String,
    pub arguments: serde_json::Value,
    pub result: Option<String>,
    pub success: bool,
}

pub struct ToolCallView {
    pub name: Seq<char>,
    pub arguments: serde_json::Value,
    pub result: Option<Seq<char>>,
    pub success: bool,
}

impl View for ToolCall {
    type V = ToolCallView;

    open spec fn view(&self) -> ToolCallView {
        ToolCallView {
            name: self.name@,
            arguments: self.arguments,
            result: opt_view(self.result),
            success: self.success,
        }
    }
}

/// The views of a vector of tool calls.
pub open spec fn tool_calls_view(v: Seq<ToolCall>) -> Seq<ToolCallView> {
    v.map_values(|t: ToolCall| t@)
}

/// Answer to a non-streaming chat request.
#[derive(Debug, Clone)]
pub struct ChatResponse {
    pub response: String,
    pub tool_calls: Vec<ToolCall>,
    pub session_id: String,
}

/// What the backend says of itself.
#[derive(Debug, Clone)]
pub struct AgentInfo {
    pub provider: String,
    pub model: String,
    pub skills: Vec<String>,
    pub tools: Vec<String>,
    pub memory_enabled: bool,
    pub knowledge_enabled: bool,
}

pub struct AgentInfoView {
    pub provider: Seq<char>,
    pub model: Seq<char>,
    pub skills: Seq<Seq<char>>,
    pub tools: Seq<Seq<char>>,
    pub memory_enabled: bool,
    pub knowledge_enabled: bool,
}

impl View for AgentInfo {
    type V = AgentInfoView;

    open spec fn view(&self) -> AgentInfoView {
        AgentInfoView {
            provider: self.provider@,
            model: self.model@,
            skills: strings_view(self.skills@),
            tools: strings_view(self.tools@),
            memory_enabled: self.memory_enabled,
            knowledge_enabled: self.knowledge_enabled,
        }
    }
}

/// A stored memory. `energy_bits` is the bit pattern of the item's energy,
/// a 32-bit IEEE 754 number.
#[derive(Debug, Clone)]
pub struct MemoryItem {
    pub id: String,
    pub content: String,
    pub energy_bits: u32,
    pub tier: String,
}

/// Answer to a memory-context query.
#[derive(Debug, Clone)]
pub struct MemoryContextResponse {
    pub items: Vec<MemoryItem>,
    pub message: Option<String>,
    pub error: Option<String>,
}

/// A learned fact. `confidence_bits` is the bit pattern of the fact's
/// confidence, a 32-bit IEEE 754 number.
#[derive(Debug, Clone)]
pub struct KnowledgeTriple {
    pub id: String,
    pub subject: String,
    pub predicate: String,
    pub object: String,
    pub confidence_bits: u32,
    pub source: String,
}

/// Answer to a knowledge query.
#[derive(Debug, Clone)]
pub struct KnowledgeTriplesResponse {
    pub triples: Vec<KnowledgeTriple>,
    pub message: Option<String>,
    pub error: Option<String>,
}

/// Sizes of the memory tiers.
#[derive(Debug, Clone, Copy, PartialEq, Eq, Structural)]
pub struct MemoryStats {
    pub l1_count: i64,
    pub l2_vector_count: i64,
    pub l2_graph_nodes: i64,
    pub l2_graph_edges: i64,
    pub l3_facts: i64,
    pub l3_links: i64,
}

impl Default for MemoryStats {
    fn default() -> (r: MemoryStats)
        ensures
            r == (MemoryStats {
                l1_count: 0,
                l2_vector_count: 0,
                l2_graph_nodes: 0,
                l2_graph_edges: 0,
                l3_facts: 0,
                l3_links: 0,
            }),
    {
        MemoryStats {
            l1_count: 0,
            l2_vector_count: 0,
            l2_graph_nodes: 0,
            l2_graph_edges: 0,
            l3_facts: 0,
            l3_links: 0,
        }
    }
}

/// Sizes of the knowledge store.
#[derive(Debug, Clone)]
pub struct KnowledgeStats {
    pub total_triples: i64,
    pub unique_subjects: i64,
    pub unique_predicates: i64,
    pub total_updates: i64,
    pub pending_confirmations: i64,
    pub status: Option<String>,
}

pub struct KnowledgeStatsView {
    pub total_triples: int,
    pub unique_subjects: int,
    pub unique_predicates: int,
    pub total_updates: int,
    pub pending_confirmations: int,
    pub status: Option<Seq<char>>,
}

impl View for KnowledgeStats {
    type V = KnowledgeStatsView;

    open spec fn view(&self) -> KnowledgeStatsView {
        KnowledgeStatsView {
            total_triples: self.total_triples as int,
            unique_subjects: self.unique_subjects as int,
            unique_predicates: self.unique_predicates as int,
            total_updates: self.total_updates as int,
            pending_confirmations: self.pending_confirmations as int,
            status: opt_view(self.status),
        }
    }
}

impl Default for KnowledgeStats {
    fn default() -> (r: KnowledgeStats)
        ensures
            r@ == (KnowledgeStatsView {
                total_triples: 0,
                unique_subjects: 0,
                unique_predicates: 0,
                total_updates: 0,
                pending_confirmations: 0,
                status: None,
            }),
    {
        KnowledgeStats {
            total_triples: 0,
            unique_subjects: 0,
            unique_predicates: 0,
            total_updates: 0,
            pending_confirmations: 0,
            status: None,
        }
    }
}

/// The known users and the active one.
#[derive(Debug, Clone)]
pub struct UsersResponse {
    pub users: Vec<String>,
    pub current: String,
}

impl Default for UsersResponse {
    fn default() -> (r: UsersResponse)
        ensures
            r.users@.len() == 0,
            r.current@.len() == 0,
    {
        UsersResponse { users: Vec::new(), current: String::new() }
    }
}

/// Answer to a request to switch to, or create, a user.
#[derive(Debug, Clone)]
pub struct UserSwitchResponse {
    pub success: bool,
    pub user_id: String,
}

/// A memory that was retrieved for the query of the current turn.
#[derive(Debug, Clone)]
pub struct ContextMemory {
    pub content: String,
    pub energy_bits: u32,
    pub tier: String,
}

pub struct ContextMemoryView {
    pub content: Seq<char>,
    pub energy_bits: u32,
    pub tier: Seq<char>,
}

impl View for ContextMemory {
    type V = ContextMemoryView;

    open spec fn view(&self) -> ContextMemoryView {
        ContextMemoryView {
            content: self.content@,
            energy_bits: self.energy_bits,
            tier: self.tier@,
        }
    }
}

/// A fact that was retrieved for the query of the current turn.
#[derive(Debug, Clone)]
pub struct ContextKnowledge {
    pub subject: String,
    pub predicate: String,
    pub object: String,
    pub confidence_bits: u32,
    pub source: String,
}

pub struct ContextKnowledgeView {
    pub subject: Seq<char>,
    pub predicate: Seq<char>,
    pub object: Seq<char>,
    pub confidence_bits: u32,
    pub source: Seq<char>,
}

impl View for ContextKnowledge {
    type V = ContextKnowledgeView;

    open spec fn view(&self) -> ContextKnowledgeView {
        ContextKnowledgeView {
            subject: self.subject@,
            predicate: self.predicate@,
            object: self.object@,
            confidence_bits: self.confidence_bits,
            source: self.source@,
        }
    }
}

/// The views of a vector of context memories.
pub open spec fn memories_view(v: Seq<ContextMemory>) -> Seq<ContextMemoryView> {
    v.map_values(|m: ContextMemory| m@)
}

/// The views of a vector of context facts.
pub open spec fn knowledge_view(v: Seq<ContextKnowledge>) -> Seq<ContextKnowledgeView> {
    v.map_values(|k: ContextKnowledge| k@)
}

/// A tool call as the closing event of a stream lists it.
#[derive(Debug, Clone)]
pub struct StreamToolCall {
    pub name: String,
    pub arguments: serde_json::Value,
}

pub struct StreamToolCallView {
    pub name: Seq<char>,
    pub arguments: serde_json::Value,
}

impl View for StreamToolCall {
    type V = StreamToolCallView;

    open spec fn view(&self) -> StreamToolCallView {
        StreamToolCallView { name: self.name@, arguments: self.arguments }
    }
}

/// The views of a vector of stream tool calls.
pub open spec fn stream_calls_view(v: Seq<StreamToolCall>) -> Seq<StreamToolCallView> {
    v.map_values(|t: StreamToolCall| t@)
}

/// One decoded event of a chat stream.
#[derive(Debug, Clone)]
pub enum StreamEvent {
    Context { memories: Vec<ContextMemory>, knowledge: Vec<ContextKnowledge> },
    Chunk { content: String },
    ToolStart { name: String, arguments: serde_json::Value, id: String },
    ToolResult { id: String, result: String },
    Done { tool_calls: Vec<StreamToolCall> },
    Error { content: String },
}

pub enum StreamEventView {
    Context { memories: Seq<ContextMemoryView>, knowledge: Seq<ContextKnowledgeView> },
    Chunk { content: Seq<char> },
    ToolStart { name: Seq<char>, arguments: serde_json::Value, id: Seq<char> },
    ToolResult { id: Seq<char>, result: Seq<char> },
    Done { tool_calls: Seq<StreamToolCallView> },
    Error { content: Seq<char> },
}

impl View for StreamEvent {
    type V = StreamEventView;

    open spec fn view(&self) -> StreamEventView {
        match *self {
            StreamEvent::Context { memories, knowledge } => StreamEventView::Context {
                memories: memories_view(memories@),
                knowledge: knowledge_view(knowledge@),
            },
            StreamEvent::Chunk { content } => StreamEventView::Chunk { content: content@ },
            StreamEvent::ToolStart { name, arguments, id } => StreamEventView::ToolStart {
                name: name@,
                arguments: arguments,
                id: id@,
            },
            StreamEvent::ToolResult { id, result } => StreamEventView::ToolResult {
                id: id@,
                result: result@,
            },
            StreamEvent::Done { tool_calls } => StreamEventView::Done {
                tool_calls: stream_calls_view(tool_calls@),
            },
            StreamEvent::Error { content } => StreamEventView::Error { content: content@ },
        }
    }
}

/// The tool calls of a closing event as finished records: the result is
/// left out and every call counts as a success.
pub open spec fn finalized(calls: Seq<StreamToolCallView>) -> Seq<ToolCallView> {
    calls.map_values(
        |c: StreamToolCallView|
            ToolCallView { name: c.name, arguments: c.arguments, result: None, success: true },
    )
}

/// Turns the tool calls of a closing event into finished records.
pub fn finalize_calls(calls: &Vec<StreamToolCall>) -> (r: Vec<ToolCall>)
    ensures
        tool_calls_view(r@) == finalized(stream_calls_view(calls@)),
{
    let mut out: Vec<ToolCall> = Vec::new();
    let mut i: usize = 0;
    while i < calls.len()
        invariant
            i <= calls@.len(),
            tool_calls_view(out@) == finalized(stream_calls_view(calls@).subrange(0, i as int)),
        decreases calls@.len() - i,
    {
        let ghost done = tool_calls_view(out@);
        let ghost src = stream_calls_view(calls@);
        let c = &calls[i];
        let t = ToolCall {
            name: c.name.clone(),
            arguments: c.arguments.clone(),
            result: None,
            success: true,
        };
        assert(t@ == finalized(src)[i as int]);
        out.push(t);
        i = i + 1;
        assert(tool_calls_view(out@) =~= done.push(t@));
        assert(finalized(src.subrange(0, i as int)) =~= finalized(src.subrange(0, i - 1)).push(
            finalized(src)[i - 1],
        ));
    }
    assert(stream_calls_view(calls@).subrange(0, calls@.len() as int) =~= stream_calls_view(
        calls@,
    ));
    out
}

/// The tool calls that a stream reports once the event `e` has arrived,
/// where it reported `calls` before: a closing event replaces them by its
/// own, finished; any other event leaves them.
pub open spec fn calls_after(calls: Seq<ToolCallView>, e: StreamEventView) -> Seq<ToolCallView> {
    match e {
        StreamEventView::Done { tool_calls } => finalized(tool_calls),
        _ => calls,
    }
}

/// The tool calls that a stream reports when it has delivered `events`:
/// those of its last closing event, none if it never closed.
pub open spec fn reported_calls(events: Seq<StreamEventView>) -> Seq<ToolCallView>
    decreases events.len(),
{
    if events.len() == 0 {
        Seq::empty()
    } else {
        calls_after(reported_calls(events.drop_last()), events.last())
    }
}

/// Keeps the tool calls that a stream reports up to date with the event
/// `event`, which has just been decoded. Starting from no calls and fed
/// every event in order, `calls` ends as `reported_calls` of the stream.
pub fn record_event(calls: &mut Vec<ToolCall>, event: &StreamEvent)
    ensures
        tool_calls_view(final(calls)@) == calls_after(tool_calls_view(old(calls)@), event@),
{
    match event {
        StreamEvent::Done { tool_calls } => {
            *calls = finalize_calls(tool_calls);
        },
        _ => {},
    }
}

impl StreamEvent {
    /// The finished tool calls that a closing event carries; `None` for
    /// every other event.
    pub fn closing_calls(&self) -> (r: Option<Vec<ToolCall>>)
        ensures
            match r {
                Some(calls) => self@ is Done && tool_calls_view(calls@) == finalized(
                    self@->Done_tool_calls,
                ),
                None => !(self@ is Done),
            },
    {
        match self {
            StreamEvent::Done { tool_calls } => Some(finalize_calls(tool_calls)),
            _ => None,
        }
    }

    /// Whether the event ends its stream.
    pub fn is_terminal(&self) -> (b: bool)
        ensures
            b == (self@ is Done || self@ is Error),
    {
        match self {
            StreamEvent::Done { .. } => true,
            StreamEvent::Error { .. } => true,
            _ => false,
        }
    }
}

/// The JSON text that a line of an event stream carries: what follows the
/// marker `data: `. Lines without the marker carry nothing.
pub open spec fn payload_of(line: Seq<char>) -> Option<Seq<char>> {
    if has_prefix(line, "data: "@) {
        Some(line.subrange(6, line.len() as int))
    } else {
        None
    }
}

/// Extracts the JSON text of one line of an event stream.
pub fn sse_payload(line: &str) -> (r: Option<String>)
    ensures
        opt_view(r) == payload_of(line@),
{
    proof {
        reveal_strlit("data: ");
    }
    let v = chars_of(line);
    let marker = chars_of("data: ");
    if !starts_with(&v, &marker) {
        return None;
    }
    let mut rest: Vec<char> = Vec::new();
    let mut i: usize = 6;
    while i < v.len()
        invariant
            6 <= i <= v@.len(),
            rest@ == v@.subrange(6, i as int),
        decreases v@.len() - i,
    {
        rest.push(v[i]);
        i = i + 1;
        assert(rest@ =~= v@.subrange(6, i as int));
    }
    Some(string_of(&rest))
}

/// The verb of a request.
#[derive(Debug, Clone, Copy, PartialEq, Eq, Structural)]
pub enum HttpMethod {
    Get,
    Post,
}

/// A request to the backend, ready to be sent: verb, full URL and, for a
/// chat request, the body.
#[derive(Debug, Clone)]
pub struct ApiRequest {
    pub method: HttpMethod,
    pub url: String,
    pub body: Option<ChatRequest>,
}

pub struct RequestView {
    pub method: HttpMethod,
    pub url: Seq<char>,
    pub body: Option<ChatRequestView>,
}

impl View for ApiRequest {
    type V = RequestView;

    open spec fn view(&self) -> RequestView {
        RequestView {
            method: self.method,
            url: self.url@,
            body: match self.body {
                Some(b) => Some(b@),
                None => None,
            },
        }
    }
}

/// A request without a body.
pub open spec fn plain_request(method: HttpMethod, url: Seq<char>) -> RequestView {
    RequestView { method: method, url: url, body: None }
}

/// The session id as it stands in a query string: empty if there is none.
pub open spec fn session_text(session_id: Option<Seq<char>>) -> Seq<char> {
    match session_id {
        Some(s) => s,
        None => Seq::empty(),
    }
}

/// The request that opens the event stream of one chat turn.
pub open spec fn stream_request(
    base: Seq<char>,
    message: Seq<char>,
    session_id: Option<Seq<char>>,
) -> RequestView {
    plain_request(
        HttpMethod::Get,
        base + "/api/chat/stream?message="@ + url_encoded(message) + "&session_id="@
            + session_text(session_id),
    )
}

/// The request that clears the backend's history of a session.
pub open spec fn clear_request(base: Seq<char>, session_id: Option<Seq<char>>) -> RequestView {
    plain_request(
        HttpMethod::Post,
        base + "/api/chat/clear?session_id="@ + session_text(session_id),
    )
}

/// The request that makes `user_id` the active user.
pub open spec fn switch_request(base: Seq<char>, user_id: Seq<char>) -> RequestView {
    plain_request(HttpMethod::Post, base + "/api/user/switch?user_id="@ + url_encoded(user_id))
}

/// The request that creates the user `user_id`.
pub open spec fn create_request(base: Seq<char>, user_id: Seq<char>) -> RequestView {
    plain_request(HttpMethod::Post, base + "/api/user/create?user_id="@ + url_encoded(user_id))
}

/// Where the backend listens unless told otherwise.
pub const DEFAULT_API_URL: &'static str = "http://localhost:8765";

/// Builds the requests of the backend's HTTP interface over a fixed base
/// URL.
#[derive(Debug, Clone)]
pub struct ApiClient {
    base_url: String,
}

impl View for ApiClient {
    type V = Seq<char>;

    /// The base URL.
    closed spec fn view(&self) -> Seq<char> {
        self.base_url@
    }
}

impl ApiClient {
    /// A client for the backend at `base_url`, or at the default address.
    pub fn new(base_url: Option<String>) -> (r: ApiClient)
        ensures
            r@ == (match base_url {
                Some(u) => u@,
                None => DEFAULT_API_URL@,
            }),
    {
        match base_url {
            Some(u) => ApiClient { base_url: u },
            None => ApiClient { base_url: DEFAULT_API_URL.to_owned() },
        }
    }

    /// The base URL.
    pub fn get_base_url(&self) -> (r: &str)
        ensures
            r@ == self@,
    {
        self.base_url.as_str()
    }

    fn endpoint(&self, method: HttpMethod, path: &str) -> (r: ApiRequest)
        ensures
            r@ == plain_request(method, self@ + path@),
    {
        let mut url = self.base_url.clone();
        url.append(path);
        ApiRequest { method, url, body: None }
    }

    /// The non-streaming chat request: `message` and the session id go into
    /// the body.
    pub fn chat(&self, message: &str, session_id: Option<String>) -> (r: ApiRequest)
        ensures
            r@ == (RequestView {
                method: HttpMethod::Post,
                url: self@ + "/api/chat"@,
                body: Some(
                    ChatRequestView { message: message@, session_id: opt_view(session_id) },
                ),
            }),
    {
        let mut r = self.endpoint(HttpMethod::Post, "/api/chat");
        r.body = Some(ChatRequest { message: message.to_owned(), session_id });
        r
    }

    /// The request for the backend's description of itself.
    pub fn get_agent_info(&self) -> (r: ApiRequest)
        ensures
            r@ == plain_request(HttpMethod::Get, self@ + "/api/agent/info"@),
    {
        self.endpoint(HttpMethod::Get, "/api/agent/info")
    }

    /// The request for at most `limit` memories that match `query`. The
    /// query goes into the URL as it is.
    pub fn get_memory_context(&self, query: &str, limit: usize) -> (r: ApiRequest)
        ensures
            r@ == plain_request(
                HttpMethod::Get,
                self@ + "/api/memory/context?query="@ + query@ + "&limit="@ + digits(limit as nat),
            ),
    {
        let mut r = self.endpoint(HttpMethod::Get, "/api/memory/context?query=");
        r.url.append(query);
        r.url.append("&limit=");
        let n = nat_to_string(limit as u64);
        r.url.append(n.as_str());
        r
    }

    /// The request for the sizes of the memory tiers.
    pub fn get_memory_stats(&self) -> (r: ApiRequest)
        ensures
            r@ == plain_request(HttpMethod::Get, self@ + "/api/stats"@),
    {
        self.endpoint(HttpMethod::Get, "/api/stats")
    }

    /// The request for at most `limit` learned facts.
    pub fn get_knowledge_triples(&self, limit: usize) -> (r: ApiRequest)
        ensures
            r@ == plain_request(
                HttpMethod::Get,
                self@ + "/api/knowledge/triples?limit="@ + digits(limit as nat),
            ),
    {
        let mut r = self.endpoint(HttpMethod::Get, "/api/knowledge/triples?limit=");
        let n = nat_to_string(limit as u64);
        r.url.append(n.as_str());
        r
    }

    /// The request for the sizes of the knowledge store.
    pub fn get_knowledge_stats(&self) -> (r: ApiRequest)
        ensures
            r@ == plain_request(HttpMethod::Get, self@ + "/api/knowledge/stats"@),
    {
        self.endpoint(HttpMethod::Get, "/api/knowledge/stats")
    }

    /// The request for the list of users.
    pub fn get_users(&self) -> (r: ApiRequest)
        ensures
            r@ == plain_request(HttpMethod::Get, self@ + "/api/users"@),
    {
        self.endpoint(HttpMethod::Get, "/api/users")
    }

    /// The request that makes `user_id` the active user. The id is
    /// percent-encoded.
    pub fn switch_user(&self, user_id: &str) -> (r: ApiRequest)
        ensures
            r@ == switch_request(self@, user_id@),
    {
        let mut r = self.endpoint(HttpMethod::Post, "/api/user/switch?user_id=");
        let id = percent_encode(user_id);
        r.url.append(id.as_str());
        r
    }

    /// The request that creates the user `user_id` and makes it the active
    /// one. The id is percent-encoded.
    pub fn create_user(&self, user_id: &str) -> (r: ApiRequest)
        ensures
            r@ == create_request(self@, user_id@),
    {
        let mut r = self.endpoint(HttpMethod::Post, "/api/user/create?user_id=");
        let id = percent_encode(user_id);
        r.url.append(id.as_str());
        r
    }

    /// The request that clears the backend's history of a session.
    pub fn clear_chat(&self, session_id: Option<String>) -> (r: ApiRequest)
        ensures
            r@ == clear_request(self@, opt_view(session_id)),
    {
        let mut r = self.endpoint(HttpMethod::Post, "/api/chat/clear?session_id=");
        match session_id {
            Some(s) => {
                r.url.append(s.as_str());
            },
            None => {
                assert(r.url@ + Seq::<char>::empty() =~= r.url@);
            },
        }
        r
    }

    /// The request that opens the event stream of one chat turn. The
    /// message is percent-encoded, the session id goes in as it is.
    pub fn chat_stream(&self, message: &str, session_id: Option<String>) -> (r: ApiRequest)
        ensures
            r@ == stream_request(self@, message@, opt_view(session_id)),
    {
        let mut r = self.endpoint(HttpMethod::Get, "/api/chat/stream?message=");
        let m = percent_encode(message);
        r.url.append(m.as_str());
        r.url.append("&session_id=");
        match session_id {
            Some(s) => {
                r.url.append(s.as_str());
            },
            None => {
                assert(r.url@ + Seq::<char>::empty() =~= r.url@);
            },
        }
        r
    }
}

} // verus!
