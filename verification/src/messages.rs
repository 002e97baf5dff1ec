//! Messages of a transcript, models and session entries, as plain data.
//!
//! What is a list inside a value is shared, so that every type here has a `Clone` whose result is
//! the value itself.

use crate::json;
use crate::json::Json;
use crate::text;
use std::sync::Arc;
use vstd::prelude::*;

verus! {

/// The members of a JSON object.
pub type JsonObject = Arc<Vec<(String, Json)>>;

/// How much a model thinks before it answers.
#[derive(Clone, Copy, Debug, PartialEq, Eq, Structural)]
pub enum ModelThinkingLevel {
    Off,
    Minimal,
    Low,
    Medium,
    High,
    Xhigh,
    Max,
}

/// What a model calls each thinking level: an entry without a value marks a level that the model
/// does not support.
pub type ThinkingLevelMap = Arc<Vec<(ModelThinkingLevel, Option<String>)>>;

/// A model of a provider.
#[derive(Debug, PartialEq)]
pub struct Model {
    pub id: String,
    pub name: String,
    pub api: String,
    pub provider: String,
    pub base_url: String,
    pub reasoning: bool,
    pub thinking_level_map: Option<ThinkingLevelMap>,
    pub context_window: u64,
    pub max_tokens: u64,
}

impl Clone for Model {
    fn clone(&self) -> (r: Self)
        ensures
            r == *self,
    {
        Model {
            id: self.id.clone(),
            name: self.name.clone(),
            api: self.api.clone(),
            provider: self.provider.clone(),
            base_url: self.base_url.clone(),
            reasoning: self.reasoning,
            thinking_level_map: match &self.thinking_level_map {
                Some(map) => Some(json::share(map)),
                None => None,
            },
            context_window: self.context_window,
            max_tokens: self.max_tokens,
        }
    }
}

/// A model with the thinking level that it is to be used with, as chosen for a session.
#[derive(Debug, PartialEq)]
pub struct ScopedModel {
    /// Model entry.
    pub model: Model,
    /// Thinking level to use with this model.
    pub thinking_level: Option<ModelThinkingLevel>,
}

impl Clone for ScopedModel {
    fn clone(&self) -> (r: Self)
        ensures
            r == *self,
    {
        ScopedModel { model: self.model.clone(), thinking_level: self.thinking_level }
    }
}

/// Why an assistant message ended.
#[derive(Clone, Copy, Debug, PartialEq, Eq, Structural)]
pub enum StopReason {
    Stop,
    Length,
    ToolUse,
    Error,
    Aborted,
}

/// Tokens that a request was billed for.
#[derive(Clone, Copy, Debug, PartialEq, Eq, Structural)]
pub struct Usage {
    pub input: u64,
    pub output: u64,
    pub cache_read: u64,
    pub cache_write: u64,
    pub total_tokens: u64,
}

impl Default for Usage {
    fn default() -> (r: Self)
        ensures
            r == (Usage { input: 0, output: 0, cache_read: 0, cache_write: 0, total_tokens: 0 }),
    {
        Usage { input: 0, output: 0, cache_read: 0, cache_write: 0, total_tokens: 0 }
    }
}

/// A tool call of an assistant message.
#[derive(Debug, PartialEq)]
pub struct ToolCall {
    pub id: String,
    pub name: String,
    pub arguments: JsonObject,
}

/// A block of an assistant message.
#[derive(Debug, PartialEq)]
pub enum AssistantContent {
    Text(String),
    Thinking(String),
    ToolCall(ToolCall),
}

/// An answer of a model.
#[derive(Debug, PartialEq)]
pub struct AssistantMessage {
    pub api: String,
    pub provider: String,
    pub model: String,
    pub timestamp: i64,
    pub content: Arc<Vec<AssistantContent>>,
    pub stop_reason: StopReason,
    pub error_message: Option<String>,
    pub usage: Usage,
}

impl AssistantMessage {
    /// An empty answer that stopped of itself.
    pub fn new(api: &str, provider: &str, model: &str, timestamp: i64) -> (r: Self)
        ensures
            r.api@ == api@,
            r.provider@ == provider@,
            r.model@ == model@,
            r.timestamp == timestamp,
            r.content@.len() == 0,
            r.stop_reason == StopReason::Stop,
            r.error_message is None,
            r.usage == (Usage {
                input: 0,
                output: 0,
                cache_read: 0,
                cache_write: 0,
                total_tokens: 0,
            }),
    {
        AssistantMessage {
            api: api.to_owned(),
            provider: provider.to_owned(),
            model: model.to_owned(),
            timestamp,
            content: Arc::new(Vec::new()),
            stop_reason: StopReason::Stop,
            error_message: None,
            usage: Usage::default(),
        }
    }
}

impl Clone for AssistantMessage {
    fn clone(&self) -> (r: Self)
        ensures
            r == *self,
    {
        AssistantMessage {
            api: self.api.clone(),
            provider: self.provider.clone(),
            model: self.model.clone(),
            timestamp: self.timestamp,
            content: json::share(&self.content),
            stop_reason: self.stop_reason,
            error_message: clone_text(&self.error_message),
            usage: self.usage,
        }
    }
}

/// A copy of an optional text.
pub fn clone_text(t: &Option<String>) -> (r: Option<String>)
    ensures
        r == *t,
{
    match t {
        Some(s) => Some(s.clone()),
        None => None,
    }
}

/// A copy of a list of texts.
pub fn clone_texts(v: &Vec<String>) -> (r: Vec<String>)
    ensures
        r@ == v@,
{
    let r = v.clone();
    assert(r@ =~= v@);
    r
}

/// An image attachment.
#[derive(Debug, PartialEq)]
pub struct ImageContent {
    pub data: String,
    pub mime_type: String,
}

impl Clone for ImageContent {
    fn clone(&self) -> (r: Self)
        ensures
            r == *self,
    {
        ImageContent { data: self.data.clone(), mime_type: self.mime_type.clone() }
    }
}

/// A block of a user message or of a tool result.
#[derive(Debug, PartialEq)]
pub enum UserContent {
    Text(String),
    Image(ImageContent),
}

impl Clone for UserContent {
    fn clone(&self) -> (r: Self)
        ensures
            r == *self,
    {
        match self {
            UserContent::Text(t) => UserContent::Text(t.clone()),
            UserContent::Image(i) => UserContent::Image(i.clone()),
        }
    }
}

/// The content of a user message: a text or a list of blocks.
#[derive(Debug, PartialEq)]
pub enum UserMessageContent {
    Text(String),
    Blocks(Arc<Vec<UserContent>>),
}

/// A message of the user.
#[derive(Debug, PartialEq)]
pub struct UserMessage {
    pub content: UserMessageContent,
    pub timestamp: i64,
}

impl Clone for UserMessage {
    fn clone(&self) -> (r: Self)
        ensures
            r == *self,
    {
        UserMessage {
            content: match &self.content {
                UserMessageContent::Text(t) => UserMessageContent::Text(t.clone()),
                UserMessageContent::Blocks(b) => UserMessageContent::Blocks(json::share(b)),
            },
            timestamp: self.timestamp,
        }
    }
}

/// The result of one tool call, as a message.
#[derive(Debug, PartialEq)]
pub struct ToolResultMessage {
    pub tool_call_id: String,
    pub tool_name: String,
    pub content: Arc<Vec<UserContent>>,
    pub is_error: bool,
    pub timestamp: i64,
}

impl Clone for ToolResultMessage {
    fn clone(&self) -> (r: Self)
        ensures
            r == *self,
    {
        ToolResultMessage {
            tool_call_id: self.tool_call_id.clone(),
            tool_name: self.tool_name.clone(),
            content: json::share(&self.content),
            is_error: self.is_error,
            timestamp: self.timestamp,
        }
    }
}

/// A message that a model understands.
#[derive(Debug, PartialEq)]
pub enum Message {
    System(String),
    User(UserMessage),
    Assistant(AssistantMessage),
    ToolResult(ToolResultMessage),
}

impl Clone for Message {
    fn clone(&self) -> (r: Self)
        ensures
            r == *self,
    {
        match self {
            Message::System(t) => Message::System(t.clone()),
            Message::User(m) => Message::User(m.clone()),
            Message::Assistant(m) => Message::Assistant(m.clone()),
            Message::ToolResult(m) => Message::ToolResult(m.clone()),
        }
    }
}

/// A message of the product's own, with a role that no model knows.
#[derive(Debug, PartialEq)]
pub struct CustomAgentMessage {
    pub role: String,
    pub payload: JsonObject,
}

impl Clone for CustomAgentMessage {
    fn clone(&self) -> (r: Self)
        ensures
            r == *self,
    {
        CustomAgentMessage { role: self.role.clone(), payload: json::share(&self.payload) }
    }
}

/// A message of the transcript.
#[derive(Debug, PartialEq)]
pub enum AgentMessage {
    Llm(Message),
    Custom(CustomAgentMessage),
}

impl Clone for AgentMessage {
    fn clone(&self) -> (r: Self)
        ensures
            r == *self,
    {
        match self {
            AgentMessage::Llm(m) => AgentMessage::Llm(m.clone()),
            AgentMessage::Custom(m) => AgentMessage::Custom(m.clone()),
        }
    }
}

/// The role of a message.
pub open spec fn role_of(m: AgentMessage) -> Seq<char> {
    match m {
        AgentMessage::Llm(Message::System(_)) => "system"@,
        AgentMessage::Llm(Message::User(_)) => "user"@,
        AgentMessage::Llm(Message::Assistant(_)) => "assistant"@,
        AgentMessage::Llm(Message::ToolResult(_)) => "toolResult"@,
        AgentMessage::Custom(c) => c.role@,
    }
}

impl AgentMessage {
    /// The role of the message.
    pub fn role(&self) -> (r: &str)
        ensures
            r@ == role_of(*self),
    {
        match self {
            AgentMessage::Llm(Message::System(_)) => "system",
            AgentMessage::Llm(Message::User(_)) => "user",
            AgentMessage::Llm(Message::Assistant(_)) => "assistant",
            AgentMessage::Llm(Message::ToolResult(_)) => "toolResult",
            AgentMessage::Custom(c) => c.role.as_str(),
        }
    }

    /// Whether the role of the message is `role`.
    pub fn has_role(&self, role: &str) -> (b: bool)
        ensures
            b == (role_of(*self) == role@),
    {
        text::same_text(self.role(), role)
    }
}

/// A copy of a list of messages.
pub fn clone_messages(v: &Vec<AgentMessage>) -> (r: Vec<AgentMessage>)
    ensures
        r@ == v@,
{
    let r = v.clone();
    assert(r@ =~= v@);
    r
}

/// What a tool gave back.
#[derive(Debug, PartialEq)]
pub struct AgentToolResult {
    pub content: Arc<Vec<UserContent>>,
    pub details: Json,
}

impl Clone for AgentToolResult {
    fn clone(&self) -> (r: Self)
        ensures
            r == *self,
    {
        AgentToolResult { content: json::share(&self.content), details: self.details.clone() }
    }
}

/// The record of a message.
#[derive(Debug, PartialEq)]
pub struct SessionMessageEntry {
    pub id: String,
    pub timestamp: String,
    pub message: AgentMessage,
}

/// The record of a compaction: a summary in place of what was before `first_kept_entry_id`.
#[derive(Debug, PartialEq)]
pub struct CompactionEntry {
    pub id: String,
    pub timestamp: String,
    pub summary: String,
    pub first_kept_entry_id: String,
    pub tokens_before: i64,
    pub details: Option<Json>,
    pub from_hook: Option<bool>,
    pub usage: Option<Usage>,
}

impl Clone for CompactionEntry {
    fn clone(&self) -> (r: Self)
        ensures
            r == *self,
    {
        CompactionEntry {
            id: self.id.clone(),
            timestamp: self.timestamp.clone(),
            summary: self.summary.clone(),
            first_kept_entry_id: self.first_kept_entry_id.clone(),
            tokens_before: self.tokens_before,
            details: match &self.details {
                Some(d) => Some(d.clone()),
                None => None,
            },
            from_hook: self.from_hook,
            usage: self.usage,
        }
    }
}

/// The record of a branch that was left, with its summary.
#[derive(Debug, PartialEq)]
pub struct BranchSummaryEntry {
    pub id: String,
    pub timestamp: String,
    pub summary: String,
    pub usage: Option<Usage>,
}

/// A record of the session tree.
#[derive(Debug, PartialEq)]
pub enum SessionEntry {
    Message(SessionMessageEntry),
    Compaction(CompactionEntry),
    BranchSummary(BranchSummaryEntry),
    /// Any other record: a change of model or thinking level, a label, the session's name and data
    /// of extensions.
    Other { id: String, kind: String },
}

impl Clone for SessionEntry {
    fn clone(&self) -> (r: Self)
        ensures
            r == *self,
    {
        match self {
            SessionEntry::Message(e) => SessionEntry::Message(
                SessionMessageEntry {
                    id: e.id.clone(),
                    timestamp: e.timestamp.clone(),
                    message: e.message.clone(),
                },
            ),
            SessionEntry::Compaction(e) => SessionEntry::Compaction(e.clone()),
            SessionEntry::BranchSummary(e) => SessionEntry::BranchSummary(
                BranchSummaryEntry {
                    id: e.id.clone(),
                    timestamp: e.timestamp.clone(),
                    summary: e.summary.clone(),
                    usage: e.usage,
                },
            ),
            SessionEntry::Other { id, kind } => SessionEntry::Other {
                id: id.clone(),
                kind: kind.clone(),
            },
        }
    }
}

/// The result of a compaction.
#[derive(Debug, PartialEq)]
pub struct CompactionResult {
    pub summary: String,
    pub first_kept_entry_id: String,
    pub tokens_before: u64,
    pub estimated_tokens_after: Option<u64>,
    pub details: Option<Json>,
    pub from_hook: Option<bool>,
    pub usage: Option<Usage>,
}

impl Clone for CompactionResult {
    fn clone(&self) -> (r: Self)
        ensures
            r == *self,
    {
        CompactionResult {
            summary: self.summary.clone(),
            first_kept_entry_id: self.first_kept_entry_id.clone(),
            tokens_before: self.tokens_before,
            estimated_tokens_after: self.estimated_tokens_after,
            details: match &self.details {
                Some(d) => Some(d.clone()),
                None => None,
            },
            from_hook: self.from_hook,
            usage: self.usage,
        }
    }
}

// ---------------------------------------------------------------------------
// What the operations promise
// ---------------------------------------------------------------------------

/// Each kind of message has its role, and a message of an application the one that it names; a
/// message has that role and no other.
pub proof fn law_messages_have_their_roles(
    message: &AgentMessage,
    role: &str,
    other: &str,
    has: bool,
)
    requires
        call_ensures(AgentMessage::role, (message,), role),
        call_ensures(AgentMessage::has_role, (message, other), has),
    ensures
        *message matches AgentMessage::Llm(Message::System(_)) ==> role@ == "system"@,
        *message matches AgentMessage::Llm(Message::User(_)) ==> role@ == "user"@,
        *message matches AgentMessage::Llm(Message::Assistant(_)) ==> role@ == "assistant"@,
        *message matches AgentMessage::Llm(Message::ToolResult(_)) ==> role@ == "toolResult"@,
        *message matches AgentMessage::Custom(c) ==> role@ == c.role@,
        has <==> role@ == other@,
{
}

/// A new answer is empty, has cost nothing, and tells who gave it and when.
pub proof fn law_a_new_answer_is_empty(
    api: &str,
    provider: &str,
    model: &str,
    timestamp: i64,
    r: AssistantMessage,
)
    requires
        call_ensures(AssistantMessage::new, (api, provider, model, timestamp), r),
    ensures
        r.api@ == api@ && r.provider@ == provider@ && r.model@ == model@,
        r.timestamp == timestamp,
        r.content@.len() == 0,
        r.stop_reason == StopReason::Stop && r.error_message is None,
        r.usage.input == 0 && r.usage.output == 0 && r.usage.cache_read == 0 && r.usage.cache_write
            == 0 && r.usage.total_tokens == 0,
{
}

/// A copy is the same: of a text, of texts and of messages, each in its place.
pub proof fn law_copies_are_the_same(
    text: &Option<String>,
    texts: &Vec<String>,
    messages: &Vec<AgentMessage>,
    a: Option<String>,
    b: Vec<String>,
    c: Vec<AgentMessage>,
    i: int,
)
    requires
        call_ensures(clone_text, (text,), a),
        call_ensures(clone_texts, (texts,), b),
        call_ensures(clone_messages, (messages,), c),
    ensures
        a is Some <==> *text is Some,
        a is Some ==> a->0@ == (*text)->0@,
        b@.len() == texts@.len(),
        0 <= i < texts@.len() ==> b@[i]@ == texts@[i]@,
        c@.len() == messages@.len(),
        0 <= i < messages@.len() ==> c@[i] == messages@[i],
{
}

} // verus!
