//! Events of a session: those of the agent run, and those that the session adds to them.

use crate::json::Json;
use crate::messages::{
    AgentMessage, AgentToolResult, CompactionResult, JsonObject, Model, ModelThinkingLevel,
    SessionEntry, ToolResultMessage,
};
use std::sync::Arc;
use vstd::prelude::*;

verus! {

/// Why a compaction runs.
#[derive(Clone, Copy, Debug, PartialEq, Eq, Structural)]
pub enum CompactionReason {
    /// The user asked for it.
    Manual,
    /// The context has grown over the threshold.
    Threshold,
    /// The context has grown over the model's window.
    Overflow,
}

impl CompactionReason {
    /// The name of the reason.
    pub open spec fn name(self) -> Seq<char> {
        match self {
            CompactionReason::Manual => "manual"@,
            CompactionReason::Threshold => "threshold"@,
            CompactionReason::Overflow => "overflow"@,
        }
    }

    /// The name of the reason.
    pub fn as_str(self) -> (r: &'static str)
        ensures
            r@ == self.name(),
    {
        match self {
            CompactionReason::Manual => "manual",
            CompactionReason::Threshold => "threshold",
            CompactionReason::Overflow => "overflow",
        }
    }
}

/// What a retried summary is for.
#[derive(Clone, Copy, Debug, PartialEq, Eq, Structural)]
pub enum SummarizationRetrySource {
    /// The summary of a branch that is left.
    BranchSummary,
    /// The summary of a compaction.
    Compaction {
        /// Why the compaction runs.
        reason: CompactionReason,
    },
}

/// Why a session is about to be replaced.
#[derive(Clone, Copy, Debug, PartialEq, Eq, Structural)]
pub enum SessionBeforeSwitchReason {
    /// A new session is made.
    New,
    /// An existing or imported session is resumed.
    Resume,
}

/// Why a session started.
#[derive(Clone, Copy, Debug, PartialEq, Eq, Structural)]
pub enum SessionStartReason {
    /// First bind of this session.
    Startup,
    /// Bind after a reload.
    Reload,
    /// Bind after a replacement by a new session.
    New,
    /// Bind after a resume, a switch or an import.
    Resume,
    /// Bind after a replacement by a fork.
    Fork,
}

impl Default for SessionStartReason {
    fn default() -> (r: Self)
        ensures
            r == SessionStartReason::Startup,
    {
        SessionStartReason::Startup
    }
}

impl SessionStartReason {
    /// The wire name of the reason.
    pub open spec fn name(self) -> Seq<char> {
        match self {
            SessionStartReason::Startup => "startup"@,
            SessionStartReason::Reload => "reload"@,
            SessionStartReason::New => "new"@,
            SessionStartReason::Resume => "resume"@,
            SessionStartReason::Fork => "fork"@,
        }
    }

    /// The wire name of the reason.
    pub fn as_str(self) -> (r: &'static str)
        ensures
            r@ == self.name(),
    {
        match self {
            SessionStartReason::Startup => "startup",
            SessionStartReason::Reload => "reload",
            SessionStartReason::New => "new",
            SessionStartReason::Resume => "resume",
            SessionStartReason::Fork => "fork",
        }
    }
}

/// Why a session shuts down.
#[derive(Clone, Copy, Debug, PartialEq, Eq, Structural)]
pub enum SessionShutdownReason {
    /// A new session replaces this one.
    New,
    /// A resumed, switched or imported session replaces this one.
    Resume,
    /// A fork replaces this one.
    Fork,
    /// A reload.
    Reload,
    /// The end of the runtime.
    Quit,
}

impl SessionShutdownReason {
    /// The wire name of the reason.
    pub open spec fn name(self) -> Seq<char> {
        match self {
            SessionShutdownReason::New => "new"@,
            SessionShutdownReason::Resume => "resume"@,
            SessionShutdownReason::Fork => "fork"@,
            SessionShutdownReason::Reload => "reload"@,
            SessionShutdownReason::Quit => "quit"@,
        }
    }

    /// The wire name of the reason.
    pub fn as_str(self) -> (r: &'static str)
        ensures
            r@ == self.name(),
    {
        match self {
            SessionShutdownReason::New => "new",
            SessionShutdownReason::Resume => "resume",
            SessionShutdownReason::Fork => "fork",
            SessionShutdownReason::Reload => "reload",
            SessionShutdownReason::Quit => "quit",
        }
    }
}

/// How a session started: kept from its construction to its first bind.
#[derive(Debug, PartialEq)]
pub struct SessionStartEvent {
    /// Why this session started.
    pub reason: SessionStartReason,
    /// The session file that was active before.
    pub previous_session_file: Option<String>,
}

impl Default for SessionStartEvent {
    fn default() -> (r: Self)
        ensures
            r.reason == SessionStartReason::Startup,
            r.previous_session_file is None,
    {
        SessionStartEvent { reason: SessionStartReason::Startup, previous_session_file: None }
    }
}

/// Where a fork cuts.
#[derive(Clone, Copy, Debug, PartialEq, Eq, Structural)]
pub enum SessionBeforeForkPosition {
    /// From the parent of the selected user message.
    Before,
    /// At the selected entry.
    At,
}

/// What selected a model.
#[derive(Clone, Copy, Debug, PartialEq, Eq, Structural)]
pub enum ModelSelectSource {
    /// A choice.
    Chosen,
    /// A step through the models.
    Cycle,
    /// The restoration of a session.
    Restore,
}

/// An event of the agent run.
#[derive(Debug, PartialEq)]
pub enum AgentEvent {
    AgentStart,
    AgentEnd { messages: Arc<Vec<AgentMessage>> },
    TurnStart,
    TurnEnd { message: AgentMessage, tool_results: Arc<Vec<ToolResultMessage>> },
    MessageStart { message: AgentMessage },
    MessageUpdate { message: AgentMessage, assistant_message_event: Json },
    MessageEnd { message: AgentMessage },
    ToolExecutionStart { tool_call_id: String, tool_name: String, args: JsonObject },
    ToolExecutionUpdate {
        tool_call_id: String,
        tool_name: String,
        args: JsonObject,
        partial_result: AgentToolResult,
    },
    ToolExecutionEnd {
        tool_call_id: String,
        tool_name: String,
        result: AgentToolResult,
        is_error: bool,
    },
}

/// An event of the session.
#[allow(inconsistent_fields)]
#[derive(Debug, PartialEq)]
pub enum AgentSessionEvent {
    /// Extensions may cancel a switch of the session.
    SessionBeforeSwitch {
        reason: SessionBeforeSwitchReason,
        target_session_file: Option<String>,
    },
    /// Extensions may cancel a fork of the session.
    SessionBeforeFork { entry_id: String, position: SessionBeforeForkPosition },
    /// The session started. For extensions only.
    SessionStart { reason: SessionStartReason, previous_session_file: Option<String> },
    /// The session shuts down. For extensions only.
    SessionShutdown { reason: SessionShutdownReason, target_session_file: Option<String> },
    /// A model was selected.
    ModelSelect { model: Model, previous_model: Option<Model>, source: ModelSelectSource },
    /// An agent run has started.
    AgentStart,
    /// The agent run ended.
    AgentEnd {
        messages: Arc<Vec<AgentMessage>>,
        /// Whether a retry will go on with the run.
        will_retry: bool,
    },
    /// A turn begins.
    TurnStart,
    /// A turn ended.
    TurnEnd { message: AgentMessage, tool_results: Arc<Vec<ToolResultMessage>> },
    /// A message begins.
    MessageStart { message: AgentMessage },
    /// An assistant message grew.
    MessageUpdate { message: AgentMessage, assistant_message_event: Json },
    /// A message ended.
    MessageEnd { message: AgentMessage },
    /// A tool starts.
    ToolExecutionStart { tool_call_id: String, tool_name: String, args: JsonObject },
    /// A tool has a partial result.
    ToolExecutionUpdate {
        tool_call_id: String,
        tool_name: String,
        args: JsonObject,
        partial_result: AgentToolResult,
    },
    /// A tool ended.
    ToolExecutionEnd {
        tool_call_id: String,
        tool_name: String,
        result: AgentToolResult,
        is_error: bool,
    },
    /// The session is idle after its retries, compactions and queued messages.
    AgentSettled,
    /// The texts of the messages that wait.
    QueueUpdate { steering: Arc<Vec<String>>, follow_up: Arc<Vec<String>> },
    /// A compaction starts.
    CompactionStart { reason: CompactionReason },
    /// A compaction ended.
    CompactionEnd {
        reason: CompactionReason,
        result: Option<CompactionResult>,
        aborted: bool,
        /// Whether the session will retry after this compaction.
        will_retry: bool,
        error_message: Option<String>,
    },
    /// An entry was appended to the session.
    EntryAppended { entry: SessionEntry },
    /// The display name of the session changed.
    SessionInfoChanged { name: Option<String> },
    /// The thinking level changed.
    ThinkingLevelChanged { level: ModelThinkingLevel },
    /// The wait before a retry starts.
    AutoRetryStart { attempt: u32, max_attempts: u32, delay_ms: u64, error_message: String },
    /// Retrying ended.
    AutoRetryEnd { success: bool, attempt: u32, final_error: Option<String> },
    /// The wait before another summary request starts.
    SummarizationRetryScheduled {
        attempt: u32,
        max_attempts: u32,
        delay_ms: u64,
        error_message: String,
    },
    /// Another summary request starts.
    SummarizationRetryAttemptStart { source: SummarizationRetrySource },
    /// Retrying a summary request ended.
    SummarizationRetryFinished,
    /// A shell command wrote output.
    BashExecutionUpdate { id: Option<String>, delta: String },
}

/// The session event of an event of the agent run: the same event with the same data, where the end
/// of the run also says whether a retry follows.
pub open spec fn session_event(event: AgentEvent, will_retry: bool) -> AgentSessionEvent {
    match event {
        AgentEvent::AgentStart => AgentSessionEvent::AgentStart,
        AgentEvent::AgentEnd { messages } => AgentSessionEvent::AgentEnd { messages, will_retry },
        AgentEvent::TurnStart => AgentSessionEvent::TurnStart,
        AgentEvent::TurnEnd { message, tool_results } => AgentSessionEvent::TurnEnd {
            message,
            tool_results,
        },
        AgentEvent::MessageStart { message } => AgentSessionEvent::MessageStart { message },
        AgentEvent::MessageUpdate { message, assistant_message_event } =>
            AgentSessionEvent::MessageUpdate { message, assistant_message_event },
        AgentEvent::MessageEnd { message } => AgentSessionEvent::MessageEnd { message },
        AgentEvent::ToolExecutionStart { tool_call_id, tool_name, args } =>
            AgentSessionEvent::ToolExecutionStart { tool_call_id, tool_name, args },
        AgentEvent::ToolExecutionUpdate { tool_call_id, tool_name, args, partial_result } =>
            AgentSessionEvent::ToolExecutionUpdate { tool_call_id, tool_name, args, partial_result },
        AgentEvent::ToolExecutionEnd { tool_call_id, tool_name, result, is_error } =>
            AgentSessionEvent::ToolExecutionEnd { tool_call_id, tool_name, result, is_error },
    }
}

/// The wire name of an event of the agent run.
pub open spec fn agent_event_name(event: AgentEvent) -> Seq<char> {
    match event {
        AgentEvent::AgentStart => "agent_start"@,
        AgentEvent::AgentEnd { .. } => "agent_end"@,
        AgentEvent::TurnStart => "turn_start"@,
        AgentEvent::TurnEnd { .. } => "turn_end"@,
        AgentEvent::MessageStart { .. } => "message_start"@,
        AgentEvent::MessageUpdate { .. } => "message_update"@,
        AgentEvent::MessageEnd { .. } => "message_end"@,
        AgentEvent::ToolExecutionStart { .. } => "tool_execution_start"@,
        AgentEvent::ToolExecutionUpdate { .. } => "tool_execution_update"@,
        AgentEvent::ToolExecutionEnd { .. } => "tool_execution_end"@,
    }
}

/// The wire name of an event of the session.
pub open spec fn event_name(event: AgentSessionEvent) -> Seq<char> {
    match event {
        AgentSessionEvent::SessionBeforeSwitch { .. } => "session_before_switch"@,
        AgentSessionEvent::SessionBeforeFork { .. } => "session_before_fork"@,
        AgentSessionEvent::SessionStart { .. } => "session_start"@,
        AgentSessionEvent::SessionShutdown { .. } => "session_shutdown"@,
        AgentSessionEvent::ModelSelect { .. } => "model_select"@,
        AgentSessionEvent::AgentStart => "agent_start"@,
        AgentSessionEvent::AgentEnd { .. } => "agent_end"@,
        AgentSessionEvent::TurnStart => "turn_start"@,
        AgentSessionEvent::TurnEnd { .. } => "turn_end"@,
        AgentSessionEvent::MessageStart { .. } => "message_start"@,
        AgentSessionEvent::MessageUpdate { .. } => "message_update"@,
        AgentSessionEvent::MessageEnd { .. } => "message_end"@,
        AgentSessionEvent::ToolExecutionStart { .. } => "tool_execution_start"@,
        AgentSessionEvent::ToolExecutionUpdate { .. } => "tool_execution_update"@,
        AgentSessionEvent::ToolExecutionEnd { .. } => "tool_execution_end"@,
        AgentSessionEvent::AgentSettled => "agent_settled"@,
        AgentSessionEvent::QueueUpdate { .. } => "queue_update"@,
        AgentSessionEvent::CompactionStart { .. } => "compaction_start"@,
        AgentSessionEvent::CompactionEnd { .. } => "compaction_end"@,
        AgentSessionEvent::EntryAppended { .. } => "entry_appended"@,
        AgentSessionEvent::SessionInfoChanged { .. } => "session_info_changed"@,
        AgentSessionEvent::ThinkingLevelChanged { .. } => "thinking_level_changed"@,
        AgentSessionEvent::AutoRetryStart { .. } => "auto_retry_start"@,
        AgentSessionEvent::AutoRetryEnd { .. } => "auto_retry_end"@,
        AgentSessionEvent::SummarizationRetryScheduled { .. } => "summarization_retry_scheduled"@,
        AgentSessionEvent::SummarizationRetryAttemptStart { .. } =>
            "summarization_retry_attempt_start"@,
        AgentSessionEvent::SummarizationRetryFinished => "summarization_retry_finished"@,
        AgentSessionEvent::BashExecutionUpdate { .. } => "bash_execution_update"@,
    }
}

/// An event of the agent run keeps its wire name as an event of the session.
pub proof fn law_agent_events_keep_their_names(event: AgentEvent, will_retry: bool)
    ensures
        event_name(session_event(event, will_retry)) == agent_event_name(event),
{
}

impl AgentSessionEvent {
    /// The session event of an event of the agent run.
    pub fn from_agent_event(event: AgentEvent, will_retry: bool) -> (r: Self)
        ensures
            r == session_event(event, will_retry),
    {
        match event {
            AgentEvent::AgentStart => AgentSessionEvent::AgentStart,
            AgentEvent::AgentEnd { messages } => AgentSessionEvent::AgentEnd {
                messages,
                will_retry,
            },
            AgentEvent::TurnStart => AgentSessionEvent::TurnStart,
            AgentEvent::TurnEnd { message, tool_results } => AgentSessionEvent::TurnEnd {
                message,
                tool_results,
            },
            AgentEvent::MessageStart { message } => AgentSessionEvent::MessageStart { message },
            AgentEvent::MessageUpdate { message, assistant_message_event } =>
                AgentSessionEvent::MessageUpdate { message, assistant_message_event },
            AgentEvent::MessageEnd { message } => AgentSessionEvent::MessageEnd { message },
            AgentEvent::ToolExecutionStart { tool_call_id, tool_name, args } =>
                AgentSessionEvent::ToolExecutionStart { tool_call_id, tool_name, args },
            AgentEvent::ToolExecutionUpdate { tool_call_id, tool_name, args, partial_result } =>
                AgentSessionEvent::ToolExecutionUpdate {
                tool_call_id,
                tool_name,
                args,
                partial_result,
            },
            AgentEvent::ToolExecutionEnd { tool_call_id, tool_name, result, is_error } =>
                AgentSessionEvent::ToolExecutionEnd { tool_call_id, tool_name, result, is_error },
        }
    }

    /// The wire name of the event.
    pub fn wire_name(&self) -> (r: &'static str)
        ensures
            r@ == event_name(*self),
    {
        match self {
            AgentSessionEvent::SessionBeforeSwitch { .. } => "session_before_switch",
            AgentSessionEvent::SessionBeforeFork { .. } => "session_before_fork",
            AgentSessionEvent::SessionStart { .. } => "session_start",
            AgentSessionEvent::SessionShutdown { .. } => "session_shutdown",
            AgentSessionEvent::ModelSelect { .. } => "model_select",
            AgentSessionEvent::AgentStart => "agent_start",
            AgentSessionEvent::AgentEnd { .. } => "agent_end",
            AgentSessionEvent::TurnStart => "turn_start",
            AgentSessionEvent::TurnEnd { .. } => "turn_end",
            AgentSessionEvent::MessageStart { .. } => "message_start",
            AgentSessionEvent::MessageUpdate { .. } => "message_update",
            AgentSessionEvent::MessageEnd { .. } => "message_end",
            AgentSessionEvent::ToolExecutionStart { .. } => "tool_execution_start",
            AgentSessionEvent::ToolExecutionUpdate { .. } => "tool_execution_update",
            AgentSessionEvent::ToolExecutionEnd { .. } => "tool_execution_end",
            AgentSessionEvent::AgentSettled => "agent_settled",
            AgentSessionEvent::QueueUpdate { .. } => "queue_update",
            AgentSessionEvent::CompactionStart { .. } => "compaction_start",
            AgentSessionEvent::CompactionEnd { .. } => "compaction_end",
            AgentSessionEvent::EntryAppended { .. } => "entry_appended",
            AgentSessionEvent::SessionInfoChanged { .. } => "session_info_changed",
            AgentSessionEvent::ThinkingLevelChanged { .. } => "thinking_level_changed",
            AgentSessionEvent::AutoRetryStart { .. } => "auto_retry_start",
            AgentSessionEvent::AutoRetryEnd { .. } => "auto_retry_end",
            AgentSessionEvent::SummarizationRetryScheduled { .. } =>
                "summarization_retry_scheduled",
            AgentSessionEvent::SummarizationRetryAttemptStart { .. } =>
                "summarization_retry_attempt_start",
            AgentSessionEvent::SummarizationRetryFinished => "summarization_retry_finished",
            AgentSessionEvent::BashExecutionUpdate { .. } => "bash_execution_update",
        }
    }
}

/// Each event has its name on the wire.
pub proof fn law_events_are_named(event: &AgentSessionEvent, name: &'static str)
    requires
        call_ensures(AgentSessionEvent::wire_name, (event,), name),
    ensures
        *event is SessionBeforeSwitch ==> name@ == "session_before_switch"@,
        *event is SessionBeforeFork ==> name@ == "session_before_fork"@,
        *event is SessionStart ==> name@ == "session_start"@,
        *event is SessionShutdown ==> name@ == "session_shutdown"@,
        *event is ModelSelect ==> name@ == "model_select"@,
        *event is AgentStart ==> name@ == "agent_start"@,
        *event is AgentEnd ==> name@ == "agent_end"@,
        *event is TurnStart ==> name@ == "turn_start"@,
        *event is TurnEnd ==> name@ == "turn_end"@,
        *event is MessageStart ==> name@ == "message_start"@,
        *event is MessageUpdate ==> name@ == "message_update"@,
        *event is MessageEnd ==> name@ == "message_end"@,
        *event is ToolExecutionStart ==> name@ == "tool_execution_start"@,
        *event is ToolExecutionUpdate ==> name@ == "tool_execution_update"@,
        *event is ToolExecutionEnd ==> name@ == "tool_execution_end"@,
        *event is AgentSettled ==> name@ == "agent_settled"@,
        *event is QueueUpdate ==> name@ == "queue_update"@,
        *event is CompactionStart ==> name@ == "compaction_start"@,
        *event is CompactionEnd ==> name@ == "compaction_end"@,
        *event is EntryAppended ==> name@ == "entry_appended"@,
        *event is SessionInfoChanged ==> name@ == "session_info_changed"@,
        *event is ThinkingLevelChanged ==> name@ == "thinking_level_changed"@,
        *event is AutoRetryStart ==> name@ == "auto_retry_start"@,
        *event is AutoRetryEnd ==> name@ == "auto_retry_end"@,
        *event is SummarizationRetryScheduled ==> name@ == "summarization_retry_scheduled"@,
        *event is SummarizationRetryAttemptStart ==> name@ == "summarization_retry_attempt_start"@,
        *event is SummarizationRetryFinished ==> name@ == "summarization_retry_finished"@,
        *event is BashExecutionUpdate ==> name@ == "bash_execution_update"@,
{
}

/// An event of the agent run is told with all that it holds, and its end with whether a retry
/// follows.
pub proof fn law_agent_events_keep_what_they_hold(
    event: AgentEvent,
    will_retry: bool,
    told: AgentSessionEvent,
)
    requires
        call_ensures(AgentSessionEvent::from_agent_event, (event, will_retry), told),
    ensures
        event is AgentStart ==> told is AgentStart,
        event matches AgentEvent::AgentEnd { messages: a } ==> (told matches AgentSessionEvent::AgentEnd {
            messages,
            will_retry: retry,
        } && messages == a && retry == will_retry),
        event is TurnStart ==> told is TurnStart,
        event matches AgentEvent::TurnEnd { message: a, tool_results: b } ==> (told
            matches AgentSessionEvent::TurnEnd { message, tool_results } && message == a
            && tool_results == b),
        event matches AgentEvent::MessageStart { message: a } ==> (told
            matches AgentSessionEvent::MessageStart { message } && message == a),
        event matches AgentEvent::MessageUpdate { message: a, assistant_message_event: b } ==> (told
            matches AgentSessionEvent::MessageUpdate { message, assistant_message_event } && message
            == a && assistant_message_event == b),
        event matches AgentEvent::MessageEnd { message: a } ==> (told
            matches AgentSessionEvent::MessageEnd { message } && message == a),
        event matches AgentEvent::ToolExecutionStart { tool_call_id: a, tool_name: b, args: c } ==> (
        told matches AgentSessionEvent::ToolExecutionStart { tool_call_id, tool_name, args }
            && tool_call_id == a && tool_name == b && args == c),
        event matches AgentEvent::ToolExecutionUpdate {
            tool_call_id: a,
            tool_name: b,
            args: c,
            partial_result: d,
        } ==> (told matches AgentSessionEvent::ToolExecutionUpdate {
            tool_call_id,
            tool_name,
            args,
            partial_result,
        } && tool_call_id == a && tool_name == b && args == c && partial_result == d),
        event matches AgentEvent::ToolExecutionEnd {
            tool_call_id: a,
            tool_name: b,
            result: c,
            is_error: d,
        } ==> (told matches AgentSessionEvent::ToolExecutionEnd {
            tool_call_id,
            tool_name,
            result,
            is_error,
        } && tool_call_id == a && tool_name == b && result == c && is_error == d),
{
}

/// Each reason for a compaction, a start and a shutdown has its name.
pub proof fn law_reasons_are_named(
    compaction: CompactionReason,
    start: SessionStartReason,
    shutdown: SessionShutdownReason,
    a: &'static str,
    b: &'static str,
    c: &'static str,
)
    requires
        call_ensures(CompactionReason::as_str, (compaction,), a),
        call_ensures(SessionStartReason::as_str, (start,), b),
        call_ensures(SessionShutdownReason::as_str, (shutdown,), c),
    ensures
        compaction == CompactionReason::Manual ==> a@ == "manual"@,
        compaction == CompactionReason::Threshold ==> a@ == "threshold"@,
        compaction == CompactionReason::Overflow ==> a@ == "overflow"@,
        start == SessionStartReason::Startup ==> b@ == "startup"@,
        start == SessionStartReason::Reload ==> b@ == "reload"@,
        start == SessionStartReason::New ==> b@ == "new"@,
        start == SessionStartReason::Resume ==> b@ == "resume"@,
        start == SessionStartReason::Fork ==> b@ == "fork"@,
        shutdown == SessionShutdownReason::New ==> c@ == "new"@,
        shutdown == SessionShutdownReason::Resume ==> c@ == "resume"@,
        shutdown == SessionShutdownReason::Fork ==> c@ == "fork"@,
        shutdown == SessionShutdownReason::Reload ==> c@ == "reload"@,
        shutdown == SessionShutdownReason::Quit ==> c@ == "quit"@,
{
}

/// A session starts because the program does, unless told otherwise.
pub proof fn law_a_start_is_a_startup_at_first(reason: SessionStartReason, event: SessionStartEvent)
    requires
        call_ensures(SessionStartReason::default, (), reason),
        call_ensures(SessionStartEvent::default, (), event),
    ensures
        reason == SessionStartReason::Startup,
        event.reason == SessionStartReason::Startup,
        event.previous_session_file is None,
{
}

} // verus!
