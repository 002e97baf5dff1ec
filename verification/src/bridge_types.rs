//! What the extension host asks of a session, and what it is answered.

use crate::json::Json;
use crate::messages::{Model, ModelThinkingLevel, ScopedModel};
use crate::resources::SourceInfo;
use crate::stats::ContextUsage;
use crate::text;
use vstd::prelude::*;

verus! {

/// The id by which a request of the host and its answer belong together.
#[derive(Clone, Copy, Debug, PartialEq, Eq, Structural, Hash)]
pub struct BridgeRequestId(pub u64);

/// The requests of the host that are answered.
#[derive(Clone, Copy, Debug, PartialEq, Eq, Structural, Hash)]
pub enum BridgeMethod {
    NewSession,
    Fork,
    SwitchSession,
    NavigateTree,
    Reload,
    SetupEntries,
    SetModel,
    Compact,
}

impl BridgeMethod {
    /// The name of the method in diagnostics.
    pub open spec fn label(self) -> Seq<char> {
        match self {
            BridgeMethod::NewSession => "NewSession"@,
            BridgeMethod::Fork => "Fork"@,
            BridgeMethod::SwitchSession => "SwitchSession"@,
            BridgeMethod::NavigateTree => "NavigateTree"@,
            BridgeMethod::Reload => "Reload"@,
            BridgeMethod::SetupEntries => "SetupEntries"@,
            BridgeMethod::SetModel => "SetModel"@,
            BridgeMethod::Compact => "Compact"@,
        }
    }

    /// The name of the method in diagnostics.
    pub fn as_str(self) -> (r: &'static str)
        ensures
            r@ == self.label(),
    {
        match self {
            BridgeMethod::NewSession => "NewSession",
            BridgeMethod::Fork => "Fork",
            BridgeMethod::SwitchSession => "SwitchSession",
            BridgeMethod::NavigateTree => "NavigateTree",
            BridgeMethod::Reload => "Reload",
            BridgeMethod::SetupEntries => "SetupEntries",
            BridgeMethod::SetModel => "SetModel",
            BridgeMethod::Compact => "Compact",
        }
    }

    /// What the operation is called in reports to the user.
    pub open spec fn operation(self) -> Seq<char> {
        match self {
            BridgeMethod::NewSession => "newSession"@,
            BridgeMethod::Fork => "fork"@,
            BridgeMethod::SwitchSession => "switchSession"@,
            BridgeMethod::NavigateTree => "navigateTree"@,
            BridgeMethod::Reload => "reload"@,
            BridgeMethod::SetupEntries => "setupEntries"@,
            BridgeMethod::SetModel => "setModel"@,
            BridgeMethod::Compact => "compact"@,
        }
    }

    /// What the operation is called in reports to the user.
    pub fn operation_name(self) -> (r: &'static str)
        ensures
            r@ == self.operation(),
    {
        match self {
            BridgeMethod::NewSession => "newSession",
            BridgeMethod::Fork => "fork",
            BridgeMethod::SwitchSession => "switchSession",
            BridgeMethod::NavigateTree => "navigateTree",
            BridgeMethod::Reload => "reload",
            BridgeMethod::SetupEntries => "setupEntries",
            BridgeMethod::SetModel => "setModel",
            BridgeMethod::Compact => "compact",
        }
    }
}

/// A command, and the pending replacement that it is meant for where it is not the active session.
#[derive(Debug, PartialEq)]
pub struct SessionCommandEnvelope {
    pub replacement_token: Option<String>,
    pub command: SessionCommand,
}

/// A command of an extension that is not answered.
#[derive(Debug, PartialEq)]
pub enum SessionCommand {
    /// Sends a message of the extension.
    SendMessage {
        message: Json,
        /// When to deliver it, and whether a turn follows.
        options: Option<Json>,
    },
    /// Sends a message in the user's name.
    SendUserMessage {
        /// A text or a list of blocks.
        content: Json,
        /// When to deliver it.
        options: Option<Json>,
    },
    /// Appends an entry of the extension.
    AppendEntry { custom_type: String, data: Option<Json> },
    /// Names the session.
    SetSessionName { name: String },
    /// Labels an entry, or takes its label away.
    SetLabel { entry_id: String, label: Option<String> },
    /// Chooses the tools in use.
    SetActiveTools { tool_names: Vec<String> },
    /// Collects the tools anew.
    RefreshTools,
    /// Asks for a thinking level.
    SetThinkingLevel { level: String },
    /// Aborts the run.
    Abort,
    /// Calls the shutdown handler.
    Shutdown,
}

/// A request for another model.
#[derive(Debug, PartialEq)]
pub struct SetModelRequest {
    /// The model as the extension wrote it.
    pub model: Json,
}

/// A request for a compaction.
#[derive(Debug, PartialEq)]
pub struct CompactRequest {
    pub custom_instructions: Option<String>,
}

impl Default for CompactRequest {
    fn default() -> (r: Self)
        ensures
            r.custom_instructions is None,
    {
        CompactRequest { custom_instructions: None }
    }
}

/// A request for a new session.
#[derive(Debug, PartialEq)]
pub struct NewSessionRequest {
    /// The session that the new one comes from.
    pub parent_session: Option<String>,
}

impl Default for NewSessionRequest {
    fn default() -> (r: Self)
        ensures
            r.parent_session is None,
    {
        NewSessionRequest { parent_session: None }
    }
}

/// Where a fork cuts.
#[derive(Clone, Copy, Debug, PartialEq, Eq, Structural)]
pub enum ForkPosition {
    /// Before the entry.
    Before,
    /// At the entry.
    At,
}

/// A request for a fork.
#[derive(Debug, PartialEq)]
pub struct ForkRequest {
    pub entry_id: String,
    /// Where to cut; before the entry where it is not said.
    pub position: Option<ForkPosition>,
}

/// A request for another session.
#[derive(Debug, PartialEq)]
pub struct SwitchSessionRequest {
    pub session_path: String,
}

/// How to go to another entry of the tree.
#[derive(Debug, PartialEq)]
pub struct NavigateTreeOptions {
    /// Whether the branch that is left gets a summary.
    pub summarize: bool,
    pub custom_instructions: Option<String>,
    pub label: Option<String>,
}

/// A request for another entry of the tree.
#[derive(Debug, PartialEq)]
pub struct NavigateTreeRequest {
    pub target_id: String,
    pub options: NavigateTreeOptions,
}

/// A request for the entries of a pending replacement.
#[derive(Debug, PartialEq)]
pub struct SetupEntriesRequest {
    /// The token of the replacement.
    pub replacement_token: String,
}

/// A tool as extensions see it.
#[derive(Debug, PartialEq)]
pub struct ToolInfo {
    pub name: String,
    pub description: String,
}

/// What a slash command comes from.
#[derive(Clone, Copy, Debug, PartialEq, Eq, Structural)]
pub enum SlashCommandSource {
    Extension,
    Prompt,
    Skill,
}

/// A slash command.
#[derive(Debug, PartialEq)]
pub struct SlashCommandInfo {
    pub name: String,
    pub description: Option<String>,
    pub source: SlashCommandSource,
    pub source_info: SourceInfo,
}

/// A session as extensions see it.
#[derive(Debug, PartialEq)]
pub struct SessionState {
    pub session_name: Option<String>,
    pub thinking_level: ModelThinkingLevel,
    /// The names of the tools in use.
    pub active_tools: Vec<String>,
    pub all_tools: Vec<ToolInfo>,
    pub commands: Vec<SlashCommandInfo>,
    pub model: Option<Model>,
    /// The models chosen for the session.
    pub scoped_models: Vec<ScopedModel>,
    /// Whether no run is active.
    pub is_idle: bool,
    /// Whether messages wait.
    pub has_pending_messages: bool,
    pub context_usage: Option<ContextUsage>,
    /// The system prompt in effect.
    pub system_prompt: String,
}

impl Default for SessionState {
    fn default() -> (r: Self)
        ensures
            r.session_name is None,
            r.thinking_level == ModelThinkingLevel::Off,
            r.active_tools@.len() == 0,
            r.all_tools@.len() == 0,
            r.commands@.len() == 0,
            r.model is None,
            r.scoped_models@.len() == 0,
            r.is_idle,
            !r.has_pending_messages,
            r.context_usage is None,
            r.system_prompt@ == ""@,
    {
        SessionState {
            session_name: None,
            thinking_level: ModelThinkingLevel::Off,
            active_tools: Vec::new(),
            all_tools: Vec::new(),
            commands: Vec::new(),
            model: None,
            scoped_models: Vec::new(),
            is_idle: true,
            has_pending_messages: false,
            context_usage: None,
            system_prompt: "".to_owned(),
        }
    }
}

/// A slash command that an extension registered with the host.
#[derive(Debug, PartialEq)]
pub struct CommandCatalogEntry {
    pub name: String,
    pub description: String,
    /// The path of the extension, where the host said it.
    pub source: Option<String>,
    /// Where the command comes from, where it is known.
    pub source_info: Option<SourceInfo>,
}

/// A failure of the extension host.
#[derive(Debug, PartialEq)]
pub enum ExtensionHostError {
    /// The versions did not match.
    Handshake { message: String },
    /// A request did not end in time.
    Timeout { message: String },
    /// A request was cancelled.
    Cancelled { message: String },
    /// The stream of the host closed.
    Closed { message: String, stderr: String },
    /// The host wrote what no frame is.
    Protocol { message: String, stderr: String },
    /// The host answered with an error.
    Remote { code: String, message: String },
    /// The host could not be started.
    Spawn { message: String },
    /// The host no longer runs.
    NotRunning,
    /// What was to be sent or was received could not be written or read.
    Payload { message: String },
}

impl ExtensionHostError {
    /// Whether what failed may be tried again: only where it did not end in time or the host could
    /// not be started.
    #[must_use]
    pub fn retryable(&self) -> (r: bool)
        ensures
            r == (*self is Timeout || *self is Spawn),
    {
        match self {
            ExtensionHostError::Timeout { .. } | ExtensionHostError::Spawn { .. } => true,
            _ => false,
        }
    }

    /// The text of the failure.
    pub open spec fn text(self) -> Seq<char> {
        match self {
            ExtensionHostError::Handshake { message } => message@,
            ExtensionHostError::Timeout { message } => message@,
            ExtensionHostError::Cancelled { message } => message@,
            ExtensionHostError::Closed { message, .. } => message@,
            ExtensionHostError::Protocol { message, .. } => message@,
            ExtensionHostError::Spawn { message } => message@,
            ExtensionHostError::Payload { message } => message@,
            ExtensionHostError::Remote { code, message } => code@ + ": "@ + message@,
            ExtensionHostError::NotRunning => "host not running"@,
        }
    }

    /// The text of the failure.
    #[must_use]
    pub fn message(&self) -> (r: String)
        ensures
            r@ == self.text(),
    {
        match self {
            ExtensionHostError::Handshake { message } => message.clone(),
            ExtensionHostError::Timeout { message } => message.clone(),
            ExtensionHostError::Cancelled { message } => message.clone(),
            ExtensionHostError::Closed { message, .. } => message.clone(),
            ExtensionHostError::Protocol { message, .. } => message.clone(),
            ExtensionHostError::Spawn { message } => message.clone(),
            ExtensionHostError::Payload { message } => message.clone(),
            ExtensionHostError::Remote { code, message } => text::concat3(
                code.as_str(),
                ": ",
                message.as_str(),
            ),
            ExtensionHostError::NotRunning => "host not running".to_owned(),
        }
    }
}

/// Each method has a name in diagnostics and one for the user, which differ in their first letter
/// alone.
pub proof fn law_methods_are_named(method: BridgeMethod, label: &'static str, name: &'static str)
    requires
        call_ensures(BridgeMethod::as_str, (method,), label),
        call_ensures(BridgeMethod::operation_name, (method,), name),
    ensures
        method == BridgeMethod::NewSession ==> label@ == "NewSession"@ && name@ == "newSession"@,
        method == BridgeMethod::Fork ==> label@ == "Fork"@ && name@ == "fork"@,
        method == BridgeMethod::SwitchSession ==> label@ == "SwitchSession"@ && name@ == "switchSession"@,
        method == BridgeMethod::NavigateTree ==> label@ == "NavigateTree"@ && name@ == "navigateTree"@,
        method == BridgeMethod::Reload ==> label@ == "Reload"@ && name@ == "reload"@,
        method == BridgeMethod::SetupEntries ==> label@ == "SetupEntries"@ && name@ == "setupEntries"@,
        method == BridgeMethod::SetModel ==> label@ == "SetModel"@ && name@ == "setModel"@,
        method == BridgeMethod::Compact ==> label@ == "Compact"@ && name@ == "compact"@,
        label@.len() == name@.len(),
        label@.skip(1) == name@.skip(1),
{
    reveal_strlit("NewSession");
    reveal_strlit("newSession");
    reveal_strlit("Fork");
    reveal_strlit("fork");
    reveal_strlit("SwitchSession");
    reveal_strlit("switchSession");
    reveal_strlit("NavigateTree");
    reveal_strlit("navigateTree");
    reveal_strlit("Reload");
    reveal_strlit("reload");
    reveal_strlit("SetupEntries");
    reveal_strlit("setupEntries");
    reveal_strlit("SetModel");
    reveal_strlit("setModel");
    reveal_strlit("Compact");
    reveal_strlit("compact");
    assert(label@.skip(1) =~= name@.skip(1));
}

/// What failed may be tried again only where it did not end in time or the host did not start; and a
/// failure speaks in its own words.
pub proof fn law_only_delays_are_tried_again(
    error: &ExtensionHostError,
    again: bool,
    words: String,
)
    requires
        call_ensures(ExtensionHostError::retryable, (error,), again),
        call_ensures(ExtensionHostError::message, (error,), words),
    ensures
        again <==> *error is Timeout || *error is Spawn,
        *error matches ExtensionHostError::Handshake { message } ==> words@ == message@,
        *error matches ExtensionHostError::Timeout { message } ==> words@ == message@,
        *error matches ExtensionHostError::Cancelled { message } ==> words@ == message@,
        *error matches ExtensionHostError::Closed { message, stderr } ==> words@ == message@,
        *error matches ExtensionHostError::Protocol { message, stderr } ==> words@ == message@,
        *error matches ExtensionHostError::Spawn { message } ==> words@ == message@,
        *error matches ExtensionHostError::Payload { message } ==> words@ == message@,
        *error matches ExtensionHostError::Remote { code, message } ==> words@ == code@ + ": "@
            + message@,
        *error is NotRunning ==> words@ == "host not running"@,
{
}

/// Requests ask for nothing unless told to, and a session of which nothing is known is idle and empty.
pub proof fn law_requests_ask_for_nothing_at_first(
    compact: CompactRequest,
    fresh: NewSessionRequest,
    state: SessionState,
)
    requires
        call_ensures(CompactRequest::default, (), compact),
        call_ensures(NewSessionRequest::default, (), fresh),
        call_ensures(SessionState::default, (), state),
    ensures
        compact.custom_instructions is None,
        fresh.parent_session is None,
        state.is_idle && !state.has_pending_messages,
        state.session_name is None && state.model is None && state.context_usage is None,
        state.thinking_level == ModelThinkingLevel::Off,
        state.active_tools@.len() == 0 && state.all_tools@.len() == 0 && state.commands@.len() == 0
            && state.scoped_models@.len() == 0,
        state.system_prompt@.len() == 0,
{
    reveal_strlit("");
}

} // verus!
