//! What extensions answer, and the prompt and tools that the agent's turns see.

use crate::json::Json;
use crate::messages;
use crate::messages::{clone_text, AgentMessage};
use crate::text;
use vstd::prelude::*;

verus! {

/// What extensions made of an input.
#[derive(Debug, PartialEq)]
pub struct InputTransformResult {
    /// Whether an extension handled the input, so that the session does nothing with it.
    pub handled: bool,
    /// A text in place of the prompt's.
    pub text: Option<String>,
    /// Images in place of the prompt's.
    pub images: Option<Json>,
}

impl Default for InputTransformResult {
    fn default() -> (r: Self)
        ensures
            r == (InputTransformResult { handled: false, text: None, images: None }),
    {
        InputTransformResult { handled: false, text: None, images: None }
    }
}

/// What extensions add before a run.
#[derive(Debug, PartialEq)]
pub struct BeforeAgentStartResult {
    /// Messages to put before the user's prompt.
    pub messages: Vec<AgentMessage>,
    /// A system prompt for this turn.
    pub system_prompt: Option<String>,
}

impl Default for BeforeAgentStartResult {
    fn default() -> (r: Self)
        ensures
            r.messages@.len() == 0,
            r.system_prompt is None,
    {
        BeforeAgentStartResult { messages: Vec::new(), system_prompt: None }
    }
}

/// The answer to an event that extensions may cancel.
#[derive(Debug, PartialEq)]
pub struct CancelResult {
    /// Whether the operation must not go on.
    pub cancel: bool,
    /// Why.
    pub reason: Option<String>,
}

impl Default for CancelResult {
    fn default() -> (r: Self)
        ensures
            r == (CancelResult { cancel: false, reason: None }),
    {
        CancelResult { cancel: false, reason: None }
    }
}

/// A failure of the extensions.
#[derive(Debug, PartialEq)]
pub enum ExtensionRunnerError {
    /// An extension failed.
    Failed(String),
    /// The extensions belong to a session that was replaced.
    Invalidated,
}

impl ExtensionRunnerError {
    /// The text of the failure.
    pub open spec fn text(self) -> Seq<char> {
        match self {
            ExtensionRunnerError::Failed(m) => "extension error: "@ + m@,
            ExtensionRunnerError::Invalidated => "extension context invalidated"@,
        }
    }

    /// The text of the failure.
    pub fn message(&self) -> (r: String)
        ensures
            r@ == self.text(),
    {
        match self {
            ExtensionRunnerError::Failed(m) => text::concat2("extension error: ", m.as_str()),
            ExtensionRunnerError::Invalidated => "extension context invalidated".to_owned(),
        }
    }
}

/// Extensions that are not there: nothing is handled and nothing is registered.
#[derive(Clone, Copy, Debug)]
pub struct NullExtensionRunner;

impl NullExtensionRunner {
    /// No event has a handler.
    pub fn has_handlers(&self, event: &str) -> (r: bool)
        ensures
            !r,
    {
        false
    }

    /// No command is registered.
    pub fn get_registered_commands(&self) -> (r: Vec<String>)
        ensures
            r@.len() == 0,
    {
        Vec::new()
    }
}

/// Whether a command with this name is registered.
pub open spec fn has_command_in(commands: Seq<String>, name: Seq<char>) -> bool {
    exists|i: int| 0 <= i < commands.len() && #[trigger] commands[i]@ == name
}

/// Whether a command named `name` is among the registered ones.
pub fn has_command(commands: &Vec<String>, name: &str) -> (r: bool)
    ensures
        r == has_command_in(commands@, name@),
{
    let n: usize = commands.len();
    let mut i: usize = 0;
    while i < n
        invariant
            n == commands@.len(),
            i <= n,
            forall|j: int| 0 <= j < i ==> #[trigger] commands@[j]@ != name@,
        decreases n - i,
    {
        if text::same_text(commands[i].as_str(), name) {
            return true;
        }
        i += 1;
    }
    false
}

/// The system prompt of a session.
#[derive(Debug, PartialEq)]
pub struct SystemPromptState {
    /// The prompt built from resources and tools.
    pub base: String,
    /// A prompt in its place, for one turn.
    pub override_prompt: Option<String>,
}

impl Default for SystemPromptState {
    fn default() -> (r: Self)
        ensures
            r.base@.len() == 0,
            r.override_prompt is None,
    {
        SystemPromptState { base: String::new(), override_prompt: None }
    }
}

impl Clone for SystemPromptState {
    fn clone(&self) -> (r: Self)
        ensures
            r == *self,
    {
        SystemPromptState {
            base: self.base.clone(),
            override_prompt: clone_text(&self.override_prompt),
        }
    }
}

/// The prompt and the tools that the turns of a run see.
#[derive(Debug, PartialEq)]
pub struct SessionHooks {
    pub system_prompt: SystemPromptState,
    /// The names of the tools.
    pub tools: Vec<String>,
}

/// The prompt and the tools of a turn.
#[derive(Debug, PartialEq)]
pub struct TurnContext {
    pub system_prompt: String,
    pub tools: Vec<String>,
}

impl SessionHooks {
    /// The prompt that counts: that of the turn, or else the base.
    pub open spec fn effective(self) -> String {
        match self.system_prompt.override_prompt {
            Some(p) => p,
            None => self.system_prompt.base,
        }
    }

    /// Hooks without prompt and tools.
    pub fn null() -> (r: Self)
        ensures
            r.system_prompt.base@.len() == 0,
            r.system_prompt.override_prompt is None,
            r.tools@.len() == 0,
    {
        SessionHooks { system_prompt: SystemPromptState::default(), tools: Vec::new() }
    }

    /// Replaces the base prompt.
    pub fn set_base_system_prompt(&mut self, prompt: String)
        ensures
            final(self).system_prompt == (SystemPromptState {
                base: prompt,
                ..old(self).system_prompt
            }),
            final(self).tools == old(self).tools,
    {
        self.system_prompt.base = prompt;
    }

    /// Sets or clears the prompt of the turn.
    pub fn set_system_prompt_override(&mut self, prompt: Option<String>)
        ensures
            final(self).system_prompt == (SystemPromptState {
                override_prompt: prompt,
                ..old(self).system_prompt
            }),
            final(self).tools == old(self).tools,
    {
        self.system_prompt.override_prompt = prompt;
    }

    /// A copy of the prompt.
    pub fn system_prompt_snapshot(&self) -> (r: SystemPromptState)
        ensures
            r == self.system_prompt,
    {
        self.system_prompt.clone()
    }

    /// The prompt that counts.
    pub fn effective_system_prompt(&self) -> (r: String)
        ensures
            r == self.effective(),
    {
        match &self.system_prompt.override_prompt {
            Some(p) => p.clone(),
            None => self.system_prompt.base.clone(),
        }
    }

    /// Replaces the tools.
    pub fn set_tools(&mut self, tools: Vec<String>)
        ensures
            final(self).tools == tools,
            final(self).system_prompt == old(self).system_prompt,
    {
        self.tools = tools;
    }

    /// A copy of the tools.
    pub fn tools_snapshot(&self) -> (r: Vec<String>)
        ensures
            r@ == self.tools@,
    {
        messages::clone_texts(&self.tools)
    }

    /// The context of the next turn: the prompt that counts, and the tools of the session in place
    /// of those of the turn where the session has any.
    pub fn prepare_next_turn(&self, turn: TurnContext) -> (r: TurnContext)
        ensures
            r.system_prompt == self.effective(),
            r.tools@ == if self.tools@.len() == 0 {
                turn.tools@
            } else {
                self.tools@
            },
    {
        let system_prompt = self.effective_system_prompt();
        if self.tools.is_empty() {
            TurnContext { system_prompt, tools: turn.tools }
        } else {
            TurnContext { system_prompt, tools: self.tools_snapshot() }
        }
    }
}

/// How a hook before or after a tool call ended.
#[derive(Debug, PartialEq)]
pub enum ToolHookReply {
    /// No extension handles the event, so none was asked.
    NoHandlers,
    /// The run was cancelled while the hook was waited for.
    Cancelled,
    /// The extensions answered, with a result of their own or none.
    Answered(Option<Json>),
    /// The extensions failed.
    Failed(ExtensionRunnerError),
}

/// What comes of a hook about a tool call: the extensions' result, nothing where none was asked or
/// the run was cancelled, and the text of the failure where they failed.
pub fn tool_hook_outcome(reply: ToolHookReply) -> (r: Result<Option<Json>, String>)
    ensures
        match reply {
            ToolHookReply::NoHandlers | ToolHookReply::Cancelled => r == Ok::<
                Option<Json>,
                String,
            >(None),
            ToolHookReply::Answered(result) => r == Ok::<Option<Json>, String>(result),
            ToolHookReply::Failed(error) => r is Err && r->Err_0@ == error.text(),
        },
{
    match reply {
        ToolHookReply::NoHandlers | ToolHookReply::Cancelled => Ok(None),
        ToolHookReply::Answered(result) => Ok(result),
        ToolHookReply::Failed(error) => Err(error.message()),
    }
}

/// A command is registered exactly where its name is among the registered names.
pub proof fn law_registered_commands_are_known(commands: &Vec<String>, name: &str, i: int, known: bool)
    requires
        call_ensures(has_command, (commands, name), known),
    ensures
        0 <= i < commands@.len() && commands@[i]@ == name@ ==> known,
        (forall|k: int| 0 <= k < commands@.len() ==> (#[trigger] commands@[k])@ != name@)
            ==> !known,
{
}

/// The prompt of a turn counts while it is set, and the base prompt again once it is cleared; a new
/// base leaves the prompt of the turn alone.
pub proof fn law_the_prompt_of_a_turn_counts(
    set: &mut SessionHooks,
    clear: &mut SessionHooks,
    base: &mut SessionHooks,
    prompt: String,
    new_base: String,
    during: String,
    after: String,
    rebased: String,
    done: (),
)
    requires
        call_ensures(
            SessionHooks::set_system_prompt_override,
            (set, Some(prompt)),
            done,
        ),
        call_ensures(SessionHooks::effective_system_prompt, (final(set),), during),
        *old(clear) == *final(set),
        call_ensures(
            SessionHooks::set_system_prompt_override,
            (clear, None::<String>),
            done,
        ),
        call_ensures(SessionHooks::effective_system_prompt, (final(clear),), after),
        *old(base) == *final(clear),
        call_ensures(SessionHooks::set_base_system_prompt, (base, new_base), done),
        call_ensures(SessionHooks::effective_system_prompt, (final(base),), rebased),
    ensures
        during@ == prompt@,
        after@ == old(set).system_prompt.base@,
        rebased@ == new_base@,
        final(base).tools == old(set).tools,
{
}

/// The next turn sees the prompt that counts, and the tools of the session where it has any; a
/// snapshot shows what is set.
pub proof fn law_the_next_turn_sees_what_counts(
    hooks: &SessionHooks,
    turn: TurnContext,
    prompt: String,
    tools: Vec<String>,
    snapshot: SystemPromptState,
    next: TurnContext,
)
    requires
        call_ensures(SessionHooks::prepare_next_turn, (hooks, turn), next),
        call_ensures(SessionHooks::effective_system_prompt, (hooks,), prompt),
        call_ensures(SessionHooks::tools_snapshot, (hooks,), tools),
        call_ensures(SessionHooks::system_prompt_snapshot, (hooks,), snapshot),
    ensures
        next.system_prompt@ == prompt@,
        hooks.tools@.len() == 0 ==> next.tools@ == turn.tools@,
        hooks.tools@.len() > 0 ==> next.tools@ == hooks.tools@,
        tools@ == hooks.tools@,
        snapshot == hooks.system_prompt,
        hooks.system_prompt.override_prompt matches Some(p) ==> prompt@ == p@,
        hooks.system_prompt.override_prompt is None ==> prompt@ == hooks.system_prompt.base@,
{
}

/// Tools that were set are the tools, and the prompt stays.
pub proof fn law_tools_are_set(hooks: &mut SessionHooks, tools: Vec<String>, done: ())
    requires
        call_ensures(SessionHooks::set_tools, (hooks, tools), done),
    ensures
        final(hooks).tools@ == tools@,
        final(hooks).system_prompt == old(hooks).system_prompt,
{
}

/// A hook about a tool call comes to what the extensions answered; nobody asked and a cancelled run
/// come to nothing, and a failure of the extensions to its words.
pub proof fn law_a_tool_hook_comes_to_its_answer(
    reply: ToolHookReply,
    r: Result<Option<Json>, String>,
)
    requires
        call_ensures(tool_hook_outcome, (reply,), r),
    ensures
        reply matches ToolHookReply::Answered(result) ==> r == Ok::<Option<Json>, String>(result),
        reply is NoHandlers || reply is Cancelled ==> (r matches Ok(None)),
        reply matches ToolHookReply::Failed(ExtensionRunnerError::Failed(m)) ==> (r matches Err(e)
            && e@ == "extension error: "@ + m@),
        reply matches ToolHookReply::Failed(ExtensionRunnerError::Invalidated) ==> (r matches Err(e)
            && e@ == "extension context invalidated"@),
{
}

/// The words of the extensions' failure.
pub proof fn law_failures_of_extensions_are_named(error: &ExtensionRunnerError, words: String)
    requires
        call_ensures(ExtensionRunnerError::message, (error,), words),
    ensures
        *error matches ExtensionRunnerError::Failed(m) ==> words@ == "extension error: "@ + m@,
        *error is Invalidated ==> words@ == "extension context invalidated"@,
{
}

/// Without extensions nothing handles an event, no command is registered, and nothing is changed or
/// cancelled.
pub proof fn law_without_extensions_nothing_happens(
    runner: &NullExtensionRunner,
    event: &str,
    handled: bool,
    commands: Vec<String>,
    input: InputTransformResult,
    start: BeforeAgentStartResult,
    cancel: CancelResult,
    hooks: SessionHooks,
    prompt: SystemPromptState,
)
    requires
        call_ensures(NullExtensionRunner::has_handlers, (runner, event), handled),
        call_ensures(NullExtensionRunner::get_registered_commands, (runner,), commands),
        call_ensures(InputTransformResult::default, (), input),
        call_ensures(BeforeAgentStartResult::default, (), start),
        call_ensures(CancelResult::default, (), cancel),
        call_ensures(SessionHooks::null, (), hooks),
        call_ensures(SystemPromptState::default, (), prompt),
    ensures
        !handled,
        commands@.len() == 0,
        !input.handled && input.text is None && input.images is None,
        start.messages@.len() == 0 && start.system_prompt is None,
        !cancel.cancel && cancel.reason is None,
        hooks.system_prompt.base@.len() == 0 && hooks.system_prompt.override_prompt is None,
        hooks.tools@.len() == 0,
        prompt.base@.len() == 0 && prompt.override_prompt is None,
{
}

} // verus!
