//! The state of a session, and what every part of the session does with it.
//!
//! A session does no input or output of its own. What is to happen outside (an event that goes to
//! listeners, a token that is to be cancelled) is appended to [`AgentSession::outbox`], in the order
//! in which it is to happen, and the caller performs it. What has to be waited for is asked for by
//! the steps in the other modules.

use crate::bash::BashExecutionMessage;
use crate::events::{AgentSessionEvent, SessionStartEvent};
use crate::extension::ExtensionMode;
use crate::extension_runner::{ExtensionRunnerError, SessionHooks, SystemPromptState};
use crate::json;
use crate::json::Json;
use crate::messages;
use crate::messages::{
    AgentMessage, AssistantMessage, Message, Model, ModelThinkingLevel, ScopedModel,
};
use crate::resources::{PromptTemplate, Skill};
use std::sync::Arc;
use vstd::prelude::*;

verus! {

/// The handle of a cancellation token that the caller holds.
#[derive(Clone, Copy, Debug, PartialEq, Eq, Structural)]
pub struct CancelToken(pub u64);

/// How many queued messages a run takes at a time.
#[derive(Clone, Copy, Debug, PartialEq, Eq, Structural)]
pub enum QueueMode {
    All,
    OneAtATime,
}

/// How the last activity of the agent ended.
#[derive(Clone, Copy, Debug, PartialEq, Eq, Structural)]
pub enum ActivityOutcome {
    Completed,
    Error,
    Aborted,
}

/// A failure of the session's storage.
#[derive(Debug, PartialEq)]
pub enum SessionError {
    /// Reading or writing failed.
    Io { path: String, message: String },
    /// An edit of the context is not valid.
    ContextEditInvalid(String),
    /// There is no entry with this id.
    EntryNotFound(String),
    /// Any other failure.
    Other(String),
}

/// Something that is to happen outside the session.
#[derive(Debug, PartialEq)]
pub enum Effect {
    /// The event goes to the listeners.
    Emit(AgentSessionEvent),
    /// The event goes to the listeners, and the event barriers are waited for.
    EmitAwaited(AgentSessionEvent),
    /// The event goes to the extensions, whatever they answer.
    ToExtensions(AgentSessionEvent),
    /// The event goes to the extensions, and a failure of theirs is told the runner.
    TellExtensions(AgentSessionEvent),
    /// The change of the thinking level is stored, where it can be.
    StoreThinkingLevel(ModelThinkingLevel),
    /// The change of the model is stored, where it can be.
    StoreModelChange { provider: String, model: String },
    /// The extension runner is told of an error.
    RunnerError(String),
    /// The extension runner is told of a failure of its own.
    RunnerFailure(ExtensionRunnerError),
    /// The bound error listener is told of an error.
    ReportError(String),
    /// The bound shutdown handler is called.
    CallShutdownHandler,
    /// The token is cancelled.
    Cancel(CancelToken),
    /// The run of the agent is aborted.
    AbortAgent,
    /// The end of the agent's run is waited for.
    AwaitAgentIdle,
    /// It is waited for until the session is idle: no run is active and none goes on.
    AwaitIdle,
    /// Whoever waits for the session to be idle is woken.
    WakeIdle,
    /// Whoever waits for the end of a run to be processed is woken.
    WakeAgentEnd,
    /// The event pump is taken off the agent.
    DisconnectPump,
    /// The event pump is put back on the agent.
    ReconnectPump,
    /// The extension runner of this session is no longer valid.
    InvalidateRunner,
    /// The extension host is shut down.
    ShutDownHost,
    /// The extension runner is taken off the session.
    DetachRunner,
    /// The extension host gives up what is pending under the token, where anything is.
    AbortPending(String),
}

/// The flags of a session's life.
#[derive(Clone, Copy, Debug, PartialEq, Eq, Structural)]
pub struct SessionLifecycle {
    pub auto_retry_enabled: bool,
    pub auto_compaction_enabled: bool,
    pub is_agent_run_active: bool,
    pub overflow_recovery_attempted: bool,
    pub disposed: bool,
    /// Whether an extension host is attached.
    pub host_attached: bool,
    /// Whether the resources of the first bind were discovered.
    pub initial_resources_discovered: bool,
    /// Whether the boundaries of this run are to be left out.
    pub boundary_abort_requested: bool,
    /// How the last activity ended.
    pub last_activity_outcome: ActivityOutcome,
}

impl Default for SessionLifecycle {
    fn default() -> (r: Self)
        ensures
            r == fresh_lifecycle(),
    {
        SessionLifecycle {
            auto_retry_enabled: true,
            auto_compaction_enabled: true,
            is_agent_run_active: false,
            overflow_recovery_attempted: false,
            disposed: false,
            host_attached: false,
            initial_resources_discovered: false,
            boundary_abort_requested: false,
            last_activity_outcome: ActivityOutcome::Completed,
        }
    }
}

/// The flags of a session that has done nothing.
pub open spec fn fresh_lifecycle() -> SessionLifecycle {
    SessionLifecycle {
        auto_retry_enabled: true,
        auto_compaction_enabled: true,
        is_agent_run_active: false,
        overflow_recovery_attempted: false,
        disposed: false,
        host_attached: false,
        initial_resources_discovered: false,
        boundary_abort_requested: false,
        last_activity_outcome: ActivityOutcome::Completed,
    }
}

/// The counters of a session.
#[derive(Clone, Copy, Debug, PartialEq, Eq, Structural)]
pub struct SessionCounters {
    /// The current retry, 0 where there is none.
    pub retry_attempt: u32,
    /// How many retries there may be.
    pub max_retries: u32,
    pub next_listener_id: u64,
    pub next_backpressure_hook_id: u64,
    /// Runs whose end was processed.
    pub processed_agent_ends: u64,
    /// Messages whose end was processed.
    pub processed_message_ends: u64,
    /// The processed messages at the start of the run.
    pub run_message_baseline: u64,
    pub boundary_turn_index: u64,
}

/// The counters of a session that has done nothing.
pub open spec fn fresh_counters() -> SessionCounters {
    SessionCounters {
        retry_attempt: 0,
        max_retries: 3,
        next_listener_id: 1,
        next_backpressure_hook_id: 1,
        processed_agent_ends: 0,
        processed_message_ends: 0,
        run_message_baseline: 0,
        boundary_turn_index: 0,
    }
}

/// The tokens by which what is in progress can be cancelled.
#[derive(Clone, Copy, Debug, PartialEq, Eq, Structural)]
pub struct AbortSlots {
    pub retry: Option<CancelToken>,
    pub compaction: Option<CancelToken>,
    pub auto_compaction: Option<CancelToken>,
    pub branch_summary: Option<CancelToken>,
    pub bash: Option<CancelToken>,
    /// The generation of the automatic compaction that owns its slot.
    pub auto_compaction_owner: u64,
}

/// No token.
pub open spec fn fresh_slots() -> AbortSlots {
    AbortSlots {
        retry: None,
        compaction: None,
        auto_compaction: None,
        branch_summary: None,
        bash: None,
        auto_compaction_owner: 0,
    }
}

/// Retry settings.
#[derive(Clone, Copy, Debug, PartialEq, Eq, Structural)]
pub struct RetrySettings {
    pub enabled: bool,
    pub max_retries: u64,
    pub base_delay_ms: u64,
}

/// Compaction settings.
#[derive(Clone, Copy, Debug, PartialEq, Eq, Structural)]
pub struct ResolvedCompactionSettings {
    pub enabled: bool,
    pub reserve_tokens: u64,
    pub keep_recent_tokens: u64,
}

/// The settings that a session reads and changes.
#[derive(Debug, PartialEq)]
pub struct SessionSettings {
    pub retry: RetrySettings,
    pub compaction: ResolvedCompactionSettings,
    pub default_thinking_level: Option<ModelThinkingLevel>,
    pub default_provider: Option<String>,
    pub default_model: Option<String>,
    pub shell_command_prefix: Option<String>,
    pub shell_path: Option<String>,
}

/// What extensions were bound with.
#[derive(Debug, PartialEq)]
pub struct BoundExtensions {
    pub mode: Option<ExtensionMode>,
    pub ui_tag: Option<String>,
    pub has_shutdown_handler: bool,
    pub has_error_listener: bool,
    pub command_context: Option<Json>,
}

/// The state of the agent that the session drives.
#[derive(Debug, PartialEq)]
pub struct AgentState {
    pub model: Model,
    pub thinking_level: ModelThinkingLevel,
    pub is_streaming: bool,
    pub system_prompt: String,
    pub transcript: Vec<AgentMessage>,
    pub steering_queue: Vec<AgentMessage>,
    pub follow_up_queue: Vec<AgentMessage>,
    pub steering_mode: QueueMode,
    pub follow_up_mode: QueueMode,
}

/// A session.
pub struct AgentSession {
    pub lifecycle: SessionLifecycle,
    pub counters: SessionCounters,
    pub slots: AbortSlots,
    /// The texts of the steering messages that wait.
    pub steering_messages: Vec<String>,
    /// The texts of the follow-up messages that wait.
    pub follow_up_messages: Vec<String>,
    pub last_assistant_message: Option<AssistantMessage>,
    /// The ids of the event listeners.
    pub listeners: Vec<u64>,
    /// The ids of the event barriers.
    pub backpressure_hooks: Vec<u64>,
    /// The first storage failure of the run.
    pub pending_session_error: Option<SessionError>,
    pub scoped_models: Vec<ScopedModel>,
    pub active_tool_names: Vec<String>,
    pub hooks: SessionHooks,
    /// Custom messages that wait for the next prompt of the user.
    pub pending_next_turn_messages: Vec<AgentMessage>,
    /// Custom messages that wait for the next boundary.
    pub pending_custom_messages: Vec<AgentMessage>,
    /// Shell results that wait for the end of the run.
    pub pending_bash_messages: Vec<BashExecutionMessage>,
    pub bindings: BoundExtensions,
    pub pending_session_start: Option<SessionStartEvent>,
    pub skills: Vec<Skill>,
    pub prompt_templates: Vec<PromptTemplate>,
    pub agent: AgentState,
    pub settings: SessionSettings,
    pub cwd: String,
    pub outbox: Vec<Effect>,
}

/// The state of an agent as a mathematical value.
#[verifier::ext_equal]
pub struct AgentModel {
    pub model: Model,
    pub thinking_level: ModelThinkingLevel,
    pub is_streaming: bool,
    pub system_prompt: Seq<char>,
    pub transcript: Seq<AgentMessage>,
    pub steering_queue: Seq<AgentMessage>,
    pub follow_up_queue: Seq<AgentMessage>,
    pub steering_mode: QueueMode,
    pub follow_up_mode: QueueMode,
}

impl View for AgentState {
    type V = AgentModel;

    open spec fn view(&self) -> AgentModel {
        AgentModel {
            model: self.model,
            thinking_level: self.thinking_level,
            is_streaming: self.is_streaming,
            system_prompt: self.system_prompt@,
            transcript: self.transcript@,
            steering_queue: self.steering_queue@,
            follow_up_queue: self.follow_up_queue@,
            steering_mode: self.steering_mode,
            follow_up_mode: self.follow_up_mode,
        }
    }
}

/// A session as a mathematical value.
#[verifier::ext_equal]
pub struct SessionModel {
    pub lifecycle: SessionLifecycle,
    pub counters: SessionCounters,
    pub slots: AbortSlots,
    pub steering: Seq<String>,
    pub follow_up: Seq<String>,
    pub last_assistant: Option<AssistantMessage>,
    pub listeners: Seq<u64>,
    pub barriers: Seq<u64>,
    pub error: Option<SessionError>,
    pub scoped_models: Seq<ScopedModel>,
    pub active_tools: Seq<String>,
    pub base_prompt: Seq<char>,
    pub prompt_override: Option<Seq<char>>,
    pub tools: Seq<String>,
    pub pending_next_turn: Seq<AgentMessage>,
    pub pending_custom: Seq<AgentMessage>,
    pub pending_bash: Seq<BashExecutionMessage>,
    pub bindings: BoundExtensions,
    pub pending_start: Option<SessionStartEvent>,
    pub skills: Seq<Skill>,
    pub templates: Seq<PromptTemplate>,
    pub agent: AgentModel,
    pub settings: SessionSettings,
    pub cwd: Seq<char>,
    pub outbox: Seq<Effect>,
}

/// The characters of an optional text.
pub open spec fn text_view(t: Option<String>) -> Option<Seq<char>> {
    match t {
        Some(s) => Some(s@),
        None => None,
    }
}

impl View for AgentSession {
    type V = SessionModel;

    open spec fn view(&self) -> SessionModel {
        SessionModel {
            lifecycle: self.lifecycle,
            counters: self.counters,
            slots: self.slots,
            steering: self.steering_messages@,
            follow_up: self.follow_up_messages@,
            last_assistant: self.last_assistant_message,
            listeners: self.listeners@,
            barriers: self.backpressure_hooks@,
            error: self.pending_session_error,
            scoped_models: self.scoped_models@,
            active_tools: self.active_tool_names@,
            base_prompt: self.hooks.system_prompt.base@,
            prompt_override: text_view(self.hooks.system_prompt.override_prompt),
            tools: self.hooks.tools@,
            pending_next_turn: self.pending_next_turn_messages@,
            pending_custom: self.pending_custom_messages@,
            pending_bash: self.pending_bash_messages@,
            bindings: self.bindings,
            pending_start: self.pending_session_start,
            skills: self.skills@,
            templates: self.prompt_templates@,
            agent: self.agent@,
            settings: self.settings,
            cwd: self.cwd@,
            outbox: self.outbox@,
        }
    }
}

impl SessionModel {
    /// The session with one more effect at the end of its outbox.
    pub open spec fn put(self, effect: Effect) -> SessionModel {
        SessionModel { outbox: self.outbox.push(effect), ..self }
    }

    /// The ids of the listeners are all different, and all given out before.
    pub open spec fn listeners_well_formed(self) -> bool {
        &&& self.listeners.no_duplicates()
        &&& forall|i: int|
            0 <= i < self.listeners.len() ==> #[trigger] self.listeners[i]
                < self.counters.next_listener_id
        &&& self.barriers.no_duplicates()
        &&& forall|i: int|
            0 <= i < self.barriers.len() ==> #[trigger] self.barriers[i]
                < self.counters.next_backpressure_hook_id
    }
}

/// The effect of cancelling a token, none where there is none.
pub open spec fn cancelling(token: Option<CancelToken>) -> Seq<Effect> {
    match token {
        Some(t) => seq![Effect::Cancel(t)],
        None => seq![],
    }
}

/// A session whose shell command has `token`; the token before it is cancelled.
pub open spec fn begun_bash(s: SessionModel, token: CancelToken) -> SessionModel {
    SessionModel {
        slots: AbortSlots { bash: Some(token), ..s.slots },
        outbox: s.outbox + cancelling(s.slots.bash),
        ..s
    }
}

/// A session whose retry wait has `token`; the token before it is cancelled.
pub open spec fn begun_retry(s: SessionModel, token: CancelToken) -> SessionModel {
    SessionModel {
        slots: AbortSlots { retry: Some(token), ..s.slots },
        outbox: s.outbox + cancelling(s.slots.retry),
        ..s
    }
}

/// A session whose manual compaction has `token`; the token before it is cancelled.
pub open spec fn begun_compaction(s: SessionModel, token: CancelToken) -> SessionModel {
    SessionModel {
        slots: AbortSlots { compaction: Some(token), ..s.slots },
        outbox: s.outbox + cancelling(s.slots.compaction),
        ..s
    }
}

/// A session whose automatic compaction has `token`, under a new generation; the token before it is
/// cancelled.
pub open spec fn begun_auto_compaction(s: SessionModel, token: CancelToken) -> SessionModel {
    SessionModel {
        slots: AbortSlots {
            auto_compaction: Some(token),
            auto_compaction_owner: next_owner(s.slots.auto_compaction_owner),
            ..s.slots
        },
        outbox: s.outbox + cancelling(s.slots.auto_compaction),
        ..s
    }
}

/// The generation that follows.
pub open spec fn next_owner(owner: u64) -> u64 {
    if owner == u64::MAX {
        0
    } else {
        (owner + 1) as u64
    }
}

/// A session in which the automatic compaction of generation `owner` is over: the slot is cleared
/// where it is still that generation's.
pub open spec fn cleared_auto_compaction(s: SessionModel, owner: u64) -> SessionModel {
    if s.slots.auto_compaction_owner == owner {
        SessionModel { slots: AbortSlots { auto_compaction: None, ..s.slots }, ..s }
    } else {
        s
    }
}

/// A session whose retry wait is cancelled.
pub open spec fn aborted_retry(s: SessionModel) -> SessionModel {
    SessionModel {
        slots: AbortSlots { retry: None, ..s.slots },
        outbox: s.outbox + cancelling(s.slots.retry),
        ..s
    }
}

/// A session whose compactions are cancelled, the manual one first.
pub open spec fn aborted_compaction(s: SessionModel) -> SessionModel {
    SessionModel {
        slots: AbortSlots { compaction: None, auto_compaction: None, ..s.slots },
        outbox: s.outbox + cancelling(s.slots.compaction) + cancelling(s.slots.auto_compaction),
        ..s
    }
}

/// A session whose branch summary is cancelled.
pub open spec fn aborted_branch_summary(s: SessionModel) -> SessionModel {
    SessionModel {
        slots: AbortSlots { branch_summary: None, ..s.slots },
        outbox: s.outbox + cancelling(s.slots.branch_summary),
        ..s
    }
}

/// A session whose shell command is cancelled.
pub open spec fn aborted_bash(s: SessionModel) -> SessionModel {
    SessionModel {
        slots: AbortSlots { bash: None, ..s.slots },
        outbox: s.outbox + cancelling(s.slots.bash),
        ..s
    }
}

/// A session in which everything is cancelled: the retry wait, the compactions, the branch summary,
/// the shell command and then the run of the agent.
pub open spec fn aborted(s: SessionModel) -> SessionModel {
    aborted_bash(aborted_branch_summary(aborted_compaction(aborted_retry(s)))).put(
        Effect::AbortAgent,
    ).put(Effect::AwaitIdle)
}

/// The texts that wait are announced.
pub open spec fn queue_announced(effect: Effect, s: SessionModel) -> bool {
    effect matches Effect::Emit(AgentSessionEvent::QueueUpdate { steering, follow_up })
        && steering@ == s.steering && follow_up@ == s.follow_up
}

/// `t` is `s` with an announcement of the waiting texts at the end of the outbox.
pub open spec fn with_announcement(s: SessionModel, t: SessionModel) -> bool {
    &&& t.outbox.len() == s.outbox.len() + 1
    &&& queue_announced(t.outbox.last(), s)
    &&& t == (SessionModel { outbox: s.outbox.push(t.outbox.last()), ..s })
}

/// A session after the end of its life: nothing is in progress, everything that was is cancelled in
/// turn, the agent is aborted and drained, and then the extensions and their host are let go.
pub open spec fn disposed(s: SessionModel) -> SessionModel {
    if s.lifecycle.disposed {
        s
    } else {
        SessionModel {
            lifecycle: SessionLifecycle { disposed: true, host_attached: false, ..s.lifecycle },
            slots: AbortSlots {
                retry: None,
                compaction: None,
                auto_compaction: None,
                branch_summary: None,
                bash: None,
                ..s.slots
            },
            outbox: s.outbox + cancelling(s.slots.retry) + cancelling(s.slots.compaction)
                + cancelling(s.slots.auto_compaction) + cancelling(s.slots.branch_summary)
                + cancelling(s.slots.bash) + seq![
                Effect::DisconnectPump,
                Effect::AbortAgent,
                Effect::AwaitAgentIdle,
                Effect::InvalidateRunner,
            ] + (if s.lifecycle.host_attached {
                seq![Effect::ShutDownHost]
            } else {
                seq![]
            }),
            ..s
        }
    }
}

/// A session whose run has started.
pub open spec fn run_started(s: SessionModel) -> SessionModel {
    SessionModel { lifecycle: SessionLifecycle { is_agent_run_active: true, ..s.lifecycle }, ..s }
}

/// A session that is settled: where a run was active, it no longer is, this is told once and whoever
/// waits is woken.
pub open spec fn settled(s: SessionModel) -> SessionModel {
    if s.lifecycle.is_agent_run_active {
        SessionModel {
            lifecycle: SessionLifecycle { is_agent_run_active: false, ..s.lifecycle },
            ..s
        }.put(Effect::Emit(AgentSessionEvent::AgentSettled)).put(Effect::WakeIdle)
    } else {
        s
    }
}

/// How often an outbox tells that the session is settled.
pub open spec fn settle_count(outbox: Seq<Effect>) -> nat
    decreases outbox.len(),
{
    if outbox.len() == 0 {
        0
    } else {
        settle_count(outbox.drop_last()) + (if outbox.last() == Effect::Emit(
            AgentSessionEvent::AgentSettled,
        ) {
            1nat
        } else {
            0
        })
    }
}

/// However often a session is settled after the start of a run, this is told exactly once.
pub proof fn law_settled_once_per_run(s: SessionModel)
    ensures
        settled(settled(run_started(s))) == settled(run_started(s)),
        settle_count(settled(run_started(s)).outbox) == settle_count(s.outbox) + 1,
        settled(run_started(s)).outbox.len() == s.outbox.len() + 2,
{
    let t = run_started(s);
    let told = s.outbox.push(Effect::Emit(AgentSessionEvent::AgentSettled));
    let woken = told.push(Effect::WakeIdle);
    assert(told.drop_last() =~= s.outbox);
    assert(woken.drop_last() =~= told);
    assert(settle_count(told) == settle_count(s.outbox) + 1);
    assert(settle_count(woken) == settle_count(told));
    assert(settled(t).outbox =~= woken);
}

/// A disposed session stays as it is: nothing is cancelled and nothing is let go a second time.
pub proof fn law_disposed_once(s: SessionModel)
    ensures
        disposed(disposed(s)) == disposed(s),
{
}

/// A session in which automatic compactions began one after the other.
pub open spec fn begun_auto_compactions(s: SessionModel, tokens: Seq<CancelToken>) -> SessionModel
    decreases tokens.len(),
{
    if tokens.len() == 0 {
        s
    } else {
        begun_auto_compaction(begun_auto_compactions(s, tokens.drop_last()), tokens.last())
    }
}

/// Every beginning counts the generation up by one, and it comes again after 2^64 of them.
proof fn lemma_owner_counts(s: SessionModel, tokens: Seq<CancelToken>)
    ensures
        begun_auto_compactions(s, tokens).slots.auto_compaction_owner == (
        s.slots.auto_compaction_owner + tokens.len()) % (u64::MAX + 1),
        tokens.len() > 0 ==> begun_auto_compactions(s, tokens).slots.auto_compaction == Some(
            tokens.last(),
        ),
    decreases tokens.len(),
{
    if tokens.len() > 0 {
        lemma_owner_counts(s, tokens.drop_last());
        let before = s.slots.auto_compaction_owner + tokens.len() - 1;
        assert((before + 1) % (u64::MAX + 1) == if before % (u64::MAX + 1) == u64::MAX {
            0int
        } else {
            before % (u64::MAX + 1) + 1
        });
    }
}

/// A compaction that is over cannot take the slot of one that began after it, however many began
/// since, and the newest can; each that is pushed aside is cancelled. (A generation comes again
/// after 2^64 compactions.)
pub proof fn law_stale_owner_cannot_clear(
    s: SessionModel,
    first: CancelToken,
    later: Seq<CancelToken>,
)
    requires
        0 < later.len() <= u64::MAX,
    ensures
        ({
            let one = begun_auto_compaction(s, first);
            let stale = one.slots.auto_compaction_owner;
            let last = begun_auto_compactions(one, later);
            let current = last.slots.auto_compaction_owner;
            &&& last.slots.auto_compaction == Some(later.last())
            &&& cleared_auto_compaction(last, stale) == last
            &&& cleared_auto_compaction(last, current).slots.auto_compaction is None
            &&& begun_auto_compaction(one, later[0]).outbox.last() == Effect::Cancel(first)
        }),
{
    let one = begun_auto_compaction(s, first);
    lemma_owner_counts(one, later);
    let owner = one.slots.auto_compaction_owner as int;
    assert((owner + later.len()) % (u64::MAX + 1) != owner) by {
        if owner + later.len() <= u64::MAX {
            assert((owner + later.len()) % (u64::MAX + 1) == owner + later.len());
        } else {
            assert((owner + later.len()) % (u64::MAX + 1) == owner + later.len() - (u64::MAX + 1));
        }
    }
}

/// Nothing of a session is in progress.
pub open spec fn nothing_in_progress(slots: AbortSlots) -> bool {
    &&& slots.retry is None
    &&& slots.compaction is None
    &&& slots.auto_compaction is None
    &&& slots.branch_summary is None
    &&& slots.bash is None
}

/// The token of one of the slots.
pub open spec fn holds_token(slots: AbortSlots, token: CancelToken) -> bool {
    ||| slots.retry == Some(token)
    ||| slots.compaction == Some(token)
    ||| slots.auto_compaction == Some(token)
    ||| slots.branch_summary == Some(token)
    ||| slots.bash == Some(token)
}

/// Aborting stops everything: nothing stays in progress, the token of each thing that was is
/// cancelled, the run of the agent is aborted last, its end is waited for, and nothing else of the
/// session changes. So does the end of a session, the first time, before the extensions are let go.
pub proof fn law_abort_stops_everything(s: SessionModel, token: CancelToken)
    ensures
        nothing_in_progress(aborted(s).slots),
        holds_token(s.slots, token) ==> aborted(s).outbox.contains(Effect::Cancel(token)),
        aborted(s).outbox.drop_last().last() == Effect::AbortAgent,
        aborted(s).outbox.last() == Effect::AwaitIdle,
        s.outbox.is_prefix_of(aborted(s).outbox),
        aborted(s) == (SessionModel { slots: aborted(s).slots, outbox: aborted(s).outbox, ..s }),
        !s.lifecycle.disposed ==> {
            &&& nothing_in_progress(disposed(s).slots)
            &&& holds_token(s.slots, token) ==> disposed(s).outbox.contains(Effect::Cancel(token))
            &&& exists|i: int|
                0 <= i && i + 2 < disposed(s).outbox.len() && #[trigger] disposed(s).outbox[i]
                    == Effect::AbortAgent && disposed(s).outbox[i + 1] == Effect::AwaitAgentIdle
                    && disposed(s).outbox[i + 2] == Effect::InvalidateRunner
        },
{
    let o = s.outbox;
    let r = cancelling(s.slots.retry);
    let c = cancelling(s.slots.compaction);
    let a = cancelling(s.slots.auto_compaction);
    let b = cancelling(s.slots.branch_summary);
    let h = cancelling(s.slots.bash);
    let cancels = o + r + c + a + b + h;
    assert(aborted(s).outbox =~= cancels.push(Effect::AbortAgent).push(Effect::AwaitIdle));
    assert(aborted(s).outbox.take(o.len() as int) =~= o);
    let n = o.len() as int;
    if s.slots.retry == Some(token) {
        assert(cancels[n] == Effect::Cancel(token));
    }
    if s.slots.compaction == Some(token) {
        assert(cancels[n + r.len()] == Effect::Cancel(token));
    }
    if s.slots.auto_compaction == Some(token) {
        assert(cancels[n + r.len() + c.len()] == Effect::Cancel(token));
    }
    if s.slots.branch_summary == Some(token) {
        assert(cancels[n + r.len() + c.len() + a.len()] == Effect::Cancel(token));
    }
    if s.slots.bash == Some(token) {
        assert(cancels[n + r.len() + c.len() + a.len() + b.len()] == Effect::Cancel(token));
    }
    if holds_token(s.slots, token) {
        let i = choose|i: int| 0 <= i < cancels.len() && cancels[i] == Effect::Cancel(token);
        assert(aborted(s).outbox[i] == Effect::Cancel(token));
        if !s.lifecycle.disposed {
            assert(disposed(s).outbox[i] == Effect::Cancel(token));
        }
    }
    if !s.lifecycle.disposed {
        let i = cancels.len() as int + 1;
        assert(disposed(s).outbox[i] == Effect::AbortAgent);
        assert(disposed(s).outbox[i + 1] == Effect::AwaitAgentIdle);
        assert(disposed(s).outbox[i + 2] == Effect::InvalidateRunner);
    }
}

/// A message that the model is not to see.
pub open spec fn hidden_from_context(m: AgentMessage) -> bool {
    m matches AgentMessage::Custom(c) && json::member(c.payload@, "excludeFromContext"@) == Some(
        Json::Bool(true),
    )
}

/// The messages that the model may see, in their order.
pub open spec fn context_visible(messages: Seq<AgentMessage>) -> Seq<AgentMessage> {
    messages.filter(|m: AgentMessage| !hidden_from_context(m))
}

/// Removes the messages that the model is not to see.
pub fn retain_context_visible_messages(messages: &mut Vec<AgentMessage>)
    ensures
        final(messages)@ == context_visible(old(messages)@),
{
    let ghost all = messages@;
    let ghost visible = |m: AgentMessage| !hidden_from_context(m);
    let n: usize = messages.len();
    let mut kept: Vec<AgentMessage> = Vec::new();
    proof {
        reveal(Seq::filter);
        assert(all.take(0).filter(visible) =~= kept@);
    }
    let mut i: usize = 0;
    while i < n
        invariant
            n == messages@.len(),
            messages@ == all,
            i <= n,
            visible == (|m: AgentMessage| !hidden_from_context(m)),
            kept@ == all.take(i as int).filter(visible),
        decreases n - i,
    {
        let hidden: bool = match &messages[i] {
            AgentMessage::Custom(c) => match json::get_member(&c.payload, "excludeFromContext") {
                Some(Json::Bool(b)) => *b,
                _ => false,
            },
            _ => false,
        };
        proof {
            reveal(Seq::filter);
            assert(all.take(i + 1).drop_last() =~= all.take(i as int));
        }
        if !hidden {
            kept.push(messages[i].clone());
        }
        i += 1;
    }
    assert(all.take(n as int) =~= all);
    *messages = kept;
}

/// What is hidden from the model is gone from the context, what is visible stays, and removing it
/// again changes nothing.
pub proof fn law_context_filter(messages: Seq<AgentMessage>)
    ensures
        forall|i: int|
            0 <= i < context_visible(messages).len() ==> !hidden_from_context(
                #[trigger] context_visible(messages)[i],
            ),
        forall|i: int|
            0 <= i < messages.len() && !hidden_from_context(#[trigger] messages[i])
                ==> context_visible(messages).contains(messages[i]),
        context_visible(context_visible(messages)) == context_visible(messages),
    decreases messages.len(),
{
    broadcast use vstd::seq_lib::group_filter_ensures;

    reveal(Seq::filter);
    let visible = |m: AgentMessage| !hidden_from_context(m);
    lemma_filter_all(context_visible(messages), visible);
    assert forall|i: int| 0 <= i < context_visible(messages).len() implies !hidden_from_context(
        #[trigger] context_visible(messages)[i],
    ) by {
        assert(visible(messages.filter(visible)[i]));
    }
    assert forall|i: int|
        0 <= i < messages.len() && !hidden_from_context(#[trigger] messages[i]) implies context_visible(
        messages,
    ).contains(messages[i]) by {
        assert(visible(messages[i]));
    }
}

proof fn lemma_filter_all(messages: Seq<AgentMessage>, pred: spec_fn(AgentMessage) -> bool)
    requires
        forall|i: int| 0 <= i < messages.len() ==> pred(#[trigger] messages[i]),
    ensures
        messages.filter(pred) == messages,
    decreases messages.len(),
{
    reveal(Seq::filter);
    if messages.len() > 0 {
        lemma_filter_all(messages.drop_last(), pred);
        assert(messages.drop_last().push(messages.last()) =~= messages);
    }
}

/// What a session is made of.
pub struct AgentSessionConfig {
    /// An agent that was made before.
    pub agent: Option<AgentState>,
    /// The provider of an agent that is to be made.
    pub provider: Option<String>,
    pub settings: SessionSettings,
    pub cwd: String,
    pub scoped_models: Vec<ScopedModel>,
    pub initial_active_tool_names: Option<Vec<String>>,
    /// The names of the tools.
    pub tools: Vec<String>,
    pub system_prompt: String,
    pub model: Option<Model>,
    pub thinking_level: ModelThinkingLevel,
    pub messages: Vec<AgentMessage>,
    /// Whether an extension host is attached.
    pub host_attached: bool,
    pub skills: Vec<Skill>,
    pub prompt_templates: Vec<PromptTemplate>,
    pub session_start_event: Option<SessionStartEvent>,
}

impl AgentSessionConfig {
    /// A configuration with a provider and a model and nothing else.
    pub fn test_config(provider: String, model: Model, settings: SessionSettings) -> (r: Result<
        Self,
        AgentSessionError,
    >)
        ensures
            r matches Ok(c) && {
                &&& c.agent is None
                &&& c.provider == Some(provider)
                &&& c.settings == settings
                &&& c.cwd@ == "."@
                &&& c.scoped_models@.len() == 0
                &&& c.initial_active_tool_names is None
                &&& c.tools@.len() == 0
                &&& c.system_prompt@.len() == 0
                &&& c.model == Some(model)
                &&& c.thinking_level == ModelThinkingLevel::Off
                &&& c.messages@.len() == 0
                &&& !c.host_attached
                &&& c.skills@.len() == 0
                &&& c.prompt_templates@.len() == 0
                &&& c.session_start_event is None
            },
    {
        Ok(
            AgentSessionConfig {
                agent: None,
                provider: Some(provider),
                settings,
                cwd: ".".to_owned(),
                scoped_models: Vec::new(),
                initial_active_tool_names: None,
                tools: Vec::new(),
                system_prompt: String::new(),
                model: Some(model),
                thinking_level: ModelThinkingLevel::Off,
                messages: Vec::new(),
                host_attached: false,
                skills: Vec::new(),
                prompt_templates: Vec::new(),
                session_start_event: None,
            },
        )
    }
}

/// Why a session cannot be made.
#[derive(Debug, PartialEq)]
pub enum AgentSessionError {
    /// There is neither an agent nor a provider.
    MissingAgentOrProvider,
    /// The storage failed.
    Session(SessionError),
}

/// The model of an agent for which none was chosen.
pub open spec fn is_unset_model(m: Model) -> bool {
    &&& m.provider@ == "unknown"@
    &&& m.id@ == "unknown"@
    &&& !m.reasoning
    &&& m.thinking_level_map is None
    &&& m.context_window == 0
    &&& m.max_tokens == 0
}

fn unset_model() -> (m: Model)
    ensures
        is_unset_model(m),
{
    Model {
        id: "unknown".to_owned(),
        name: "unknown".to_owned(),
        api: "unknown".to_owned(),
        provider: "unknown".to_owned(),
        base_url: String::new(),
        reasoning: false,
        thinking_level_map: None,
        context_window: 0,
        max_tokens: 0,
    }
}

/// `a` is the agent that a configuration asks for: the one made before, or else a new one.
pub open spec fn configured_agent(a: AgentModel, config: AgentSessionConfig) -> bool {
    match config.agent {
        Some(agent) => a == agent@,
        None => {
            &&& match config.model {
                Some(m) => a.model == m,
                None => is_unset_model(a.model),
            }
            &&& a == (AgentModel {
                model: a.model,
                thinking_level: config.thinking_level,
                is_streaming: false,
                system_prompt: config.system_prompt@,
                transcript: config.messages@,
                steering_queue: seq![],
                follow_up_queue: seq![],
                steering_mode: QueueMode::OneAtATime,
                follow_up_mode: QueueMode::OneAtATime,
            })
        },
    }
}

/// `s` is the session that a configuration makes.
pub open spec fn configured_session(s: SessionModel, config: AgentSessionConfig) -> bool {
    &&& configured_agent(s.agent, config)
    &&& s == (SessionModel {
        lifecycle: SessionLifecycle {
            auto_retry_enabled: config.settings.retry.enabled,
            auto_compaction_enabled: config.settings.compaction.enabled,
            host_attached: config.host_attached,
            ..fresh_lifecycle()
        },
        counters: SessionCounters {
            max_retries: if config.settings.retry.max_retries <= u32::MAX {
                config.settings.retry.max_retries as u32
            } else {
                u32::MAX
            },
            ..fresh_counters()
        },
        slots: fresh_slots(),
        steering: seq![],
        follow_up: seq![],
        last_assistant: None,
        listeners: seq![],
        barriers: seq![],
        error: None,
        scoped_models: config.scoped_models@,
        active_tools: match config.initial_active_tool_names {
            Some(names) => names@,
            None => seq![],
        },
        base_prompt: config.system_prompt@,
        prompt_override: None,
        tools: config.tools@,
        pending_next_turn: seq![],
        pending_custom: seq![],
        pending_bash: seq![],
        bindings: BoundExtensions {
            mode: None,
            ui_tag: None,
            has_shutdown_handler: false,
            has_error_listener: false,
            command_context: None,
        },
        pending_start: Some(
            match config.session_start_event {
                Some(event) => event,
                None => SessionStartEvent {
                    reason: crate::events::SessionStartReason::Startup,
                    previous_session_file: None,
                },
            },
        ),
        skills: config.skills@,
        templates: config.prompt_templates@,
        agent: s.agent,
        settings: config.settings,
        cwd: config.cwd@,
        outbox: seq![],
    })
}

impl AgentSession {
    /// Makes a session. It fails where there is neither an agent nor a provider to make one with.
    pub fn new(config: AgentSessionConfig) -> (r: Result<Self, AgentSessionError>)
        ensures
            match r {
                Ok(s) => (config.agent is Some || config.provider is Some) && configured_session(
                    s@,
                    config,
                ) && s@.listeners_well_formed(),
                Err(e) => e is MissingAgentOrProvider && config.agent is None
                    && config.provider is None,
            },
    {
        let agent = match config.agent {
            Some(agent) => agent,
            None => {
                if config.provider.is_none() {
                    return Err(AgentSessionError::MissingAgentOrProvider);
                }
                let model = match config.model {
                    Some(model) => model,
                    None => unset_model(),
                };
                AgentState {
                    model,
                    thinking_level: config.thinking_level,
                    is_streaming: false,
                    system_prompt: config.system_prompt.clone(),
                    transcript: config.messages,
                    steering_queue: Vec::new(),
                    follow_up_queue: Vec::new(),
                    steering_mode: QueueMode::OneAtATime,
                    follow_up_mode: QueueMode::OneAtATime,
                }
            },
        };
        let mut lifecycle = SessionLifecycle::default();
        lifecycle.auto_retry_enabled = config.settings.retry.enabled;
        lifecycle.auto_compaction_enabled = config.settings.compaction.enabled;
        lifecycle.host_attached = config.host_attached;
        let max_retries: u32 = if config.settings.retry.max_retries <= u32::MAX as u64 {
            config.settings.retry.max_retries as u32
        } else {
            u32::MAX
        };
        let session = AgentSession {
            lifecycle,
            counters: SessionCounters {
                retry_attempt: 0,
                max_retries,
                next_listener_id: 1,
                next_backpressure_hook_id: 1,
                processed_agent_ends: 0,
                processed_message_ends: 0,
                run_message_baseline: 0,
                boundary_turn_index: 0,
            },
            slots: AbortSlots {
                retry: None,
                compaction: None,
                auto_compaction: None,
                branch_summary: None,
                bash: None,
                auto_compaction_owner: 0,
            },
            steering_messages: Vec::new(),
            follow_up_messages: Vec::new(),
            last_assistant_message: None,
            listeners: Vec::new(),
            backpressure_hooks: Vec::new(),
            pending_session_error: None,
            scoped_models: config.scoped_models,
            active_tool_names: match config.initial_active_tool_names {
                Some(names) => names,
                None => Vec::new(),
            },
            hooks: SessionHooks {
                system_prompt: SystemPromptState {
                    base: config.system_prompt,
                    override_prompt: None,
                },
                tools: config.tools,
            },
            pending_next_turn_messages: Vec::new(),
            pending_custom_messages: Vec::new(),
            pending_bash_messages: Vec::new(),
            bindings: BoundExtensions {
                mode: None,
                ui_tag: None,
                has_shutdown_handler: false,
                has_error_listener: false,
                command_context: None,
            },
            pending_session_start: Some(
                match config.session_start_event {
                    Some(event) => event,
                    None => SessionStartEvent::default(),
                },
            ),
            skills: config.skills,
            prompt_templates: config.prompt_templates,
            agent,
            settings: config.settings,
            cwd: config.cwd,
            outbox: Vec::new(),
        };
        Ok(session)
    }

    /// Cancels a token, where there is one.
    fn cancel(&mut self, token: Option<CancelToken>)
        ensures
            final(self)@ == (SessionModel {
                outbox: old(self)@.outbox + cancelling(token),
                ..old(self)@
            }),
    {
        if let Some(t) = token {
            self.outbox.push(Effect::Cancel(t));
            assert(self@.outbox =~= old(self)@.outbox + seq![Effect::Cancel(t)]);
        }
    }

    /// Gives the slot of the running shell command to `token`, and cancels what held it before.
    pub fn begin_bash_abort(&mut self, token: CancelToken)
        ensures
            final(self)@ == begun_bash(old(self)@, token),
    {
        let previous = self.slots.bash;
        self.cancel(previous);
        self.slots.bash = Some(token);
    }

    /// Clears the slot of the running shell command.
    pub fn clear_bash_abort(&mut self)
        ensures
            final(self)@ == (SessionModel {
                slots: AbortSlots { bash: None, ..old(self)@.slots },
                ..old(self)@
            }),
    {
        self.slots.bash = None;
    }

    /// Cancels the running shell command.
    pub fn abort_bash(&mut self)
        ensures
            final(self)@ == aborted_bash(old(self)@),
    {
        let token = self.slots.bash;
        self.cancel(token);
        self.slots.bash = None;
    }

    /// Gives the slot of the retry wait to `token`, and cancels what held it before.
    pub fn begin_retry_abort(&mut self, token: CancelToken)
        ensures
            final(self)@ == begun_retry(old(self)@, token),
    {
        let previous = self.slots.retry;
        self.cancel(previous);
        self.slots.retry = Some(token);
    }

    /// Clears the slot of the retry wait.
    pub fn clear_retry_abort(&mut self)
        ensures
            final(self)@ == (SessionModel {
                slots: AbortSlots { retry: None, ..old(self)@.slots },
                ..old(self)@
            }),
    {
        self.slots.retry = None;
    }

    /// Cancels the retry wait.
    pub fn abort_retry(&mut self)
        ensures
            final(self)@ == aborted_retry(old(self)@),
    {
        let token = self.slots.retry;
        self.cancel(token);
        self.slots.retry = None;
    }

    /// Gives the slot of the manual compaction to `token`, and cancels what held it before.
    pub fn begin_compaction_abort(&mut self, token: CancelToken)
        ensures
            final(self)@ == begun_compaction(old(self)@, token),
    {
        let previous = self.slots.compaction;
        self.cancel(previous);
        self.slots.compaction = Some(token);
    }

    /// Clears the slot of the manual compaction.
    pub fn clear_compaction_abort(&mut self)
        ensures
            final(self)@ == (SessionModel {
                slots: AbortSlots { compaction: None, ..old(self)@.slots },
                ..old(self)@
            }),
    {
        self.slots.compaction = None;
    }

    /// Cancels the compactions, manual and automatic.
    pub fn abort_compaction(&mut self)
        ensures
            final(self)@ == aborted_compaction(old(self)@),
    {
        let manual = self.slots.compaction;
        self.cancel(manual);
        let auto = self.slots.auto_compaction;
        self.cancel(auto);
        self.slots.compaction = None;
        self.slots.auto_compaction = None;
    }

    /// Gives the slot of the automatic compaction to `token`, and cancels what held it before. Gives
    /// the generation by which the slot is cleared again.
    pub fn begin_auto_compaction_abort(&mut self, token: CancelToken) -> (owner: u64)
        ensures
            final(self)@ == begun_auto_compaction(old(self)@, token),
            owner == final(self)@.slots.auto_compaction_owner,
    {
        let previous = self.slots.auto_compaction;
        self.cancel(previous);
        self.slots.auto_compaction = Some(token);
        let owner: u64 = self.slots.auto_compaction_owner.wrapping_add(1);
        self.slots.auto_compaction_owner = owner;
        owner
    }

    /// Clears the slot of the automatic compaction, where `owner` is still its generation.
    pub fn clear_auto_compaction_abort(&mut self, owner: u64)
        ensures
            final(self)@ == cleared_auto_compaction(old(self)@, owner),
    {
        if self.slots.auto_compaction_owner == owner {
            self.slots.auto_compaction = None;
        }
    }

    /// Cancels the branch summary.
    pub fn abort_branch_summary(&mut self)
        ensures
            final(self)@ == aborted_branch_summary(old(self)@),
    {
        let token = self.slots.branch_summary;
        self.cancel(token);
        self.slots.branch_summary = None;
    }

    /// Cancels everything that is in progress. The caller then waits until the session is idle.
    pub fn abort(&mut self)
        ensures
            final(self)@ == aborted(old(self)@),
    {
        self.abort_retry();
        self.abort_compaction();
        self.abort_branch_summary();
        self.abort_bash();
        self.outbox.push(Effect::AbortAgent);
        self.outbox.push(Effect::AwaitIdle);
    }

    /// Ends the session's life: once, whatever is called how often.
    pub fn dispose(&mut self)
        ensures
            final(self)@ == disposed(old(self)@),
    {
        if self.lifecycle.disposed {
            return;
        }
        self.lifecycle.disposed = true;
        self.abort_retry();
        self.abort_compaction();
        self.abort_branch_summary();
        self.abort_bash();
        self.outbox.push(Effect::DisconnectPump);
        self.outbox.push(Effect::AbortAgent);
        self.outbox.push(Effect::AwaitAgentIdle);
        self.outbox.push(Effect::InvalidateRunner);
        if self.lifecycle.host_attached {
            self.lifecycle.host_attached = false;
            self.outbox.push(Effect::ShutDownHost);
        }
        assert(self@ =~= disposed(old(self)@));
    }
}

/// A session with one more listener, under the next id.
pub open spec fn subscribed(s: SessionModel) -> SessionModel {
    SessionModel {
        listeners: s.listeners.push(s.counters.next_listener_id),
        counters: SessionCounters {
            next_listener_id: saturating_next(s.counters.next_listener_id),
            ..s.counters
        },
        ..s
    }
}

/// A session without the listener of this id.
pub open spec fn unsubscribed(s: SessionModel, id: u64) -> SessionModel {
    SessionModel { listeners: without_id(s.listeners, id), ..s }
}

/// The next number, as far as 64 bits go.
pub open spec fn saturating_next(n: u64) -> u64 {
    if n == u64::MAX {
        n
    } else {
        (n + 1) as u64
    }
}

/// The ids without one of them, in their order.
pub open spec fn without_id(ids: Seq<u64>, id: u64) -> Seq<u64>
    decreases ids.len(),
{
    if ids.len() == 0 {
        seq![]
    } else if ids.last() == id {
        without_id(ids.drop_last(), id)
    } else {
        without_id(ids.drop_last(), id).push(ids.last())
    }
}

fn remove_id(ids: &mut Vec<u64>, id: u64)
    ensures
        final(ids)@ == without_id(old(ids)@, id),
{
    let ghost all = ids@;
    let n: usize = ids.len();
    let mut kept: Vec<u64> = Vec::new();
    let mut i: usize = 0;
    while i < n
        invariant
            n == ids@.len(),
            ids@ == all,
            i <= n,
            kept@ == without_id(all.take(i as int), id),
        decreases n - i,
    {
        assert(all.take(i + 1).drop_last() =~= all.take(i as int));
        if ids[i] != id {
            kept.push(ids[i]);
        }
        i += 1;
    }
    assert(all.take(n as int) =~= all);
    *ids = kept;
}

/// A list without an id that it does not hold is the list; a list to which a new id was added is,
/// without it, the list before.
proof fn lemma_without_new_id(ids: Seq<u64>, id: u64)
    requires
        !ids.contains(id),
    ensures
        without_id(ids, id) == ids,
        without_id(ids.push(id), id) == ids,
    decreases ids.len(),
{
    if ids.len() > 0 {
        let rest = ids.drop_last();
        assert(!rest.contains(id)) by {
            if rest.contains(id) {
                let k = choose|k: int| 0 <= k < rest.len() && rest[k] == id;
                assert(ids[k] == id);
            }
        }
        lemma_without_new_id(rest, id);
        assert(ids.last() != id) by {
            assert(ids.contains(ids.last()));
        }
        assert(rest.push(ids.last()) =~= ids);
    } else {
        assert(ids =~= seq![]);
    }
    assert(without_id(ids, id) == ids);
    let more = ids.push(id);
    assert(more.drop_last() =~= ids);
    assert(more.last() == id);
    assert(without_id(more, id) == without_id(more.drop_last(), id));
}

/// What unsubscribing undoes is exactly the subscription: the other listeners stay, in their order.
pub proof fn law_unsubscribe_undoes_subscribe(s: SessionModel)
    requires
        s.listeners_well_formed(),
    ensures
        unsubscribed(subscribed(s), s.counters.next_listener_id).listeners == s.listeners,
        s.counters.next_listener_id < u64::MAX ==> subscribed(s).listeners_well_formed(),
{
    let id = s.counters.next_listener_id;
    assert(!s.listeners.contains(id)) by {
        if s.listeners.contains(id) {
            let k = choose|k: int| 0 <= k < s.listeners.len() && s.listeners[k] == id;
            assert(s.listeners[k] < id);
        }
    }
    lemma_without_new_id(s.listeners, id);
    let t = subscribed(s);
    if id < u64::MAX {
        assert forall|i: int, j: int|
            0 <= i < t.listeners.len() && 0 <= j < t.listeners.len() && i != j implies t.listeners[i]
            != t.listeners[j] by {
            if i < s.listeners.len() {
                assert(s.listeners[i] < id);
            }
            if j < s.listeners.len() {
                assert(s.listeners[j] < id);
            }
        }
        assert forall|i: int| 0 <= i < t.listeners.len() implies #[trigger] t.listeners[i]
            < t.counters.next_listener_id by {
            if i < s.listeners.len() {
                assert(s.listeners[i] < id);
            }
        }
    }
}

impl AgentSession {
    /// The current model.
    pub fn model(&self) -> (r: Model)
        ensures
            r == self@.agent.model,
    {
        self.agent.model.clone()
    }

    /// The current thinking level.
    pub fn thinking_level(&self) -> (r: ModelThinkingLevel)
        ensures
            r == self@.agent.thinking_level,
    {
        self.agent.thinking_level
    }

    /// Whether the agent streams.
    pub fn is_streaming(&self) -> (r: bool)
        ensures
            r == self@.agent.is_streaming,
    {
        self.agent.is_streaming
    }

    /// Whether no run is active.
    pub fn is_idle(&self) -> (r: bool)
        ensures
            r == (!self@.lifecycle.is_agent_run_active && !self@.agent.is_streaming),
    {
        !self.lifecycle.is_agent_run_active && !self.agent.is_streaming
    }

    /// Whether a compaction is in progress.
    pub fn is_compacting(&self) -> (r: bool)
        ensures
            r == (self@.slots.compaction is Some || self@.slots.auto_compaction is Some),
    {
        self.slots.compaction.is_some() || self.slots.auto_compaction.is_some()
    }

    /// Whether a retry is waited for.
    pub fn is_retrying(&self) -> (r: bool)
        ensures
            r == self@.slots.retry is Some,
    {
        self.slots.retry.is_some()
    }

    /// Whether a shell command runs.
    pub fn is_bash_running(&self) -> (r: bool)
        ensures
            r == self@.slots.bash is Some,
    {
        self.slots.bash.is_some()
    }

    /// Whether a branch is summarised.
    pub fn is_summarizing(&self) -> (r: bool)
        ensures
            r == self@.slots.branch_summary is Some,
    {
        self.slots.branch_summary.is_some()
    }

    /// The models chosen for the session.
    pub fn scoped_models(&self) -> (r: Vec<ScopedModel>)
        ensures
            r@ == self@.scoped_models,
    {
        let r = self.scoped_models.clone();
        assert(r@ =~= self.scoped_models@);
        r
    }

    /// How many texts wait.
    pub fn pending_message_count(&self) -> (r: usize)
        ensures
            r == if self@.steering.len() + self@.follow_up.len() <= usize::MAX {
                self@.steering.len() + self@.follow_up.len()
            } else {
                usize::MAX as nat
            },
    {
        self.steering_messages.len().saturating_add(self.follow_up_messages.len())
    }

    /// The texts that wait.
    pub fn pending_messages(&self) -> (r: (Vec<String>, Vec<String>))
        ensures
            r.0@ == self@.steering,
            r.1@ == self@.follow_up,
    {
        (
            messages::clone_texts(&self.steering_messages),
            messages::clone_texts(&self.follow_up_messages),
        )
    }

    /// The names of the active tools.
    pub fn active_tool_names(&self) -> (r: Vec<String>)
        ensures
            r@ == self@.active_tools,
    {
        messages::clone_texts(&self.active_tool_names)
    }

    /// How many messages the transcript holds.
    pub fn message_count(&self) -> (r: usize)
        ensures
            r == self@.agent.transcript.len(),
    {
        self.agent.transcript.len()
    }

    /// The transcript.
    pub fn messages(&self) -> (r: Vec<AgentMessage>)
        ensures
            r@ == self@.agent.transcript,
    {
        messages::clone_messages(&self.agent.transcript)
    }

    /// What the model sees of the transcript. An estimate of the context rests on this alone.
    pub fn context_messages(&self) -> (r: Vec<AgentMessage>)
        ensures
            r@ == context_visible(self@.agent.transcript),
    {
        let mut messages = messages::clone_messages(&self.agent.transcript);
        retain_context_visible_messages(&mut messages);
        messages
    }

    /// How steering messages are taken.
    pub fn steering_mode(&self) -> (r: QueueMode)
        ensures
            r == self@.agent.steering_mode,
    {
        self.agent.steering_mode
    }

    /// How follow-up messages are taken.
    pub fn follow_up_mode(&self) -> (r: QueueMode)
        ensures
            r == self@.agent.follow_up_mode,
    {
        self.agent.follow_up_mode
    }

    /// Whether automatic compaction is on.
    pub fn auto_compaction_enabled(&self) -> (r: bool)
        ensures
            r == self@.lifecycle.auto_compaction_enabled,
    {
        self.lifecycle.auto_compaction_enabled
    }

    /// Whether automatic retry is on.
    pub fn auto_retry_enabled(&self) -> (r: bool)
        ensures
            r == self@.lifecycle.auto_retry_enabled,
    {
        self.lifecycle.auto_retry_enabled
    }

    /// Whether messages wait in the agent's queues.
    pub fn has_queued_messages(&self) -> (r: bool)
        ensures
            r == self@.agent.has_queued(),
    {
        !self.agent.steering_queue.is_empty() || !self.agent.follow_up_queue.is_empty()
    }

    /// Adds a listener and gives its id.
    pub fn subscribe(&mut self) -> (id: u64)
        ensures
            id == old(self)@.counters.next_listener_id,
            final(self)@ == subscribed(old(self)@),
    {
        let id: u64 = self.counters.next_listener_id;
        self.counters.next_listener_id = id.saturating_add(1);
        self.listeners.push(id);
        id
    }

    /// Removes the listener of this id.
    pub fn unsubscribe(&mut self, id: u64)
        ensures
            final(self)@ == unsubscribed(old(self)@, id),
    {
        remove_id(&mut self.listeners, id);
    }

    /// Adds an event barrier and gives its id.
    pub fn register_event_backpressure_hook(&mut self) -> (id: u64)
        ensures
            id == old(self)@.counters.next_backpressure_hook_id,
            final(self)@ == (SessionModel {
                barriers: old(self)@.barriers.push(id),
                counters: SessionCounters {
                    next_backpressure_hook_id: saturating_next(id),
                    ..old(self)@.counters
                },
                ..old(self)@
            }),
    {
        let id: u64 = self.counters.next_backpressure_hook_id;
        self.counters.next_backpressure_hook_id = id.saturating_add(1);
        self.backpressure_hooks.push(id);
        id
    }

    /// Removes the event barrier of this id.
    pub fn unregister_event_backpressure_hook(&mut self, id: u64)
        ensures
            final(self)@ == (SessionModel {
                barriers: without_id(old(self)@.barriers, id),
                ..old(self)@
            }),
    {
        remove_id(&mut self.backpressure_hooks, id);
    }

    /// The barriers that are waited for after an event, in their order.
    pub fn await_event_backpressure(&self) -> (r: Vec<u64>)
        ensures
            r@ == self@.barriers,
    {
        let r = self.backpressure_hooks.clone();
        assert(r@ =~= self.backpressure_hooks@);
        r
    }

    /// Keeps a storage failure for the end of the prompt. The first one counts.
    pub fn record_session_error(&mut self, error: SessionError)
        ensures
            final(self)@ == (SessionModel {
                error: match old(self)@.error {
                    Some(first) => Some(first),
                    None => Some(error),
                },
                ..old(self)@
            }),
    {
        if self.pending_session_error.is_none() {
            self.pending_session_error = Some(error);
        }
    }

    /// Takes the storage failure.
    pub fn take_session_error(&mut self) -> (r: Option<SessionError>)
        ensures
            r == old(self)@.error,
            final(self)@ == (SessionModel { error: None, ..old(self)@ }),
    {
        self.pending_session_error.take()
    }

    /// Tells the listeners of an event.
    pub fn emit_public(&mut self, event: AgentSessionEvent)
        ensures
            final(self)@ == old(self)@.put(Effect::Emit(event)),
    {
        self.outbox.push(Effect::Emit(event));
    }

    /// Tells the listeners of an event and waits for the barriers.
    pub fn emit_public_awaited(&mut self, event: AgentSessionEvent)
        ensures
            final(self)@ == old(self)@.put(Effect::EmitAwaited(event)),
    {
        self.outbox.push(Effect::EmitAwaited(event));
    }

    /// Announces the texts that wait.
    pub fn emit_queue_update(&mut self)
        ensures
            with_announcement(old(self)@, final(self)@),
    {
        let steering = Arc::new(messages::clone_texts(&self.steering_messages));
        let follow_up = Arc::new(messages::clone_texts(&self.follow_up_messages));
        self.emit_public(AgentSessionEvent::QueueUpdate { steering, follow_up });
    }

    /// Adds a steering text and announces the texts that wait.
    pub fn mirror_steering_push(&mut self, text: String)
        ensures
            with_announcement(
                SessionModel { steering: old(self)@.steering.push(text), ..old(self)@ },
                final(self)@,
            ),
    {
        self.steering_messages.push(text);
        self.emit_queue_update();
    }

    /// Adds a follow-up text and announces the texts that wait.
    pub fn mirror_follow_up_push(&mut self, text: String)
        ensures
            with_announcement(
                SessionModel { follow_up: old(self)@.follow_up.push(text), ..old(self)@ },
                final(self)@,
            ),
    {
        self.follow_up_messages.push(text);
        self.emit_queue_update();
    }

    /// Removes all that waits, the texts and the messages, and announces it.
    pub fn clear_queue(&mut self)
        ensures
            with_announcement(
                SessionModel {
                    steering: seq![],
                    follow_up: seq![],
                    agent: AgentModel {
                        steering_queue: seq![],
                        follow_up_queue: seq![],
                        ..old(self)@.agent
                    },
                    ..old(self)@
                },
                final(self)@,
            ),
    {
        self.steering_messages.clear();
        self.follow_up_messages.clear();
        self.agent.steering_queue.clear();
        self.agent.follow_up_queue.clear();
        self.emit_queue_update();
    }

    /// Turns automatic retry on or off, for this session and in its settings.
    pub fn set_auto_retry_enabled(&mut self, enabled: bool)
        ensures
            final(self)@ == (SessionModel {
                lifecycle: SessionLifecycle {
                    auto_retry_enabled: enabled,
                    ..old(self)@.lifecycle
                },
                settings: SessionSettings {
                    retry: RetrySettings { enabled, ..old(self)@.settings.retry },
                    ..old(self)@.settings
                },
                ..old(self)@
            }),
    {
        self.lifecycle.auto_retry_enabled = enabled;
        self.settings.retry.enabled = enabled;
    }

    /// Turns automatic compaction on or off, for this session and in its settings.
    pub fn set_auto_compaction_enabled(&mut self, enabled: bool)
        ensures
            final(self)@ == (SessionModel {
                lifecycle: SessionLifecycle {
                    auto_compaction_enabled: enabled,
                    ..old(self)@.lifecycle
                },
                settings: SessionSettings {
                    compaction: ResolvedCompactionSettings {
                        enabled,
                        ..old(self)@.settings.compaction
                    },
                    ..old(self)@.settings
                },
                ..old(self)@
            }),
    {
        self.lifecycle.auto_compaction_enabled = enabled;
        self.settings.compaction.enabled = enabled;
    }

    /// Sets how steering messages are taken.
    pub fn set_steering_mode(&mut self, mode: QueueMode)
        ensures
            final(self)@ == (SessionModel {
                agent: AgentModel { steering_mode: mode, ..old(self)@.agent },
                ..old(self)@
            }),
    {
        self.agent.steering_mode = mode;
    }

    /// Sets how follow-up messages are taken.
    pub fn set_follow_up_mode(&mut self, mode: QueueMode)
        ensures
            final(self)@ == (SessionModel {
                agent: AgentModel { follow_up_mode: mode, ..old(self)@.agent },
                ..old(self)@
            }),
    {
        self.agent.follow_up_mode = mode;
    }

    /// Marks the start of a run.
    pub fn mark_agent_run_active(&mut self)
        ensures
            final(self)@ == run_started(old(self)@),
    {
        self.lifecycle.is_agent_run_active = true;
    }

    /// Settles the session: told once for each run.
    pub fn emit_agent_settled(&mut self)
        ensures
            final(self)@ == settled(old(self)@),
    {
        if self.lifecycle.is_agent_run_active {
            self.lifecycle.is_agent_run_active = false;
            self.outbox.push(Effect::Emit(AgentSessionEvent::AgentSettled));
            self.outbox.push(Effect::WakeIdle);
        }
    }

    /// Removes the last message of the transcript where it is an assistant's, and tells whether it
    /// was.
    pub fn pop_last_if_assistant(&mut self) -> (popped: bool)
        ensures
            popped == self::ends_with_assistant(old(self)@.agent.transcript),
            final(self)@ == (SessionModel {
                agent: popped_assistant(old(self)@.agent),
                ..old(self)@
            }),
    {
        let n: usize = self.agent.transcript.len();
        if n == 0 {
            return false;
        }
        let assistant: bool = match &self.agent.transcript[n - 1] {
            AgentMessage::Llm(Message::Assistant(_)) => true,
            _ => false,
        };
        if assistant {
            let ghost before = self.agent.transcript@;
            self.agent.transcript.pop();
            assert(self.agent.transcript@ =~= before.drop_last());
        }
        assistant
    }

    /// The last assistant message of the transcript.
    pub fn last_assistant(&self) -> (r: Option<AssistantMessage>)
        ensures
            r == last_assistant_in(self@.agent.transcript),
    {
        let mut i: usize = self.agent.transcript.len();
        assert(self.agent.transcript@.take(i as int) =~= self.agent.transcript@);
        while i > 0
            invariant
                i <= self.agent.transcript@.len(),
                last_assistant_in(self.agent.transcript@) == last_assistant_in(
                    self.agent.transcript@.take(i as int),
                ),
            decreases i,
        {
            assert(self.agent.transcript@.take(i as int).drop_last()
                =~= self.agent.transcript@.take(i - 1));
            i -= 1;
            if let AgentMessage::Llm(Message::Assistant(a)) = &self.agent.transcript[i] {
                return Some(a.clone());
            }
        }
        None
    }

    /// How many assistant messages the transcript holds.
    pub fn assistant_count(&self) -> (r: usize)
        ensures
            r == assistants_in(self@.agent.transcript),
    {
        let n: usize = self.agent.transcript.len();
        let mut count: usize = 0;
        let mut i: usize = 0;
        while i < n
            invariant
                n == self.agent.transcript@.len(),
                i <= n,
                count <= i,
                count == assistants_in(self.agent.transcript@.take(i as int)),
            decreases n - i,
        {
            assert(self.agent.transcript@.take(i + 1).drop_last()
                =~= self.agent.transcript@.take(i as int));
            if self.agent.transcript[i].has_role("assistant") {
                count += 1;
            }
            i += 1;
        }
        assert(self.agent.transcript@.take(n as int) =~= self.agent.transcript@);
        count
    }
}

impl AgentModel {
    /// Messages wait in the agent's queues.
    pub open spec fn has_queued(self) -> bool {
        self.steering_queue.len() > 0 || self.follow_up_queue.len() > 0
    }
}

/// The last message is an assistant's.
pub open spec fn ends_with_assistant(transcript: Seq<AgentMessage>) -> bool {
    transcript.len() > 0 && transcript.last() matches AgentMessage::Llm(Message::Assistant(_))
}

/// An agent without the assistant message at the end of its transcript.
pub open spec fn popped_assistant(a: AgentModel) -> AgentModel {
    if ends_with_assistant(a.transcript) {
        AgentModel { transcript: a.transcript.drop_last(), ..a }
    } else {
        a
    }
}

/// The last assistant message of a transcript.
pub open spec fn last_assistant_in(transcript: Seq<AgentMessage>) -> Option<AssistantMessage>
    decreases transcript.len(),
{
    if transcript.len() == 0 {
        None
    } else if let AgentMessage::Llm(Message::Assistant(a)) = transcript.last() {
        Some(a)
    } else {
        last_assistant_in(transcript.drop_last())
    }
}

/// How many messages of a transcript have the role of an assistant.
pub open spec fn assistants_in(transcript: Seq<AgentMessage>) -> nat
    decreases transcript.len(),
{
    if transcript.len() == 0 {
        0
    } else {
        assistants_in(transcript.drop_last()) + (if messages::role_of(transcript.last())
            == "assistant"@ {
            1nat
        } else {
            0
        })
    }
}

proof fn lemma_cancelled(outbox: Seq<Effect>, token: Option<CancelToken>)
    ensures
        outbox + cancelling(token) == match token {
            Some(t) => outbox.push(Effect::Cancel(t)),
            None => outbox,
        },
{
    assert(outbox + cancelling(token) =~= match token {
        Some(t) => outbox.push(Effect::Cancel(t)),
        None => outbox,
    });
}

/// A shell command that begins is in progress and can be cancelled; one that was in progress is cancelled,
/// exactly then. One that ends is no longer in progress, and nothing is cancelled.
pub proof fn law_shell_command_begins_and_ends(
    session: &mut AgentSession,
    later: &mut AgentSession,
    token: CancelToken,
    during: &AgentSession,
    runs: bool,
    begun: (),
    ended: (),
)
    requires
        call_ensures(AgentSession::begin_bash_abort, (session, token), begun),
        during@ == final(session)@,
        call_ensures(AgentSession::is_bash_running, (during,), runs),
        call_ensures(AgentSession::clear_bash_abort, (later,), ended),
    ensures
        runs,
        final(session)@.slots.bash == Some(token),
        old(session)@.slots.bash is None ==> final(session)@.outbox == old(session)@.outbox,
        old(session)@.slots.bash matches Some(before) ==> final(session)@.outbox == old(session)@.outbox.push(
            Effect::Cancel(before),
        ),
        final(session)@.slots.retry == old(session)@.slots.retry,
        final(session)@.slots.compaction == old(session)@.slots.compaction,
        final(session)@.slots.auto_compaction == old(session)@.slots.auto_compaction,
        final(session)@.slots.branch_summary == old(session)@.slots.branch_summary,
        final(session)@.agent == old(session)@.agent,
        final(session)@.lifecycle == old(session)@.lifecycle,
        final(later)@.slots.bash is None,
        final(later)@.outbox == old(later)@.outbox,
        final(later)@.slots.retry == old(later)@.slots.retry,
        final(later)@.slots.compaction == old(later)@.slots.compaction,
        final(later)@.slots.auto_compaction == old(later)@.slots.auto_compaction,
        final(later)@.slots.branch_summary == old(later)@.slots.branch_summary,
        final(later)@.agent == old(later)@.agent,
{
    lemma_cancelled(old(session)@.outbox, old(session)@.slots.bash);
}

/// A shell command that is aborted is no longer in progress and is cancelled; without one nothing happens.
pub proof fn law_shell_command_is_aborted(session: &mut AgentSession, done: ())
    requires
        call_ensures(AgentSession::abort_bash, (session,), done),
    ensures
        final(session)@.slots.bash is None,
        old(session)@.slots.bash is None ==> final(session)@ == old(session)@,
        old(session)@.slots.bash matches Some(token) ==> final(session)@.outbox == old(session)@.outbox.push(
            Effect::Cancel(token),
        ),
        final(session)@.slots.retry == old(session)@.slots.retry,
        final(session)@.slots.compaction == old(session)@.slots.compaction,
        final(session)@.slots.auto_compaction == old(session)@.slots.auto_compaction,
        final(session)@.slots.branch_summary == old(session)@.slots.branch_summary,
        final(session)@.agent == old(session)@.agent,
        final(session)@.lifecycle == old(session)@.lifecycle,
{
    lemma_cancelled(old(session)@.outbox, old(session)@.slots.bash);
}

/// A wait for a retry that begins is in progress and can be cancelled; one that was in progress is cancelled,
/// exactly then. One that ends is no longer in progress, and nothing is cancelled.
pub proof fn law_retry_wait_begins_and_ends(
    session: &mut AgentSession,
    later: &mut AgentSession,
    token: CancelToken,
    during: &AgentSession,
    runs: bool,
    begun: (),
    ended: (),
)
    requires
        call_ensures(AgentSession::begin_retry_abort, (session, token), begun),
        during@ == final(session)@,
        call_ensures(AgentSession::is_retrying, (during,), runs),
        call_ensures(AgentSession::clear_retry_abort, (later,), ended),
    ensures
        runs,
        final(session)@.slots.retry == Some(token),
        old(session)@.slots.retry is None ==> final(session)@.outbox == old(session)@.outbox,
        old(session)@.slots.retry matches Some(before) ==> final(session)@.outbox == old(session)@.outbox.push(
            Effect::Cancel(before),
        ),
        final(session)@.slots.compaction == old(session)@.slots.compaction,
        final(session)@.slots.auto_compaction == old(session)@.slots.auto_compaction,
        final(session)@.slots.branch_summary == old(session)@.slots.branch_summary,
        final(session)@.slots.bash == old(session)@.slots.bash,
        final(session)@.agent == old(session)@.agent,
        final(session)@.lifecycle == old(session)@.lifecycle,
        final(later)@.slots.retry is None,
        final(later)@.outbox == old(later)@.outbox,
        final(later)@.slots.compaction == old(later)@.slots.compaction,
        final(later)@.slots.auto_compaction == old(later)@.slots.auto_compaction,
        final(later)@.slots.branch_summary == old(later)@.slots.branch_summary,
        final(later)@.slots.bash == old(later)@.slots.bash,
        final(later)@.agent == old(later)@.agent,
{
    lemma_cancelled(old(session)@.outbox, old(session)@.slots.retry);
}

/// A wait for a retry that is aborted is no longer in progress and is cancelled; without one nothing happens.
pub proof fn law_retry_wait_is_aborted(session: &mut AgentSession, done: ())
    requires
        call_ensures(AgentSession::abort_retry, (session,), done),
    ensures
        final(session)@.slots.retry is None,
        old(session)@.slots.retry is None ==> final(session)@ == old(session)@,
        old(session)@.slots.retry matches Some(token) ==> final(session)@.outbox == old(session)@.outbox.push(
            Effect::Cancel(token),
        ),
        final(session)@.slots.compaction == old(session)@.slots.compaction,
        final(session)@.slots.auto_compaction == old(session)@.slots.auto_compaction,
        final(session)@.slots.branch_summary == old(session)@.slots.branch_summary,
        final(session)@.slots.bash == old(session)@.slots.bash,
        final(session)@.agent == old(session)@.agent,
        final(session)@.lifecycle == old(session)@.lifecycle,
{
    lemma_cancelled(old(session)@.outbox, old(session)@.slots.retry);
}

/// A manual compaction that begins is in progress and can be cancelled; one that was in progress is cancelled,
/// exactly then. One that ends is no longer in progress, and nothing is cancelled.
pub proof fn law_manual_compaction_begins_and_ends(
    session: &mut AgentSession,
    later: &mut AgentSession,
    token: CancelToken,
    during: &AgentSession,
    runs: bool,
    begun: (),
    ended: (),
)
    requires
        call_ensures(AgentSession::begin_compaction_abort, (session, token), begun),
        during@ == final(session)@,
        call_ensures(AgentSession::is_compacting, (during,), runs),
        call_ensures(AgentSession::clear_compaction_abort, (later,), ended),
    ensures
        runs,
        final(session)@.slots.compaction == Some(token),
        old(session)@.slots.compaction is None ==> final(session)@.outbox == old(session)@.outbox,
        old(session)@.slots.compaction matches Some(before) ==> final(session)@.outbox == old(session)@.outbox.push(
            Effect::Cancel(before),
        ),
        final(session)@.slots.retry == old(session)@.slots.retry,
        final(session)@.slots.auto_compaction == old(session)@.slots.auto_compaction,
        final(session)@.slots.branch_summary == old(session)@.slots.branch_summary,
        final(session)@.slots.bash == old(session)@.slots.bash,
        final(session)@.agent == old(session)@.agent,
        final(session)@.lifecycle == old(session)@.lifecycle,
        final(later)@.slots.compaction is None,
        final(later)@.outbox == old(later)@.outbox,
        final(later)@.slots.retry == old(later)@.slots.retry,
        final(later)@.slots.auto_compaction == old(later)@.slots.auto_compaction,
        final(later)@.slots.branch_summary == old(later)@.slots.branch_summary,
        final(later)@.slots.bash == old(later)@.slots.bash,
        final(later)@.agent == old(later)@.agent,
{
    lemma_cancelled(old(session)@.outbox, old(session)@.slots.compaction);
}

/// Both compactions are cancelled together, the manual one first, and neither stays in progress.
pub proof fn law_compactions_are_aborted(session: &mut AgentSession, done: ())
    requires
        call_ensures(AgentSession::abort_compaction, (session,), done),
    ensures
        final(session)@.slots.compaction is None,
        final(session)@.slots.auto_compaction is None,
        final(session)@.slots.retry == old(session)@.slots.retry,
        final(session)@.slots.bash == old(session)@.slots.bash,
        final(session)@.slots.branch_summary == old(session)@.slots.branch_summary,
        final(session)@.agent == old(session)@.agent,
        ({
            let manual = match old(session)@.slots.compaction {
                Some(t) => old(session)@.outbox.push(Effect::Cancel(t)),
                None => old(session)@.outbox,
            };
            final(session)@.outbox == match old(session)@.slots.auto_compaction {
                Some(t) => manual.push(Effect::Cancel(t)),
                None => manual,
            }
        }),
{
    lemma_cancelled(old(session)@.outbox, old(session)@.slots.compaction);
    lemma_cancelled(
        old(session)@.outbox + cancelling(old(session)@.slots.compaction),
        old(session)@.slots.auto_compaction,
    );
}

/// A branch summary that is aborted is no longer in progress and is cancelled.
pub proof fn law_branch_summary_is_aborted(session: &mut AgentSession, done: ())
    requires
        call_ensures(AgentSession::abort_branch_summary, (session,), done),
    ensures
        final(session)@.slots.branch_summary is None,
        old(session)@.slots.branch_summary is None ==> final(session)@ == old(session)@,
        old(session)@.slots.branch_summary matches Some(token) ==> final(session)@.outbox == old(session)@.outbox.push(
            Effect::Cancel(token),
        ),
        final(session)@.slots.retry == old(session)@.slots.retry,
        final(session)@.slots.compaction == old(session)@.slots.compaction,
        final(session)@.slots.auto_compaction == old(session)@.slots.auto_compaction,
        final(session)@.slots.bash == old(session)@.slots.bash,
        final(session)@.agent == old(session)@.agent,
{
    lemma_cancelled(old(session)@.outbox, old(session)@.slots.branch_summary);
}

/// An automatic compaction that ends frees the slot that it took, unless another took it since: that
/// one stays in progress, and it had the first cancelled.
pub proof fn law_an_automatic_compaction_frees_its_own_slot(
    first: &mut AgentSession,
    second: &mut AgentSession,
    end: &mut AgentSession,
    own: &mut AgentSession,
    a: CancelToken,
    b: CancelToken,
    first_owner: u64,
    second_owner: u64,
    ended: (),
    own_ended: (),
)
    requires
        call_ensures(AgentSession::begin_auto_compaction_abort, (first, a), first_owner),
        old(second)@ == final(first)@,
        call_ensures(AgentSession::begin_auto_compaction_abort, (second, b), second_owner),
        old(end)@ == final(second)@,
        call_ensures(AgentSession::clear_auto_compaction_abort, (end, first_owner), ended),
        old(own)@ == final(second)@,
        call_ensures(AgentSession::clear_auto_compaction_abort, (own, second_owner), own_ended),
    ensures
        first_owner != second_owner,
        final(first)@.slots.auto_compaction == Some(a),
        final(second)@.slots.auto_compaction == Some(b),
        final(second)@.outbox == final(first)@.outbox.push(Effect::Cancel(a)),
        final(end)@ == old(end)@,
        final(own)@.slots.auto_compaction is None,
        final(own)@.outbox == old(own)@.outbox,
        final(own)@.agent == old(own)@.agent,
        old(first)@.slots.auto_compaction is None ==> final(first)@.outbox == old(first)@.outbox,
        old(first)@.slots.auto_compaction matches Some(t) ==> final(first)@.outbox == old(first)@.outbox.push(
            Effect::Cancel(t),
        ),
        final(first)@.slots.compaction == old(first)@.slots.compaction,
        final(first)@.slots.retry == old(first)@.slots.retry,
        final(first)@.slots.bash == old(first)@.slots.bash,
        final(first)@.agent == old(first)@.agent,
{
    lemma_cancelled(old(first)@.outbox, old(first)@.slots.auto_compaction);
    lemma_cancelled(old(second)@.outbox, old(second)@.slots.auto_compaction);
}

/// After an abort nothing is in progress, whatever was is cancelled, the agent's run is aborted and
/// its end is waited for; the transcript, the queues and the settings stay.
pub proof fn law_an_abort_stops_everything(
    session: &mut AgentSession,
    token: CancelToken,
    done: (),
)
    requires
        call_ensures(AgentSession::abort, (session,), done),
    ensures
        final(session)@.slots.retry is None,
        final(session)@.slots.compaction is None,
        final(session)@.slots.auto_compaction is None,
        final(session)@.slots.branch_summary is None,
        final(session)@.slots.bash is None,
        old(session)@.slots.retry == Some(token) || old(session)@.slots.compaction == Some(token)
            || old(session)@.slots.auto_compaction == Some(token) || old(session)@.slots.branch_summary == Some(token) || old(session)@.slots.bash == Some(token)
            ==> final(session)@.outbox.contains(Effect::Cancel(token)),
        final(session)@.outbox.last() == Effect::AwaitIdle,
        final(session)@.outbox.drop_last().last() == Effect::AbortAgent,
        old(session)@.outbox.is_prefix_of(final(session)@.outbox),
        final(session)@.agent == old(session)@.agent,
        final(session)@.lifecycle == old(session)@.lifecycle,
        final(session)@.steering == old(session)@.steering,
        final(session)@.follow_up == old(session)@.follow_up,
        final(session)@.settings == old(session)@.settings,
{
    law_abort_stops_everything(old(session)@, token);
}

/// The end of a session's life stops everything and lets the extensions and their host go, once: a
/// second end changes nothing.
pub proof fn law_a_session_ends_once(
    session: &mut AgentSession,
    again: &mut AgentSession,
    token: CancelToken,
    done: (),
    done_again: (),
)
    requires
        call_ensures(AgentSession::dispose, (session,), done),
        old(again)@ == final(session)@,
        call_ensures(AgentSession::dispose, (again,), done_again),
    ensures
        final(again)@ == final(session)@,
        final(session)@.lifecycle.disposed,
        old(session)@.lifecycle.disposed ==> final(session)@ == old(session)@,
        !old(session)@.lifecycle.disposed ==> {
            let s = old(session)@;
            let t = final(session)@;
            &&& t.slots.retry is None && t.slots.compaction is None && t.slots.auto_compaction
                is None && t.slots.branch_summary is None && t.slots.bash is None
            &&& s.slots.retry == Some(token) || s.slots.compaction == Some(token)
                || s.slots.auto_compaction == Some(token) || s.slots.branch_summary == Some(token)
                || s.slots.bash == Some(token) ==> t.outbox.contains(Effect::Cancel(token))
            &&& !t.lifecycle.host_attached
            &&& s.lifecycle.host_attached ==> t.outbox.last() == Effect::ShutDownHost
                && t.outbox.drop_last().last() == Effect::InvalidateRunner
            &&& !s.lifecycle.host_attached ==> t.outbox.last() == Effect::InvalidateRunner
            &&& exists|i: int|
                0 <= i && i + 2 < t.outbox.len() && #[trigger] t.outbox[i] == Effect::AbortAgent
                    && t.outbox[i + 1] == Effect::AwaitAgentIdle && t.outbox[i + 2]
                    == Effect::InvalidateRunner
            &&& t.agent == s.agent
        },
{
    law_abort_stops_everything(old(session)@, token);
}

/// What is told of a session is what it holds.
pub proof fn law_a_session_tells_what_it_holds(
    session: &AgentSession,
    model: Model,
    level: ModelThinkingLevel,
    streams: bool,
    idle: bool,
    compacts: bool,
    retries: bool,
    shell: bool,
    summarizes: bool,
)
    requires
        call_ensures(AgentSession::model, (session,), model),
        call_ensures(AgentSession::thinking_level, (session,), level),
        call_ensures(AgentSession::is_streaming, (session,), streams),
        call_ensures(AgentSession::is_idle, (session,), idle),
        call_ensures(AgentSession::is_compacting, (session,), compacts),
        call_ensures(AgentSession::is_retrying, (session,), retries),
        call_ensures(AgentSession::is_bash_running, (session,), shell),
        call_ensures(AgentSession::is_summarizing, (session,), summarizes),
    ensures
        model == session.agent.model,
        level == session.agent.thinking_level,
        streams == session.agent.is_streaming,
        idle <==> !streams && !session.lifecycle.is_agent_run_active,
        compacts <==> session.slots.compaction is Some || session.slots.auto_compaction is Some,
        retries <==> session.slots.retry is Some,
        shell <==> session.slots.bash is Some,
        summarizes <==> session.slots.branch_summary is Some,
{
}

/// The texts and messages that are told of a session are those that it holds, in their order.
pub proof fn law_a_session_lists_what_it_holds(
    session: &AgentSession,
    models: Vec<ScopedModel>,
    waiting: (Vec<String>, Vec<String>),
    count: usize,
    tools: Vec<String>,
    messages: Vec<AgentMessage>,
    message_count: usize,
    queued: bool,
    barriers: Vec<u64>,
)
    requires
        call_ensures(AgentSession::scoped_models, (session,), models),
        call_ensures(AgentSession::pending_messages, (session,), waiting),
        call_ensures(AgentSession::pending_message_count, (session,), count),
        call_ensures(AgentSession::active_tool_names, (session,), tools),
        call_ensures(AgentSession::messages, (session,), messages),
        call_ensures(AgentSession::message_count, (session,), message_count),
        call_ensures(AgentSession::has_queued_messages, (session,), queued),
        call_ensures(AgentSession::await_event_backpressure, (session,), barriers),
    ensures
        models@ == session.scoped_models@,
        waiting.0@ == session.steering_messages@,
        waiting.1@ == session.follow_up_messages@,
        waiting.0@.len() + waiting.1@.len() <= usize::MAX ==> count == waiting.0@.len()
            + waiting.1@.len(),
        tools@ == session.active_tool_names@,
        messages@ == session.agent.transcript@,
        message_count == messages@.len(),
        queued <==> session.agent.steering_queue@.len() > 0 || session.agent.follow_up_queue@.len()
            > 0,
        barriers@ == session.backpressure_hooks@,
{
}

/// A setting is read as it was set, and setting it changes the session and its settings and nothing
/// else.
pub proof fn law_settings_read_back(
    a: &mut AgentSession,
    b: &mut AgentSession,
    c: &mut AgentSession,
    d: &mut AgentSession,
    seen_a: &AgentSession,
    seen_b: &AgentSession,
    seen_c: &AgentSession,
    seen_d: &AgentSession,
    on: bool,
    mode: QueueMode,
    retry: bool,
    compaction: bool,
    steering: QueueMode,
    follow_up: QueueMode,
    done: (),
)
    requires
        call_ensures(AgentSession::set_auto_retry_enabled, (a, on), done),
        seen_a@ == final(a)@,
        call_ensures(AgentSession::auto_retry_enabled, (seen_a,), retry),
        call_ensures(AgentSession::set_auto_compaction_enabled, (b, on), done),
        seen_b@ == final(b)@,
        call_ensures(AgentSession::auto_compaction_enabled, (seen_b,), compaction),
        call_ensures(AgentSession::set_steering_mode, (c, mode), done),
        seen_c@ == final(c)@,
        call_ensures(AgentSession::steering_mode, (seen_c,), steering),
        call_ensures(AgentSession::set_follow_up_mode, (d, mode), done),
        seen_d@ == final(d)@,
        call_ensures(AgentSession::follow_up_mode, (seen_d,), follow_up),
    ensures
        retry == on,
        compaction == on,
        steering == mode,
        follow_up == mode,
        final(a)@.settings.retry.enabled == on,
        final(a)@.settings.retry.max_retries == old(a)@.settings.retry.max_retries,
        final(a)@.lifecycle.auto_compaction_enabled == old(a)@.lifecycle.auto_compaction_enabled,
        final(a)@.settings.compaction == old(a)@.settings.compaction,
        final(b)@.settings.compaction.enabled == on,
        final(b)@.lifecycle.auto_retry_enabled == old(b)@.lifecycle.auto_retry_enabled,
        final(b)@.settings.retry == old(b)@.settings.retry,
        final(c)@.agent.follow_up_mode == old(c)@.agent.follow_up_mode,
        final(d)@.agent.steering_mode == old(d)@.agent.steering_mode,
        final(a)@.outbox == old(a)@.outbox && final(b)@.outbox == old(b)@.outbox && final(c)@.outbox
            == old(c)@.outbox && final(d)@.outbox == old(d)@.outbox,
{
}

/// A new listener has an id that none had before and is heard after the others; taking it off again
/// leaves the others as they were.
pub proof fn law_a_listener_comes_and_goes(
    session: &mut AgentSession,
    later: &mut AgentSession,
    id: u64,
    done: (),
)
    requires
        call_ensures(AgentSession::subscribe, (session,), id),
        old(session)@.listeners_well_formed(),
        old(later)@ == final(session)@,
        call_ensures(AgentSession::unsubscribe, (later, id), done),
    ensures
        !old(session)@.listeners.contains(id),
        final(session)@.listeners == old(session)@.listeners.push(id),
        id < u64::MAX ==> final(session)@.counters.next_listener_id == id + 1,
        final(later)@.listeners == old(session)@.listeners,
        final(later)@.counters.next_listener_id == final(session)@.counters.next_listener_id,
        final(session)@.barriers == old(session)@.barriers,
        final(session)@.outbox == old(session)@.outbox,
        final(later)@.outbox == old(later)@.outbox,
{
    law_unsubscribe_undoes_subscribe(old(session)@);
    let ids = old(session)@.listeners;
    if ids.contains(id) {
        let k = choose|k: int| 0 <= k < ids.len() && ids[k] == id;
        assert(ids[k] < id);
    }
}

/// Taking a listener off leaves every other one, in its order, and no listener of that id.
pub proof fn law_other_listeners_stay(session: &mut AgentSession, id: u64, other: u64, done: ())
    requires
        call_ensures(AgentSession::unsubscribe, (session, id), done),
    ensures
        !final(session)@.listeners.contains(id),
        other != id ==> (final(session)@.listeners.contains(other) <==> old(session)@.listeners.contains(other)),
        !old(session)@.listeners.contains(id) ==> final(session)@ == old(session)@,
{
    lemma_without_id(old(session)@.listeners, id, other);
    lemma_without_id(old(session)@.listeners, id, id);
    if !old(session)@.listeners.contains(id) {
        lemma_without_new_id(old(session)@.listeners, id);
    }
}

proof fn lemma_without_id(ids: Seq<u64>, id: u64, other: u64)
    ensures
        !without_id(ids, id).contains(id),
        other != id ==> (without_id(ids, id).contains(other) <==> ids.contains(other)),
    decreases ids.len(),
{
    if ids.len() > 0 {
        let rest = ids.drop_last();
        lemma_without_id(rest, id, other);
        let kept = without_id(rest, id);
        let last = ids.last();
        assert(ids =~= rest.push(last));
        assert(ids.contains(other) <==> rest.contains(other) || other == last) by {
            if rest.contains(other) {
                let k = choose|k: int| 0 <= k < rest.len() && rest[k] == other;
                assert(ids[k] == other);
            }
            if other == last {
                assert(ids[ids.len() - 1] == other);
            }
            if ids.contains(other) && other != last {
                let k = choose|k: int| 0 <= k < ids.len() && ids[k] == other;
                assert(rest[k] == other);
            }
        }
        if last != id {
            let more = kept.push(last);
            assert(more.contains(other) <==> kept.contains(other) || other == last) by {
                if kept.contains(other) {
                    let k = choose|k: int| 0 <= k < kept.len() && kept[k] == other;
                    assert(more[k] == other);
                }
                if other == last {
                    assert(more[kept.len() as int] == other);
                }
                if more.contains(other) && other != last {
                    let k = choose|k: int| 0 <= k < more.len() && more[k] == other;
                    assert(kept[k] == other);
                }
            }
            if more.contains(id) {
                let k = choose|k: int| 0 <= k < more.len() && more[k] == id;
                assert(kept[k] == id);
            }
        }
    }
}

/// A barrier has an id that none had before, and taking it off leaves the others as they were.
pub proof fn law_a_barrier_comes_and_goes(
    session: &mut AgentSession,
    later: &mut AgentSession,
    id: u64,
    done: (),
)
    requires
        call_ensures(AgentSession::register_event_backpressure_hook, (session,), id),
        old(session)@.listeners_well_formed(),
        old(later)@ == final(session)@,
        call_ensures(AgentSession::unregister_event_backpressure_hook, (later, id), done),
    ensures
        !old(session)@.barriers.contains(id),
        final(session)@.barriers == old(session)@.barriers.push(id),
        id < u64::MAX ==> final(session)@.counters.next_backpressure_hook_id == id + 1,
        final(later)@.barriers == old(session)@.barriers,
        final(session)@.listeners == old(session)@.listeners,
        final(later)@.listeners == old(later)@.listeners,
        final(later)@.outbox == old(session)@.outbox,
{
    let ids = old(session)@.barriers;
    if ids.contains(id) {
        let k = choose|k: int| 0 <= k < ids.len() && ids[k] == id;
        assert(ids[k] < id);
    }
    lemma_without_new_id(ids, id);
}

/// Of several storage failures the first is kept, and taking it leaves none.
pub proof fn law_the_first_failure_is_kept(
    one: &mut AgentSession,
    two: &mut AgentSession,
    end: &mut AgentSession,
    first: SessionError,
    second: SessionError,
    taken: Option<SessionError>,
    done: (),
)
    requires
        call_ensures(AgentSession::record_session_error, (one, first), done),
        old(two)@ == final(one)@,
        call_ensures(AgentSession::record_session_error, (two, second), done),
        old(end)@ == final(two)@,
        call_ensures(AgentSession::take_session_error, (end,), taken),
    ensures
        old(one)@.error is None ==> taken == Some(first),
        old(one)@.error is Some ==> taken == old(one)@.error,
        final(end)@.error is None,
        final(end)@.agent == old(one)@.agent,
        final(end)@.outbox == old(one)@.outbox,
{
}

/// An event that is told goes to the end of the outbox, awaited where it was asked for, and nothing
/// else changes.
pub proof fn law_events_are_told_in_order(
    a: &mut AgentSession,
    b: &mut AgentSession,
    event: AgentSessionEvent,
    done: (),
)
    requires
        call_ensures(AgentSession::emit_public, (a, event), done),
        call_ensures(AgentSession::emit_public_awaited, (b, event), done),
    ensures
        final(a)@ == (SessionModel {
            outbox: old(a)@.outbox.push(Effect::Emit(event)),
            ..old(a)@
        }),
        final(b)@ == (SessionModel {
            outbox: old(b)@.outbox.push(Effect::EmitAwaited(event)),
            ..old(b)@
        }),
{
}

/// A text that is added waits behind the others of its kind, and what waits now is announced: all
/// steering texts and all follow-up texts.
pub proof fn law_an_added_text_waits(
    a: &mut AgentSession,
    b: &mut AgentSession,
    text: String,
    done: (),
)
    requires
        call_ensures(AgentSession::mirror_steering_push, (a, text), done),
        call_ensures(AgentSession::mirror_follow_up_push, (b, text), done),
    ensures
        final(a)@.steering == old(a)@.steering.push(text),
        final(a)@.follow_up == old(a)@.follow_up,
        final(a)@.agent == old(a)@.agent,
        final(a)@.outbox.len() == old(a)@.outbox.len() + 1,
        final(a)@.outbox.last() matches Effect::Emit(
            AgentSessionEvent::QueueUpdate { steering, follow_up },
        ) && steering@ == final(a)@.steering && follow_up@ == final(a)@.follow_up,
        final(b)@.follow_up == old(b)@.follow_up.push(text),
        final(b)@.steering == old(b)@.steering,
        final(b)@.agent == old(b)@.agent,
        final(b)@.outbox.len() == old(b)@.outbox.len() + 1,
        final(b)@.outbox.last() matches Effect::Emit(
            AgentSessionEvent::QueueUpdate { steering, follow_up },
        ) && steering@ == final(b)@.steering && follow_up@ == final(b)@.follow_up,
{
}

/// Nothing waits after the queue was cleared: no text, and no message of the agent. This is
/// announced, and the transcript stays.
pub proof fn law_a_cleared_queue_is_empty(session: &mut AgentSession, done: ())
    requires
        call_ensures(AgentSession::clear_queue, (session,), done),
    ensures
        final(session)@.steering.len() == 0,
        final(session)@.follow_up.len() == 0,
        final(session)@.agent.steering_queue.len() == 0,
        final(session)@.agent.follow_up_queue.len() == 0,
        final(session)@.agent.transcript == old(session)@.agent.transcript,
        final(session)@.pending_next_turn == old(session)@.pending_next_turn,
        final(session)@.outbox.len() == old(session)@.outbox.len() + 1,
        final(session)@.outbox.last() matches Effect::Emit(
            AgentSessionEvent::QueueUpdate { steering, follow_up },
        ) && steering@.len() == 0 && follow_up@.len() == 0,
{
}

/// A run that was started is active until it is settled; that is told once, and then whoever waits is
/// woken. Settling again tells nothing.
pub proof fn law_a_run_is_settled_once(
    start: &mut AgentSession,
    end: &mut AgentSession,
    again: &mut AgentSession,
    done: (),
)
    requires
        call_ensures(AgentSession::mark_agent_run_active, (start,), done),
        old(end)@ == final(start)@,
        call_ensures(AgentSession::emit_agent_settled, (end,), done),
        old(again)@ == final(end)@,
        call_ensures(AgentSession::emit_agent_settled, (again,), done),
    ensures
        final(start)@.lifecycle.is_agent_run_active,
        final(start)@.outbox == old(start)@.outbox,
        !final(end)@.lifecycle.is_agent_run_active,
        final(end)@.outbox == old(start)@.outbox.push(
            Effect::Emit(AgentSessionEvent::AgentSettled),
        ).push(Effect::WakeIdle),
        final(again)@ == final(end)@,
        final(end)@.agent == old(start)@.agent,
{
}

/// The answer at the end of the transcript is taken off it, and nothing else is; a transcript that
/// ends otherwise stays.
pub proof fn law_only_a_last_answer_is_taken_off(session: &mut AgentSession, popped: bool)
    requires
        call_ensures(AgentSession::pop_last_if_assistant, (session,), popped),
    ensures
        ({
            let before = old(session)@.agent.transcript;
            let after = final(session)@.agent.transcript;
            let answer = before.len() > 0 && (before.last() matches AgentMessage::Llm(
                Message::Assistant(_),
            ));
            &&& popped <==> answer
            &&& popped ==> after == before.drop_last()
            &&& !popped ==> after == before
        }),
        final(session)@.outbox == old(session)@.outbox,
        final(session)@.agent.model == old(session)@.agent.model,
{
}

/// The last answer of the transcript is the one that no other follows; there is none exactly where
/// the transcript holds no answer.
pub proof fn law_the_last_answer_is_found(
    session: &AgentSession,
    i: int,
    a: AssistantMessage,
    last: Option<AssistantMessage>,
)
    requires
        call_ensures(AgentSession::last_assistant, (session,), last),
    ensures
        ({
            let t = session@.agent.transcript;
            &&& (0 <= i < t.len() && t[i] == AgentMessage::Llm(Message::Assistant(a)) && forall|
                k: int,
            |
                i < k < t.len() ==> !(#[trigger] t[k] matches AgentMessage::Llm(
                    Message::Assistant(_),
                ))) ==> last == Some(a)
            &&& (forall|k: int|
                0 <= k < t.len() ==> !(#[trigger] t[k] matches AgentMessage::Llm(
                    Message::Assistant(_),
                ))) ==> last is None
        }),
{
    let t = session@.agent.transcript;
    if 0 <= i < t.len() && t[i] == AgentMessage::Llm(Message::Assistant(a)) && forall|k: int|
        i < k < t.len() ==> !(#[trigger] t[k] matches AgentMessage::Llm(Message::Assistant(_))) {
        lemma_last_assistant_at(t, i, a);
    }
    if forall|k: int|
        0 <= k < t.len() ==> !(#[trigger] t[k] matches AgentMessage::Llm(Message::Assistant(_))) {
        lemma_no_assistant(t);
    }
}

proof fn lemma_last_assistant_at(t: Seq<AgentMessage>, i: int, a: AssistantMessage)
    requires
        0 <= i < t.len(),
        t[i] == AgentMessage::Llm(Message::Assistant(a)),
        forall|k: int|
            i < k < t.len() ==> !(#[trigger] t[k] matches AgentMessage::Llm(Message::Assistant(_))),
    ensures
        last_assistant_in(t) == Some(a),
    decreases t.len(),
{
    if i < t.len() - 1 {
        assert(!(t[t.len() - 1] matches AgentMessage::Llm(Message::Assistant(_))));
        lemma_last_assistant_at(t.drop_last(), i, a);
    }
}

proof fn lemma_no_assistant(t: Seq<AgentMessage>)
    requires
        forall|k: int|
            0 <= k < t.len() ==> !(#[trigger] t[k] matches AgentMessage::Llm(Message::Assistant(_))),
    ensures
        last_assistant_in(t) is None,
    decreases t.len(),
{
    if t.len() > 0 {
        assert(!(t[t.len() - 1] matches AgentMessage::Llm(Message::Assistant(_))));
        lemma_no_assistant(t.drop_last());
    }
}

/// One more answer counts once, one more message of another role not at all.
pub proof fn law_answers_are_counted(
    session: &AgentSession,
    more: &AgentSession,
    count: usize,
    more_count: usize,
)
    requires
        call_ensures(AgentSession::assistant_count, (session,), count),
        call_ensures(AgentSession::assistant_count, (more,), more_count),
        more@.agent.transcript.len() == session@.agent.transcript.len() + 1,
        more@.agent.transcript.drop_last() == session@.agent.transcript,
    ensures
        more_count == count + match more@.agent.transcript.last() {
            AgentMessage::Llm(Message::Assistant(_)) => 1int,
            AgentMessage::Llm(_) => 0,
            AgentMessage::Custom(c) => if c.role@ == "assistant"@ {
                1
            } else {
                0
            },
        },
        session@.agent.transcript.len() == 0 ==> count == 0,
{
    reveal_strlit("user");
    reveal_strlit("system");
    reveal_strlit("toolResult");
    reveal_strlit("assistant");
    assert("user"@[0] == 'u' && "assistant"@[0] == 'a' && "toolResult"@[0] == 't' && "system"@[0]
        == 's');
}

/// The model sees a message unless it is a custom one that is marked to be left out: of one more
/// message, the one more is seen exactly then, behind the others.
pub proof fn law_marked_messages_are_left_out(
    messages: &mut Vec<AgentMessage>,
    more: &mut Vec<AgentMessage>,
    done: (),
)
    requires
        call_ensures(retain_context_visible_messages, (messages,), done),
        call_ensures(retain_context_visible_messages, (more,), done),
        old(more)@.len() == old(messages)@.len() + 1,
        old(more)@.drop_last() == old(messages)@,
    ensures
        old(messages)@.len() == 0 ==> final(messages)@.len() == 0,
        ({
            let last = old(more)@.last();
            let marked = last matches AgentMessage::Custom(c) && json::member(
                c.payload@,
                "excludeFromContext"@,
            ) == Some(Json::Bool(true));
            &&& marked ==> final(more)@ == final(messages)@
            &&& !marked ==> final(more)@ == final(messages)@.push(last)
        }),
{
    reveal(Seq::filter);
}

/// What the model sees of a session is its transcript without the messages that are marked.
pub proof fn law_the_model_sees_the_transcript(
    session: &AgentSession,
    transcript: &mut Vec<AgentMessage>,
    context: Vec<AgentMessage>,
    done: (),
)
    requires
        call_ensures(AgentSession::context_messages, (session,), context),
        old(transcript)@ == session@.agent.transcript,
        call_ensures(retain_context_visible_messages, (transcript,), done),
    ensures
        context@ == final(transcript)@,
{
}

/// A session is made where there is an agent or a provider to make one with, and only there.
pub proof fn law_a_session_needs_an_agent(
    config: AgentSessionConfig,
    r: Result<AgentSession, AgentSessionError>,
)
    requires
        call_ensures(AgentSession::new, (config,), r),
    ensures
        r is Ok <==> config.agent is Some || config.provider is Some,
        r matches Err(e) ==> e is MissingAgentOrProvider,
{
}

/// A new session has done nothing: nothing waits, nothing is in progress, nothing is told. It has the
/// settings, the tools, the models and the prompt of its configuration, and retries and compacts by
/// itself as the settings say.
pub proof fn law_a_new_session_has_done_nothing(config: AgentSessionConfig, s: AgentSession)
    requires
        call_ensures(
            AgentSession::new,
            (config,),
            Ok::<AgentSession, AgentSessionError>(s),
        ),
    ensures
        s@.outbox.len() == 0,
        s@.steering.len() == 0 && s@.follow_up.len() == 0,
        s@.pending_next_turn.len() == 0 && s@.pending_custom.len() == 0 && s@.pending_bash.len()
            == 0,
        s@.listeners.len() == 0 && s@.barriers.len() == 0,
        s@.error is None && s@.last_assistant is None,
        s@.slots.retry is None && s@.slots.compaction is None && s@.slots.auto_compaction is None
            && s@.slots.branch_summary is None && s@.slots.bash is None,
        !s@.lifecycle.is_agent_run_active && !s@.lifecycle.disposed
            && !s@.lifecycle.overflow_recovery_attempted,
        s@.lifecycle.auto_retry_enabled == config.settings.retry.enabled,
        s@.lifecycle.auto_compaction_enabled == config.settings.compaction.enabled,
        s@.lifecycle.host_attached == config.host_attached,
        s@.counters.retry_attempt == 0,
        config.settings.retry.max_retries <= u32::MAX ==> s@.counters.max_retries
            == config.settings.retry.max_retries,
        config.settings.retry.max_retries > u32::MAX ==> s@.counters.max_retries == u32::MAX,
        s@.settings == config.settings,
        s@.cwd == config.cwd@,
        s@.scoped_models == config.scoped_models@,
        s@.tools == config.tools@,
        s@.base_prompt == config.system_prompt@,
        s@.prompt_override is None,
        s@.skills == config.skills@ && s@.templates == config.prompt_templates@,
        config.initial_active_tool_names matches Some(names) ==> s@.active_tools == names@,
        config.initial_active_tool_names is None ==> s@.active_tools.len() == 0,
        config.session_start_event is Some ==> s@.pending_start == config.session_start_event,
        config.session_start_event is None ==> (s@.pending_start matches Some(e)
            && e.previous_session_file is None),
        config.agent matches Some(agent) ==> s@.agent == agent@,
        config.agent is None ==> {
            &&& config.model is Some ==> s@.agent.model == config.model->0
            &&& config.model is None ==> s@.agent.model.id@ == "unknown"@
                && s@.agent.model.provider@ == "unknown"@ && s@.agent.model.context_window == 0
                && !s@.agent.model.reasoning
            &&& s@.agent.thinking_level == config.thinking_level
            &&& s@.agent.transcript == config.messages@
            &&& s@.agent.system_prompt == config.system_prompt@
            &&& !s@.agent.is_streaming
            &&& s@.agent.steering_queue.len() == 0 && s@.agent.follow_up_queue.len() == 0
        },
{
}

/// The texts that wait are announced as they are: steering texts first, then follow-ups, each in its
/// order. Nothing else changes.
pub proof fn law_waiting_texts_are_announced(session: &mut AgentSession, i: int, done: ())
    requires
        call_ensures(AgentSession::emit_queue_update, (session,), done),
    ensures
        final(session)@.outbox.len() == old(session)@.outbox.len() + 1,
        final(session)@.outbox.last() matches Effect::Emit(AgentSessionEvent::QueueUpdate {
            steering,
            follow_up,
        }) && steering@.len() == old(session)@.steering.len() && follow_up@.len()
            == old(session)@.follow_up.len() && (0 <= i < steering@.len() ==> steering@[i]@
            == old(session)@.steering[i]@) && (0 <= i < follow_up@.len() ==> follow_up@[i]@
            == old(session)@.follow_up[i]@),
        final(session)@.steering == old(session)@.steering,
        final(session)@.follow_up == old(session)@.follow_up,
        final(session)@.agent == old(session)@.agent,
{
}

/// A configuration for a provider and a model has these and nothing else: no agent, no tools, no
/// messages, no thinking.
pub proof fn law_a_bare_configuration_is_bare(
    provider: String,
    model: Model,
    settings: SessionSettings,
    r: Result<AgentSessionConfig, AgentSessionError>,
)
    requires
        call_ensures(AgentSessionConfig::test_config, (provider, model, settings), r),
    ensures
        r is Ok,
        r->Ok_0.provider == Some(provider),
        r->Ok_0.model == Some(model),
        r->Ok_0.settings == settings,
        r->Ok_0.cwd@ == "."@,
        r->Ok_0.agent is None && r->Ok_0.initial_active_tool_names is None
            && r->Ok_0.session_start_event is None,
        r->Ok_0.scoped_models@.len() == 0 && r->Ok_0.tools@.len() == 0 && r->Ok_0.messages@.len()
            == 0 && r->Ok_0.skills@.len() == 0 && r->Ok_0.prompt_templates@.len() == 0
            && r->Ok_0.system_prompt@.len() == 0,
        r->Ok_0.thinking_level == ModelThinkingLevel::Off,
        !r->Ok_0.host_attached,
{
}

/// A session that has done nothing retries and compacts by itself, runs nothing and is not disposed
/// of.
pub proof fn law_flags_at_first(flags: SessionLifecycle)
    requires
        call_ensures(SessionLifecycle::default, (), flags),
    ensures
        flags.auto_retry_enabled && flags.auto_compaction_enabled,
        !flags.is_agent_run_active && !flags.overflow_recovery_attempted && !flags.disposed,
        !flags.host_attached && !flags.initial_resources_discovered,
        !flags.boundary_abort_requested,
        flags.last_activity_outcome == ActivityOutcome::Completed,
{
}

} // verus!
