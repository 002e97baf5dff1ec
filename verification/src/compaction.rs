//! Compaction of the context: when it runs, its steps, and what comes of it.

use crate::events::{AgentSessionEvent, CompactionReason, SummarizationRetrySource};
use crate::extension_runner::{CancelResult, ExtensionRunnerError};
use crate::messages;
use crate::messages::{
    clone_text, AgentMessage, AssistantMessage, CompactionEntry, CompactionResult, Message,
    SessionEntry, StopReason,
};
use crate::overflow;
use crate::session;
use crate::session::{
    AbortSlots, AgentModel, AgentSession, CancelToken, Effect, ResolvedCompactionSettings,
    SessionLifecycle, SessionModel,
};
use crate::stats;
use crate::text;
use crate::timestamp;
use vstd::prelude::*;
use vstd::string::StringSliceAdditionalSpecFns;

verus! {

/// Why a compaction ended without a summary. The engine's failures carry their text.
#[derive(Debug, PartialEq)]
pub enum CompactionError {
    /// Nothing came after the last compaction.
    AlreadyCompacted(String),
    /// There is too little to summarise.
    NothingToCompact(String),
    /// It was cancelled.
    Cancelled,
    /// The summary could not be made or stored: there is no model runtime, the credentials could
    /// not be had, or the engine or the storage failed.
    SummarizationFailed(String),
    /// The transcript could not be rebuilt.
    MessageConversion(String),
}

impl CompactionError {
    /// The text of the failure.
    pub open spec fn text(self) -> Seq<char> {
        match self {
            CompactionError::AlreadyCompacted(t) => t@,
            CompactionError::NothingToCompact(t) => t@,
            CompactionError::Cancelled => "Compaction cancelled"@,
            CompactionError::SummarizationFailed(t) => t@,
            CompactionError::MessageConversion(t) => t@,
        }
    }

    /// The text of the failure.
    pub fn message(&self) -> (r: String)
        ensures
            r@ == self.text(),
    {
        match self {
            CompactionError::AlreadyCompacted(t) => t.clone(),
            CompactionError::NothingToCompact(t) => t.clone(),
            CompactionError::Cancelled => "Compaction cancelled".to_owned(),
            CompactionError::SummarizationFailed(t) => t.clone(),
            CompactionError::MessageConversion(t) => t.clone(),
        }
    }
}

/// The settings of the compaction engine.
#[derive(Clone, Copy, Debug, PartialEq, Eq, Structural)]
pub struct CompactionSettings {
    pub enabled: bool,
    pub reserve_tokens: u64,
    pub keep_recent_tokens: u64,
}

/// The settings of the compaction engine from the resolved settings.
pub fn settings_to_pure(resolved: ResolvedCompactionSettings) -> (r: CompactionSettings)
    ensures
        r == (CompactionSettings {
            enabled: resolved.enabled,
            reserve_tokens: resolved.reserve_tokens,
            keep_recent_tokens: resolved.keep_recent_tokens,
        }),
{
    CompactionSettings {
        enabled: resolved.enabled,
        reserve_tokens: resolved.reserve_tokens,
        keep_recent_tokens: resolved.keep_recent_tokens,
    }
}

/// How often a summary request is retried at most.
pub const SUMMARIZATION_MAX_RETRIES_CEILING: u32 = 10;

/// Limits the retries of a summary request.
pub fn clamp_summarization_max_retries(max_retries: u64) -> (r: u32)
    ensures
        r == if max_retries <= SUMMARIZATION_MAX_RETRIES_CEILING {
            max_retries as u32
        } else {
            SUMMARIZATION_MAX_RETRIES_CEILING
        },
{
    if max_retries <= SUMMARIZATION_MAX_RETRIES_CEILING as u64 {
        max_retries as u32
    } else {
        SUMMARIZATION_MAX_RETRIES_CEILING
    }
}

/// How a summary request is retried.
#[derive(Clone, Copy, Debug, PartialEq, Eq, Structural)]
pub struct SummarizationRetryPolicy {
    pub enabled: bool,
    pub max_retries: u32,
    pub base_delay_ms: u64,
}

/// What happens while a summary request is retried.
#[derive(Debug, PartialEq)]
pub enum SummarizationRetryNotice {
    /// Another request will follow after a wait.
    Scheduled { attempt: u32, max_attempts: u32, delay_ms: u64, error_message: String },
    /// Another request starts.
    AttemptStart,
    /// There will be no other request.
    Finished,
}

/// The event of a notice.
pub open spec fn retry_notice_event(
    notice: SummarizationRetryNotice,
    source: SummarizationRetrySource,
) -> AgentSessionEvent {
    match notice {
        SummarizationRetryNotice::Scheduled { attempt, max_attempts, delay_ms, error_message } =>
            AgentSessionEvent::SummarizationRetryScheduled {
            attempt,
            max_attempts,
            delay_ms,
            error_message,
        },
        SummarizationRetryNotice::AttemptStart =>
            AgentSessionEvent::SummarizationRetryAttemptStart { source },
        SummarizationRetryNotice::Finished => AgentSessionEvent::SummarizationRetryFinished,
    }
}

/// The handle of a stream of summaries in place of the model runtime's.
#[derive(Debug, PartialEq)]
pub struct CompactionStreamHandle {
    /// The handle of the stream function.
    pub stream_fn: u64,
    /// A key that was resolved before.
    pub api_key: Option<String>,
}

impl CompactionStreamHandle {
    /// A handle without a key.
    pub fn new(stream_fn: u64) -> (r: Self)
        ensures
            r.stream_fn == stream_fn,
            r.api_key is None,
    {
        CompactionStreamHandle { stream_fn, api_key: None }
    }
}

/// The credentials that the model runtime resolved for a model.
#[derive(Debug, PartialEq)]
pub struct SummarizationAuth {
    pub api_key: Option<String>,
    /// Headers of the request, in the order of their names; one without a value is taken out.
    pub headers: Option<Vec<(String, Option<String>)>>,
    /// Environment variables of the provider, in the order of their names.
    pub env: Option<Vec<(String, String)>>,
}

/// Where a summary comes from.
#[derive(Debug, PartialEq)]
pub enum CompactionInputs {
    /// From the model runtime, with the credentials that it resolved.
    Runtime(SummarizationAuth),
    /// From a stream of its own.
    Override { stream_fn: u64, api_key: Option<String> },
}

/// `r` is the failure of a summary with this text.
pub open spec fn failed_with(r: Result<CompactionInputs, CompactionError>, text: Seq<char>) -> bool {
    r matches Err(CompactionError::SummarizationFailed(t)) && t@ == text
}

/// What the model runtime resolved: nothing at all where it has no credentials for the model.
pub open spec fn resolved_auth(auth: Option<SummarizationAuth>) -> SummarizationAuth {
    match auth {
        Some(a) => a,
        None => SummarizationAuth { api_key: None, headers: None, env: None },
    }
}

/// The credentials for an operation: without a runtime, and where the credentials cannot be had, the
/// operation fails.
pub fn resolve_summarization_inputs(
    operation: &str,
    runtime: Option<Result<Option<SummarizationAuth>, String>>,
) -> (r: Result<CompactionInputs, CompactionError>)
    ensures
        match runtime {
            None => failed_with(r, "No model runtime configured for "@ + operation@),
            Some(Err(error)) => failed_with(r, "auth resolution failed: "@ + error@),
            Some(Ok(auth)) => r == Ok::<CompactionInputs, CompactionError>(
                CompactionInputs::Runtime(resolved_auth(auth)),
            ),
        },
{
    match runtime {
        None => Err(
            CompactionError::SummarizationFailed(
                text::concat2("No model runtime configured for ", operation),
            ),
        ),
        Some(Err(error)) => Err(
            CompactionError::SummarizationFailed(
                text::concat2("auth resolution failed: ", error.as_str()),
            ),
        ),
        Some(Ok(Some(auth))) => Ok(CompactionInputs::Runtime(auth)),
        Some(Ok(None)) => Ok(
            CompactionInputs::Runtime(
                SummarizationAuth { api_key: None, headers: None, env: None },
            ),
        ),
    }
}

/// Where the summary of a compaction comes from: the model runtime where there is one, else a stream
/// of its own, else nowhere.
pub fn resolve_compaction_inputs(
    runtime: Option<Result<Option<SummarizationAuth>, String>>,
    stream_override: Option<&CompactionStreamHandle>,
) -> (r: Result<CompactionInputs, CompactionError>)
    ensures
        match (runtime, stream_override) {
            (Some(Ok(auth)), _) => r == Ok::<CompactionInputs, CompactionError>(
                CompactionInputs::Runtime(resolved_auth(auth)),
            ),
            (Some(Err(error)), _) => failed_with(r, "auth resolution failed: "@ + error@),
            (None, Some(handle)) => r == Ok::<CompactionInputs, CompactionError>(
                CompactionInputs::Override {
                    stream_fn: handle.stream_fn,
                    api_key: handle.api_key,
                },
            ),
            (None, None) => failed_with(r, "No model runtime configured for "@ + "compaction"@),
        },
{
    if runtime.is_some() {
        return resolve_summarization_inputs("compaction", runtime);
    }
    match stream_override {
        Some(handle) => Ok(
            CompactionInputs::Override {
                stream_fn: handle.stream_fn,
                api_key: clone_text(&handle.api_key),
            },
        ),
        None => resolve_summarization_inputs("compaction", None),
    }
}

// ---------------------------------------------------------------------------
// When a compaction runs
// ---------------------------------------------------------------------------

/// An estimate of the context: its tokens, and the message whose usage it rests on, counted among
/// the messages that the model sees.
#[derive(Clone, Copy, Debug, PartialEq, Eq, Structural)]
pub struct ContextEstimate {
    pub tokens: u64,
    pub last_usage_index: Option<usize>,
}

/// What a look at an answer says of compaction.
#[derive(Clone, Copy, Debug, PartialEq, Eq, Structural)]
pub enum CompactionCheck {
    /// None is due.
    No,
    /// One is due.
    Run { reason: CompactionReason, will_retry: bool },
    /// One is due where the threshold is crossed with these tokens.
    Threshold { tokens: u64 },
}

/// What is the matter with an answer.
pub enum CheckKind {
    /// Automatic compaction is off.
    Off,
    /// The answer is from before the last compaction.
    Stale,
    /// The answer is good, but its context was too long.
    Silent,
    /// The context was too long again after a recovery.
    Exhausted,
    /// The context was too long.
    Recover,
    /// Nothing but perhaps the threshold.
    Ordinary,
}

/// The time of the last compaction in milliseconds, 0 where there is none or it cannot be read.
pub open spec fn boundary_of(latest: Option<CompactionEntry>) -> int {
    match latest {
        Some(entry) => match timestamp::timestamp_millis(vstd::utf8::encode_utf8(entry.timestamp@)) {
            Some(millis) => millis,
            None => 0,
        },
        None => 0,
    }
}

/// An answer from before a compaction says nothing of the context after it.
pub open spec fn is_stale(m: AssistantMessage, boundary: int) -> bool {
    boundary > 0 && m.timestamp <= boundary
}

/// What is the matter with an answer, given whether it shows that the context was too long. Such an
/// answer counts where the selected model gave it; one of another model is ordinary.
pub open spec fn check_kind(
    s: SessionModel,
    m: AssistantMessage,
    overflow: bool,
    boundary: int,
) -> CheckKind {
    if !s.lifecycle.auto_compaction_enabled {
        CheckKind::Off
    } else if is_stale(m, boundary) {
        CheckKind::Stale
    } else if overflow::from_model(s.agent.model, m) && overflow {
        if m.stop_reason == StopReason::Stop {
            CheckKind::Silent
        } else if s.lifecycle.overflow_recovery_attempted {
            CheckKind::Exhausted
        } else {
            CheckKind::Recover
        }
    } else {
        CheckKind::Ordinary
    }
}

/// The tokens that the threshold is compared with: those that the answer reports, as a total or in
/// parts; where it reports none or failed, the estimate, unless that rests on no answer or on one
/// from before the last compaction. `context` is what the model sees.
pub open spec fn threshold_tokens(
    context: Seq<AgentMessage>,
    m: AssistantMessage,
    boundary: int,
    estimate: ContextEstimate,
) -> u64 {
    if m.stop_reason != StopReason::Error && stats::context_tokens(m.usage) > 0 {
        stats::context_tokens(m.usage) as u64
    } else {
        match estimate.last_usage_index {
            None => 0,
            Some(i) => if i < context.len() && (context[i as int] matches AgentMessage::Llm(
                Message::Assistant(a),
            ) && is_stale(a, boundary)) {
                0
            } else {
                estimate.tokens
            },
        }
    }
}

/// `event` tells the end of a compaction.
pub open spec fn is_compaction_end(
    event: AgentSessionEvent,
    reason: CompactionReason,
    result: Option<CompactionResult>,
    aborted: bool,
    will_retry: bool,
    error: Option<Seq<char>>,
) -> bool {
    event matches AgentSessionEvent::CompactionEnd {
        reason: r,
        result: c,
        aborted: a,
        will_retry: w,
        error_message: e,
    } && r == reason && c == result && a == aborted && w == will_retry && session::text_view(e)
        == error
}

/// `t` is `s` with the awaited end of a compaction at the end of its outbox.
pub open spec fn with_compaction_end(
    s: SessionModel,
    t: SessionModel,
    reason: CompactionReason,
    result: Option<CompactionResult>,
    aborted: bool,
    will_retry: bool,
    error: Option<Seq<char>>,
) -> bool {
    exists|event: AgentSessionEvent| #[trigger]
        is_compaction_end(event, reason, result, aborted, will_retry, error) && t == s.put(
            Effect::EmitAwaited(event),
        )
}

/// A session that has begun to recover from a context that was too long: it will not do so again,
/// and the failed answer is no longer in the transcript.
pub open spec fn recovering(s: SessionModel) -> SessionModel {
    SessionModel {
        lifecycle: SessionLifecycle { overflow_recovery_attempted: true, ..s.lifecycle },
        agent: session::popped_assistant(s.agent),
        ..s
    }
}

/// After one recovery a further answer that shows the same is the end of it: no compaction is
/// started for it.
pub proof fn law_one_recovery(
    s: SessionModel,
    first: AssistantMessage,
    boundary: int,
    second: AssistantMessage,
    later_boundary: int,
)
    requires
        check_kind(s, first, true, boundary) == CheckKind::Recover,
        overflow::from_model(s.agent.model, second),
        second.stop_reason != StopReason::Stop,
        !is_stale(second, later_boundary),
    ensures
        check_kind(recovering(s), second, true, later_boundary) == CheckKind::Exhausted,
{
}

impl AgentSession {
    /// Tells the end of a compaction, awaited.
    fn emit_compaction_end(
        &mut self,
        reason: CompactionReason,
        result: Option<CompactionResult>,
        aborted: bool,
        will_retry: bool,
        error_message: Option<String>,
    )
        ensures
            with_compaction_end(
                old(self)@,
                final(self)@,
                reason,
                result,
                aborted,
                will_retry,
                session::text_view(error_message),
            ),
    {
        let event = AgentSessionEvent::CompactionEnd {
            reason,
            result,
            aborted,
            will_retry,
            error_message,
        };
        assert(is_compaction_end(
            event,
            reason,
            result,
            aborted,
            will_retry,
            session::text_view(error_message),
        ));
        self.emit_public_awaited(event);
    }

    /// The tokens that the threshold is compared with.
    pub fn threshold_context_tokens(
        &self,
        message: &AssistantMessage,
        boundary: i64,
        estimate: ContextEstimate,
    ) -> (r: u64)
        ensures
            r == threshold_tokens(
                session::context_visible(self@.agent.transcript),
                *message,
                boundary as int,
                estimate,
            ),
    {
        let direct: u64 = stats::calculate_context_tokens(&message.usage);
        if message.stop_reason != StopReason::Error && direct > 0 {
            return direct;
        }
        match estimate.last_usage_index {
            None => 0,
            Some(i) => {
                let context = self.context_messages();
                if i < context.len() {
                    if let AgentMessage::Llm(Message::Assistant(a)) = &context[i] {
                        if boundary > 0 && a.timestamp <= boundary {
                            return 0;
                        }
                    }
                }
                estimate.tokens
            },
        }
    }

    /// Decides on compaction after an answer, given whether it shows that the context was too long.
    pub fn compaction_decision(
        &mut self,
        message: &AssistantMessage,
        overflow: bool,
        boundary: i64,
        estimate: ContextEstimate,
    ) -> (r: CompactionCheck)
        ensures
            match check_kind(old(self)@, *message, overflow, boundary as int) {
                CheckKind::Off | CheckKind::Stale => r == CompactionCheck::No && final(self)@
                    == old(self)@,
                CheckKind::Silent => r == (CompactionCheck::Run {
                    reason: CompactionReason::Overflow,
                    will_retry: false,
                }) && final(self)@ == old(self)@,
                CheckKind::Exhausted => r == CompactionCheck::No && with_compaction_end(
                    old(self)@,
                    final(self)@,
                    CompactionReason::Overflow,
                    None,
                    false,
                    false,
                    Some(
                        "Context overflow recovery failed after one compact-and-retry attempt"@,
                    ),
                ),
                CheckKind::Recover => r == (CompactionCheck::Run {
                    reason: CompactionReason::Overflow,
                    will_retry: true,
                }) && final(self)@ == recovering(old(self)@),
                CheckKind::Ordinary => r == (CompactionCheck::Threshold {
                    tokens: threshold_tokens(
                        session::context_visible(old(self)@.agent.transcript),
                        *message,
                        boundary as int,
                        estimate,
                    ),
                }) && final(self)@ == old(self)@,
            },
    {
        if !self.lifecycle.auto_compaction_enabled {
            return CompactionCheck::No;
        }
        if boundary > 0 && message.timestamp <= boundary {
            return CompactionCheck::No;
        }
        if overflow && overflow::same_model(&self.agent.model, message) {
            if message.stop_reason == StopReason::Stop {
                return CompactionCheck::Run {
                    reason: CompactionReason::Overflow,
                    will_retry: false,
                };
            }
            if self.lifecycle.overflow_recovery_attempted {
                self.emit_compaction_end(
                    CompactionReason::Overflow,
                    None,
                    false,
                    false,
                    Some(
                        "Context overflow recovery failed after one compact-and-retry attempt".to_owned(),
                    ),
                );
                return CompactionCheck::No;
            }
            self.lifecycle.overflow_recovery_attempted = true;
            self.pop_last_if_assistant();
            return CompactionCheck::Run { reason: CompactionReason::Overflow, will_retry: true };
        }
        CompactionCheck::Threshold {
            tokens: self.threshold_context_tokens(message, boundary, estimate),
        }
    }

    /// Decides on compaction after an answer, or before a prompt on the last answer.
    pub fn check_compaction(
        &mut self,
        message: &AssistantMessage,
        latest: Option<&CompactionEntry>,
        estimate: ContextEstimate,
    ) -> (r: CompactionCheck)
        ensures
            match check_kind(
                old(self)@,
                *message,
                overflow::context_overflow(*message, old(self)@.agent.model.context_window),
                boundary_of(
                    match latest {
                        Some(entry) => Some(*entry),
                        None => None,
                    },
                ),
            ) {
                CheckKind::Off | CheckKind::Stale => r == CompactionCheck::No && final(self)@
                    == old(self)@,
                CheckKind::Silent => r == (CompactionCheck::Run {
                    reason: CompactionReason::Overflow,
                    will_retry: false,
                }) && final(self)@ == old(self)@,
                CheckKind::Exhausted => r == CompactionCheck::No && with_compaction_end(
                    old(self)@,
                    final(self)@,
                    CompactionReason::Overflow,
                    None,
                    false,
                    false,
                    Some(
                        "Context overflow recovery failed after one compact-and-retry attempt"@,
                    ),
                ),
                CheckKind::Recover => r == (CompactionCheck::Run {
                    reason: CompactionReason::Overflow,
                    will_retry: true,
                }) && final(self)@ == recovering(old(self)@),
                CheckKind::Ordinary => r == (CompactionCheck::Threshold {
                    tokens: threshold_tokens(
                        session::context_visible(old(self)@.agent.transcript),
                        *message,
                        boundary_of(
                            match latest {
                                Some(entry) => Some(*entry),
                                None => None,
                            },
                        ),
                        estimate,
                    ),
                }) && final(self)@ == old(self)@,
            },
    {
        let boundary: i64 = match latest {
            Some(entry) => timestamp::parse_iso_to_millis(entry.timestamp.as_str()),
            None => 0,
        };
        let overflow: bool = overflow::is_context_overflow(
            message,
            self.agent.model.context_window,
        );
        self.compaction_decision(message, overflow, boundary, estimate)
    }

    /// Whether the threshold is looked at before the next answer of a run: automatic compaction is on
    /// and the model's window is known. Gives the window and the settings to compare with.
    pub fn compact_before_next_assistant_response(&self) -> (r: Option<(u64, CompactionSettings)>)
        ensures
            r == if self@.lifecycle.auto_compaction_enabled && self@.agent.model.context_window
                != 0 {
                Some(
                    (
                        self@.agent.model.context_window,
                        CompactionSettings {
                            enabled: self@.settings.compaction.enabled,
                            reserve_tokens: self@.settings.compaction.reserve_tokens,
                            keep_recent_tokens: self@.settings.compaction.keep_recent_tokens,
                        },
                    ),
                )
            } else {
                None
            },
    {
        if !self.lifecycle.auto_compaction_enabled {
            return None;
        }
        if self.agent.model.context_window == 0 {
            return None;
        }
        Some((self.agent.model.context_window, settings_to_pure(self.settings.compaction)))
    }

    /// How a summary request is retried.
    pub fn summarization_retry_policy(&self) -> (r: SummarizationRetryPolicy)
        ensures
            r.enabled == self@.settings.retry.enabled,
            r.base_delay_ms == self@.settings.retry.base_delay_ms,
            r.max_retries == if self@.settings.retry.max_retries
                <= SUMMARIZATION_MAX_RETRIES_CEILING {
                self@.settings.retry.max_retries as u32
            } else {
                SUMMARIZATION_MAX_RETRIES_CEILING
            },
    {
        SummarizationRetryPolicy {
            enabled: self.settings.retry.enabled,
            max_retries: clamp_summarization_max_retries(self.settings.retry.max_retries),
            base_delay_ms: self.settings.retry.base_delay_ms,
        }
    }

    /// Tells the listeners how a summary request is retried.
    pub fn summarization_retry_callbacks(
        &mut self,
        source: SummarizationRetrySource,
        notice: SummarizationRetryNotice,
    )
        ensures
            final(self)@ == old(self)@.put(Effect::Emit(retry_notice_event(notice, source))),
    {
        let event = match notice {
            SummarizationRetryNotice::Scheduled {
                attempt,
                max_attempts,
                delay_ms,
                error_message,
            } => AgentSessionEvent::SummarizationRetryScheduled {
                attempt,
                max_attempts,
                delay_ms,
                error_message,
            },
            SummarizationRetryNotice::AttemptStart =>
                AgentSessionEvent::SummarizationRetryAttemptStart { source },
            SummarizationRetryNotice::Finished => AgentSessionEvent::SummarizationRetryFinished,
        };
        self.emit_public(event);
    }
}

// ---------------------------------------------------------------------------
// The steps of a compaction
// ---------------------------------------------------------------------------

/// What a compaction waits for.
#[allow(inconsistent_fields)]
#[derive(Debug, PartialEq)]
pub enum CoreStep {
    /// The entries of the branch. May be cancelled.
    ReadBranch,
    /// The engine's preparation.
    Prepare,
    /// The model runtime and its credentials. May be cancelled.
    ResolveInputs,
    /// The extensions, who may cancel the compaction. May be cancelled.
    AskExtensions { inputs: CompactionInputs },
    /// The engine's summary, with what the model runtime resolved.
    RunEngine { inputs: CompactionInputs, custom_instructions: Option<String> },
    /// The storage, for the summary. May be cancelled.
    Store { result: CompactionResult, from_hook: bool },
    /// The transcript after the compaction, and an estimate of its tokens.
    Rebuild { result: CompactionResult, saved: Option<SessionEntry> },
    /// The extensions, who are told of the compaction. May be cancelled.
    TellExtensions { result: CompactionResult, saved: SessionEntry },
    /// Nothing: the compaction is over, without a summary where there was nothing to compact.
    Done(Result<Option<CompactionResult>, CompactionError>),
}

/// A compaction in progress.
#[derive(Debug, PartialEq)]
pub struct CompactionCore {
    pub reason: CompactionReason,
    pub will_retry: bool,
    /// Whether the user asked for it.
    pub is_manual: bool,
    /// What the user said to it.
    pub custom_instructions: Option<String>,
    /// Whether an extension wants to be asked.
    pub has_before_handlers: bool,
    pub step: CoreStep,
}

/// What extensions said before a compaction.
#[derive(Debug, PartialEq)]
pub struct BeforeCompactResult {
    /// Whether it is to be cancelled.
    pub cancel: bool,
    /// A summary in place of the engine's.
    pub compaction: Option<CompactionResult>,
}

/// What a compaction waited for.
#[derive(Debug, PartialEq)]
pub enum CoreReply {
    /// The cancellation came first.
    Cancelled,
    BranchRead,
    /// Whether there is anything to compact.
    Prepared(Result<bool, CompactionError>),
    InputsResolved(Result<CompactionInputs, CompactionError>),
    ExtensionsAnswered(BeforeCompactResult),
    EngineDone(Result<CompactionResult, CompactionError>),
    /// The entry of the summary, or why it could not be stored.
    Stored(Result<Option<SessionEntry>, String>),
    /// The transcript and its estimated tokens.
    Rebuilt(Result<(Vec<AgentMessage>, u64), CompactionError>),
    ExtensionsTold(Result<(), ExtensionRunnerError>),
}

/// The first step of a compaction.
pub open spec fn core_start(
    reason: CompactionReason,
    will_retry: bool,
    is_manual: bool,
    custom_instructions: Option<String>,
    has_before_handlers: bool,
) -> CompactionCore {
    CompactionCore {
        reason,
        will_retry,
        is_manual,
        custom_instructions,
        has_before_handlers,
        step: CoreStep::ReadBranch,
    }
}

/// The engine's turn: only what the user said to a manual compaction reaches it.
pub open spec fn engine_step(core: CompactionCore, inputs: CompactionInputs) -> CoreStep {
    CoreStep::RunEngine {
        inputs,
        custom_instructions: if core.is_manual {
            core.custom_instructions
        } else {
            None
        },
    }
}

/// The step after a rebuilt transcript: extensions hear of a stored compaction.
pub open spec fn rebuilt_step(
    result: CompactionResult,
    saved: Option<SessionEntry>,
    tokens: u64,
) -> CoreStep {
    let counted = CompactionResult { estimated_tokens_after: Some(tokens), ..result };
    match saved {
        Some(SessionEntry::Compaction(entry)) => CoreStep::TellExtensions {
            result: counted,
            saved: SessionEntry::Compaction(entry),
        },
        _ => CoreStep::Done(Ok(Some(counted))),
    }
}

/// `next` is the step after a reply. A summary that could not be stored is a failed one, and the
/// failure says why.
pub open spec fn core_follows(core: CompactionCore, reply: CoreReply, next: CoreStep) -> bool {
    match (core.step, reply) {
        (CoreStep::Store { .. }, CoreReply::Stored(Err(error))) => {
            &&& next matches CoreStep::Done(Err(CompactionError::SummarizationFailed(t)))
            &&& t@ == "failed to persist compaction: "@ + error@
        },
        _ => next == core_next(core, reply),
    }
}

/// The step after a reply other than that the summary could not be stored. A reply to something else
/// changes nothing.
pub open spec fn core_next(core: CompactionCore, reply: CoreReply) -> CoreStep {
    match (core.step, reply) {
        (CoreStep::ReadBranch, CoreReply::Cancelled) => CoreStep::Done(
            Err(CompactionError::Cancelled),
        ),
        (CoreStep::ReadBranch, CoreReply::BranchRead) => CoreStep::Prepare,
        (CoreStep::Prepare, CoreReply::Prepared(Ok(true))) => CoreStep::ResolveInputs,
        (CoreStep::Prepare, CoreReply::Prepared(Ok(false))) => CoreStep::Done(Ok(None)),
        (CoreStep::Prepare, CoreReply::Prepared(Err(error))) => CoreStep::Done(Err(error)),
        (CoreStep::ResolveInputs, CoreReply::Cancelled) => CoreStep::Done(
            Err(CompactionError::Cancelled),
        ),
        (CoreStep::ResolveInputs, CoreReply::InputsResolved(Ok(inputs))) =>
            if core.has_before_handlers {
                CoreStep::AskExtensions { inputs }
            } else {
                engine_step(core, inputs)
            },
        (CoreStep::ResolveInputs, CoreReply::InputsResolved(Err(error))) => CoreStep::Done(
            Err(error),
        ),
        (CoreStep::AskExtensions { .. }, CoreReply::Cancelled) => CoreStep::Done(
            Err(CompactionError::Cancelled),
        ),
        (CoreStep::AskExtensions { inputs }, CoreReply::ExtensionsAnswered(answer)) => if answer.cancel {
            CoreStep::Done(Err(CompactionError::Cancelled))
        } else {
            match answer.compaction {
                Some(replacement) => CoreStep::Store {
                    result: CompactionResult { from_hook: Some(true), ..replacement },
                    from_hook: true,
                },
                None => engine_step(core, inputs),
            }
        },
        (CoreStep::RunEngine { .. }, CoreReply::EngineDone(Ok(result))) => CoreStep::Store {
            result,
            from_hook: false,
        },
        (CoreStep::RunEngine { .. }, CoreReply::EngineDone(Err(error))) => CoreStep::Done(
            Err(error),
        ),
        (CoreStep::Store { .. }, CoreReply::Cancelled) => CoreStep::Done(
            Err(CompactionError::Cancelled),
        ),
        (CoreStep::Store { result, .. }, CoreReply::Stored(Ok(saved))) => CoreStep::Rebuild {
            result,
            saved,
        },
        (CoreStep::Rebuild { result, saved }, CoreReply::Rebuilt(Ok(rebuilt))) => rebuilt_step(
            result,
            saved,
            rebuilt.1,
        ),
        (CoreStep::Rebuild { .. }, CoreReply::Rebuilt(Err(error))) => CoreStep::Done(Err(error)),
        (CoreStep::TellExtensions { result, .. }, CoreReply::Cancelled) => CoreStep::Done(
            Ok(Some(result)),
        ),
        (CoreStep::TellExtensions { result, .. }, CoreReply::ExtensionsTold(_)) => CoreStep::Done(
            Ok(Some(result)),
        ),
        (step, _) => step,
    }
}

/// What a reply changes of the session: a rebuilt transcript takes the place of the old one, a
/// failure of the extensions is told them, and the stored entry is told to the listeners at the end.
pub open spec fn core_session(s: SessionModel, core: CompactionCore, reply: CoreReply) -> SessionModel {
    match (core.step, reply) {
        (CoreStep::Rebuild { saved, .. }, CoreReply::Rebuilt(Ok(rebuilt))) => {
            let t = SessionModel {
                agent: AgentModel { transcript: rebuilt.0@, ..s.agent },
                ..s
            };
            match saved {
                Some(SessionEntry::Compaction(_)) => t,
                Some(entry) => t.put(Effect::Emit(AgentSessionEvent::EntryAppended { entry })),
                None => t,
            }
        },
        (CoreStep::TellExtensions { saved, .. }, CoreReply::Cancelled) => s.put(
            Effect::Emit(AgentSessionEvent::EntryAppended { entry: saved }),
        ),
        (CoreStep::TellExtensions { saved, .. }, CoreReply::ExtensionsTold(Ok(()))) => s.put(
            Effect::Emit(AgentSessionEvent::EntryAppended { entry: saved }),
        ),
        (CoreStep::TellExtensions { saved, .. }, CoreReply::ExtensionsTold(Err(error))) => s.put(
            Effect::RunnerFailure(error),
        ).put(Effect::Emit(AgentSessionEvent::EntryAppended { entry: saved })),
        _ => s,
    }
}

/// The place of a step in a compaction.
pub open spec fn step_rank(step: CoreStep) -> int {
    match step {
        CoreStep::ReadBranch => 0,
        CoreStep::Prepare => 1,
        CoreStep::ResolveInputs => 2,
        CoreStep::AskExtensions { .. } => 3,
        CoreStep::RunEngine { .. } => 4,
        CoreStep::Store { .. } => 5,
        CoreStep::Rebuild { .. } => 6,
        CoreStep::TellExtensions { .. } => 7,
        CoreStep::Done(_) => 8,
    }
}

/// A reply either fits the step, and the compaction moves forward, or changes nothing: extensions
/// are asked at most once, the engine runs at most once, and one summary is stored at most once.
/// Once over, a compaction stays over.
pub proof fn law_compaction_moves_forward(core: CompactionCore, reply: CoreReply, next: CoreStep)
    requires
        core_follows(core, reply, next),
    ensures
        next == core.step || step_rank(next) > step_rank(core.step),
        core.step is Done ==> next == core.step,
{
}

/// A compaction that is cancelled or fails before its summary is stored leaves the session as it
/// was: the transcript is only ever replaced behind a stored summary, and only then does an entry
/// reach the listeners.
pub proof fn law_nothing_changes_before_the_summary_is_stored(
    s: SessionModel,
    core: CompactionCore,
    reply: CoreReply,
    next: CoreStep,
)
    requires
        step_rank(core.step) <= 5,
        core_follows(core, reply, next),
    ensures
        core_session(s, core, reply) == s,
        next matches CoreStep::Rebuild { .. } ==> reply is Stored,
        next is Done || step_rank(next) <= 6,
        next matches CoreStep::Done(Ok(Some(_))) ==> false,
{
}

/// A compaction that the extensions cancel is cancelled, and the engine does not run; extensions are
/// asked only where one wants to be.
pub proof fn law_extensions_can_cancel(
    core: CompactionCore,
    reply: CoreReply,
    next: CoreStep,
    inputs: CompactionInputs,
    answer: BeforeCompactResult,
)
    requires
        core_follows(core, reply, next),
    ensures
        core.step is AskExtensions && reply == CoreReply::ExtensionsAnswered(answer) && answer.cancel
            ==> next == CoreStep::Done(Err(CompactionError::Cancelled)),
        !core.has_before_handlers && core.step is ResolveInputs && reply
            == CoreReply::InputsResolved(Ok(inputs)) ==> next == engine_step(core, inputs),
        next is AskExtensions && core.step !is AskExtensions ==> core.has_before_handlers,
{
}

/// The engine gets the credentials that were resolved, whether or not extensions were asked in
/// between.
pub proof fn law_the_engine_gets_what_was_resolved(
    core: CompactionCore,
    inputs: CompactionInputs,
    resolved: CoreStep,
    answer: BeforeCompactResult,
    asked: CoreStep,
)
    requires
        core.step is ResolveInputs,
        core_follows(core, CoreReply::InputsResolved(Ok(inputs)), resolved),
        core_follows(
            CompactionCore { step: resolved, ..core },
            CoreReply::ExtensionsAnswered(answer),
            asked,
        ),
    ensures
        asked is RunEngine ==> asked == engine_step(core, inputs),
        !core.has_before_handlers ==> resolved == engine_step(core, inputs),
{
}

impl AgentSession {
    /// The first step of a compaction.
    pub fn run_compaction_core(
        &self,
        reason: CompactionReason,
        custom_instructions: Option<String>,
        will_retry: bool,
        is_manual: bool,
        has_before_handlers: bool,
    ) -> (r: CompactionCore)
        ensures
            r == core_start(reason, will_retry, is_manual, custom_instructions, has_before_handlers),
    {
        CompactionCore {
            reason,
            will_retry,
            is_manual,
            custom_instructions,
            has_before_handlers,
            step: CoreStep::ReadBranch,
        }
    }

    /// Takes a reply and gives the next step.
    pub fn advance_compaction(&mut self, core: CompactionCore, reply: CoreReply) -> (r:
        CompactionCore)
        ensures
            core_follows(core, reply, r.step),
            r == (CompactionCore { step: r.step, ..core }),
            final(self)@ == core_session(old(self)@, core, reply),
    {
        let CompactionCore {
            reason,
            will_retry,
            is_manual,
            custom_instructions,
            has_before_handlers,
            step,
        } = core;
        let step = match (step, reply) {
            (CoreStep::ReadBranch, CoreReply::Cancelled) => CoreStep::Done(
                Err(CompactionError::Cancelled),
            ),
            (CoreStep::ReadBranch, CoreReply::BranchRead) => CoreStep::Prepare,
            (CoreStep::Prepare, CoreReply::Prepared(Ok(true))) => CoreStep::ResolveInputs,
            (CoreStep::Prepare, CoreReply::Prepared(Ok(false))) => CoreStep::Done(Ok(None)),
            (CoreStep::Prepare, CoreReply::Prepared(Err(error))) => CoreStep::Done(Err(error)),
            (CoreStep::ResolveInputs, CoreReply::Cancelled) => CoreStep::Done(
                Err(CompactionError::Cancelled),
            ),
            (CoreStep::ResolveInputs, CoreReply::InputsResolved(Ok(inputs))) =>
                if has_before_handlers {
                    CoreStep::AskExtensions { inputs }
                } else {
                    run_pure_compaction_engine(inputs, is_manual, &custom_instructions)
                },
            (CoreStep::ResolveInputs, CoreReply::InputsResolved(Err(error))) => CoreStep::Done(
                Err(error),
            ),
            (CoreStep::AskExtensions { .. }, CoreReply::Cancelled) => CoreStep::Done(
                Err(CompactionError::Cancelled),
            ),
            (CoreStep::AskExtensions { inputs }, CoreReply::ExtensionsAnswered(answer)) =>
                try_extension_before_compact(inputs, answer, is_manual, &custom_instructions),
            (CoreStep::RunEngine { .. }, CoreReply::EngineDone(Ok(result))) => CoreStep::Store {
                result,
                from_hook: false,
            },
            (CoreStep::RunEngine { .. }, CoreReply::EngineDone(Err(error))) => CoreStep::Done(
                Err(error),
            ),
            (CoreStep::Store { .. }, CoreReply::Cancelled) => CoreStep::Done(
                Err(CompactionError::Cancelled),
            ),
            (CoreStep::Store { result, .. }, CoreReply::Stored(Ok(saved))) => CoreStep::Rebuild {
                result,
                saved,
            },
            (CoreStep::Store { .. }, CoreReply::Stored(Err(error))) => CoreStep::Done(
                Err(
                    CompactionError::SummarizationFailed(
                        text::concat2("failed to persist compaction: ", error.as_str()),
                    ),
                ),
            ),
            (CoreStep::Rebuild { result, saved }, CoreReply::Rebuilt(Ok(rebuilt))) =>
                self.finalize_compaction_result(result, saved, rebuilt.0, rebuilt.1),
            (CoreStep::Rebuild { .. }, CoreReply::Rebuilt(Err(error))) => CoreStep::Done(
                Err(error),
            ),
            (CoreStep::TellExtensions { result, saved }, CoreReply::Cancelled) => {
                self.extension_after_compact(saved, None);
                CoreStep::Done(Ok(Some(result)))
            },
            (CoreStep::TellExtensions { result, saved }, CoreReply::ExtensionsTold(Ok(()))) => {
                self.extension_after_compact(saved, None);
                CoreStep::Done(Ok(Some(result)))
            },
            (CoreStep::TellExtensions { result, saved }, CoreReply::ExtensionsTold(Err(error))) => {
                self.extension_after_compact(saved, Some(error));
                CoreStep::Done(Ok(Some(result)))
            },
            (step, _) => step,
        };
        CompactionCore {
            reason,
            will_retry,
            is_manual,
            custom_instructions,
            has_before_handlers,
            step,
        }
    }

    /// Takes the rebuilt transcript behind a stored summary.
    fn finalize_compaction_result(
        &mut self,
        result: CompactionResult,
        saved: Option<SessionEntry>,
        transcript: Vec<AgentMessage>,
        tokens: u64,
    ) -> (r: CoreStep)
        ensures
            r == rebuilt_step(result, saved, tokens),
            ({
                let t = SessionModel {
                    agent: AgentModel { transcript: transcript@, ..old(self)@.agent },
                    ..old(self)@
                };
                final(self)@ == match saved {
                    Some(SessionEntry::Compaction(_)) => t,
                    Some(entry) => t.put(
                        Effect::Emit(AgentSessionEvent::EntryAppended { entry }),
                    ),
                    None => t,
                }
            }),
    {
        self.agent.transcript = transcript;
        let mut counted = result;
        counted.estimated_tokens_after = Some(tokens);
        match saved {
            Some(SessionEntry::Compaction(entry)) => CoreStep::TellExtensions {
                result: counted,
                saved: SessionEntry::Compaction(entry),
            },
            Some(entry) => {
                self.emit_public(AgentSessionEvent::EntryAppended { entry });
                CoreStep::Done(Ok(Some(counted)))
            },
            None => CoreStep::Done(Ok(Some(counted))),
        }
    }

    /// Ends a compaction that extensions were told of: their failure is told them, and the listeners
    /// hear of the entry.
    fn extension_after_compact(&mut self, saved: SessionEntry, failure: Option<ExtensionRunnerError>)
        ensures
            final(self)@ == match failure {
                Some(error) => old(self)@.put(Effect::RunnerFailure(error)).put(
                    Effect::Emit(AgentSessionEvent::EntryAppended { entry: saved }),
                ),
                None => old(self)@.put(
                    Effect::Emit(AgentSessionEvent::EntryAppended { entry: saved }),
                ),
            },
    {
        if let Some(error) = failure {
            self.outbox.push(Effect::RunnerFailure(error));
        }
        self.emit_public(AgentSessionEvent::EntryAppended { entry: saved });
    }

    /// What the extensions said before a compaction: a failure of theirs does not cancel it.
    pub fn extension_before_compact(
        &mut self,
        answer: Result<Option<CancelResult>, ExtensionRunnerError>,
    ) -> (r: BeforeCompactResult)
        ensures
            r.compaction is None,
            match answer {
                Ok(Some(c)) => r.cancel == c.cancel && final(self)@ == old(self)@,
                Ok(None) => !r.cancel && final(self)@ == old(self)@,
                Err(error) => !r.cancel && final(self)@ == old(self)@.put(
                    Effect::RunnerFailure(error),
                ),
            },
    {
        match answer {
            Ok(Some(c)) => BeforeCompactResult { cancel: c.cancel, compaction: None },
            Ok(None) => BeforeCompactResult { cancel: false, compaction: None },
            Err(error) => {
                self.outbox.push(Effect::RunnerFailure(error));
                BeforeCompactResult { cancel: false, compaction: None }
            },
        }
    }
}

/// The engine's turn.
fn run_pure_compaction_engine(
    inputs: CompactionInputs,
    is_manual: bool,
    custom_instructions: &Option<String>,
) -> (r: CoreStep)
    ensures
        r == (CoreStep::RunEngine {
            inputs,
            custom_instructions: if is_manual {
                *custom_instructions
            } else {
                None
            },
        }),
{
    if is_manual {
        CoreStep::RunEngine { inputs, custom_instructions: clone_text(custom_instructions) }
    } else {
        CoreStep::RunEngine { inputs, custom_instructions: None }
    }
}

/// The step after the extensions' answer.
fn try_extension_before_compact(
    inputs: CompactionInputs,
    answer: BeforeCompactResult,
    is_manual: bool,
    custom_instructions: &Option<String>,
) -> (r: CoreStep)
    ensures
        r == if answer.cancel {
            CoreStep::Done(Err(CompactionError::Cancelled))
        } else {
            match answer.compaction {
                Some(replacement) => CoreStep::Store {
                    result: CompactionResult { from_hook: Some(true), ..replacement },
                    from_hook: true,
                },
                None => CoreStep::RunEngine {
                    inputs,
                    custom_instructions: if is_manual {
                        *custom_instructions
                    } else {
                        None
                    },
                },
            }
        },
{
    if answer.cancel {
        return CoreStep::Done(Err(CompactionError::Cancelled));
    }
    match answer.compaction {
        Some(replacement) => {
            let mut result = replacement;
            result.from_hook = Some(true);
            CoreStep::Store { result, from_hook: true }
        },
        None => run_pure_compaction_engine(inputs, is_manual, custom_instructions),
    }
}

impl CompactionCore {
    /// What extensions are asked with before a compaction.
    #[must_use]
    pub fn before_event(&self) -> (r: AgentSessionEvent)
        ensures
            r == (AgentSessionEvent::CompactionStart { reason: self.reason }),
    {
        AgentSessionEvent::CompactionStart { reason: self.reason }
    }

    /// What extensions are told after a compaction: that it ended and why it ran, without its
    /// result.
    #[must_use]
    pub fn after_event(&self) -> (r: AgentSessionEvent)
        ensures
            r == (AgentSessionEvent::CompactionEnd {
                reason: self.reason,
                result: None,
                aborted: false,
                will_retry: self.will_retry,
                error_message: None,
            }),
    {
        AgentSessionEvent::CompactionEnd {
            reason: self.reason,
            result: None,
            aborted: false,
            will_retry: self.will_retry,
            error_message: None,
        }
    }

    /// What the telemetry span of a compaction starts with.
    #[must_use]
    pub fn span_start(&self, session_id: String) -> (r: CompactionSpanStart)
        ensures
            r.session_id == session_id,
            r.lane_name@ == "main"@,
            r.operation_id@ == "compaction-"@ + self.reason.name(),
            r.recovery == self.will_retry,
    {
        CompactionSpanStart {
            session_id,
            lane_name: "main".to_owned(),
            operation_id: text::concat2("compaction-", self.reason.as_str()),
            recovery: self.will_retry,
        }
    }
}

/// What the telemetry span of a compaction starts with.
#[derive(Debug, PartialEq)]
pub struct CompactionSpanStart {
    pub session_id: String,
    pub lane_name: String,
    pub operation_id: String,
    /// Whether the compaction is to recover a run.
    pub recovery: bool,
}

/// What is stored of a compaction.
#[derive(Debug, PartialEq)]
pub struct CompactionDraft {
    pub summary: String,
    pub first_kept_entry_id: String,
    pub tokens_before: i64,
    pub details: Option<crate::json::Json>,
    pub from_hook: Option<bool>,
    pub usage: Option<messages::Usage>,
}

/// What is stored of a compaction: its result, and a mark where extensions gave it.
pub fn compaction_draft(result: &CompactionResult, from_hook: bool) -> (r: CompactionDraft)
    ensures
        r == (CompactionDraft {
            summary: result.summary,
            first_kept_entry_id: result.first_kept_entry_id,
            tokens_before: if result.tokens_before <= i64::MAX {
                result.tokens_before as i64
            } else {
                i64::MAX
            },
            details: result.details,
            from_hook: if from_hook {
                Some(true)
            } else {
                None
            },
            usage: result.usage,
        }),
{
    let tokens_before: i64 = if result.tokens_before <= i64::MAX as u64 {
        result.tokens_before as i64
    } else {
        i64::MAX
    };
    CompactionDraft {
        summary: result.summary.clone(),
        first_kept_entry_id: result.first_kept_entry_id.clone(),
        tokens_before,
        details: match &result.details {
            Some(d) => Some(d.clone()),
            None => None,
        },
        from_hook: if from_hook {
            Some(true)
        } else {
            None
        },
        usage: result.usage,
    }
}

/// The status of a span of telemetry.
#[derive(Debug, PartialEq)]
pub enum SpanStatus {
    Good,
    Error { message: String },
}

/// The status of the request's span and of the compaction's: a failure of the engine is one of both,
/// a success leaves the compaction's open.
pub fn record_compaction_result_status(result: &Result<CompactionResult, CompactionError>) -> (r: (
    SpanStatus,
    Option<SpanStatus>,
))
    ensures
        match result {
            Ok(_) => r.0 is Good && r.1 is None,
            Err(error) => {
                &&& r.0 matches SpanStatus::Error { message } && message@ == error.text()
                &&& r.1 matches Some(SpanStatus::Error { message }) && message@ == error.text()
            },
        },
{
    match result {
        Ok(_) => (SpanStatus::Good, None),
        Err(error) => (
            SpanStatus::Error { message: error.message() },
            Some(SpanStatus::Error { message: error.message() }),
        ),
    }
}

// ---------------------------------------------------------------------------
// The frame around the steps
// ---------------------------------------------------------------------------

/// An automatic compaction in progress.
#[derive(Clone, Copy, Debug, PartialEq, Eq, Structural)]
pub struct AutoCompaction {
    pub reason: CompactionReason,
    pub will_retry: bool,
    /// The generation that owns the slot.
    pub owner: u64,
}

/// A session in which an automatic compaction begins.
pub open spec fn auto_compaction_begun(
    s: SessionModel,
    reason: CompactionReason,
    token: CancelToken,
) -> SessionModel {
    session::begun_auto_compaction(s, token).put(
        Effect::EmitAwaited(AgentSessionEvent::CompactionStart { reason }),
    )
}

/// The text of an automatic compaction that failed.
pub open spec fn auto_failure_text(reason: CompactionReason, error: CompactionError) -> Seq<char> {
    if reason == CompactionReason::Overflow {
        "Context overflow recovery failed: "@ + error.text()
    } else {
        "Auto-compaction failed: "@ + error.text()
    }
}

/// `t` is `s` with the end of an automatic compaction told: with its result, or that it was
/// cancelled, or why it failed; without any of these where there was nothing to compact.
pub open spec fn auto_end_told(
    s: SessionModel,
    t: SessionModel,
    run: AutoCompaction,
    result: Result<Option<CompactionResult>, CompactionError>,
) -> bool {
    match result {
        Ok(Some(r)) => with_compaction_end(
            s,
            t,
            run.reason,
            Some(r),
            false,
            run.will_retry,
            None,
        ),
        Ok(None) => with_compaction_end(s, t, run.reason, None, false, false, None),
        Err(CompactionError::Cancelled) => with_compaction_end(
            s,
            t,
            run.reason,
            None,
            true,
            false,
            None,
        ),
        Err(error) => with_compaction_end(
            s,
            t,
            run.reason,
            None,
            false,
            false,
            Some(auto_failure_text(run.reason, error)),
        ),
    }
}

/// What follows the end of an automatic compaction: the failed answer of a retry leaves the
/// transcript, and the slot is cleared where it is still this compaction's.
pub open spec fn auto_compaction_over(
    s: SessionModel,
    run: AutoCompaction,
    result: Result<Option<CompactionResult>, CompactionError>,
) -> SessionModel {
    session::cleared_auto_compaction(
        if result matches Ok(Some(_)) && run.will_retry {
            SessionModel { agent: session::popped_assistant(s.agent), ..s }
        } else {
            s
        },
        run.owner,
    )
}

/// Whether the run goes on after an automatic compaction: to retry, or to deliver what waits.
pub open spec fn goes_on(
    s: SessionModel,
    run: AutoCompaction,
    result: Result<Option<CompactionResult>, CompactionError>,
) -> bool {
    result matches Ok(Some(_)) && (run.will_retry || s.agent.has_queued())
}

/// The text of the end of a manual compaction that failed; none where it was cancelled.
pub open spec fn manual_failure_text(error: CompactionError) -> Option<Seq<char>> {
    if error is Cancelled {
        None
    } else {
        Some("Compaction failed: "@ + error.text())
    }
}

/// `t` is `s` with the end of a manual compaction told.
pub open spec fn manual_end_told(
    s: SessionModel,
    t: SessionModel,
    outcome: Result<CompactionResult, CompactionError>,
) -> bool {
    match outcome {
        Ok(r) => with_compaction_end(
            s,
            t,
            CompactionReason::Manual,
            Some(r),
            false,
            false,
            None,
        ),
        Err(error) => with_compaction_end(
            s,
            t,
            CompactionReason::Manual,
            None,
            error is Cancelled,
            false,
            manual_failure_text(error),
        ),
    }
}

/// A session in which a manual compaction begins.
pub open spec fn manual_compaction_begun(s: SessionModel, token: CancelToken) -> SessionModel {
    session::begun_compaction(s, token).put(
        Effect::EmitAwaited(
            AgentSessionEvent::CompactionStart { reason: CompactionReason::Manual },
        ),
    )
}

/// What an effect tells of compactions: 1 for a start, -1 for an end.
pub open spec fn compaction_told(effect: Effect) -> int {
    match effect {
        Effect::EmitAwaited(AgentSessionEvent::CompactionStart { .. }) => 1,
        Effect::EmitAwaited(AgentSessionEvent::CompactionEnd { .. }) => -1,
        _ => 0,
    }
}

/// Every compaction that begins tells its start last, and every one that ends tells its end: what
/// the frame adds to the outbox is one start behind the cancelling of an older compaction, and
/// later one end, which says that the compaction was cancelled exactly where it was, and carries a
/// result exactly where there is one.
pub proof fn law_compaction_is_told_from_start_to_end(
    s: SessionModel,
    token: CancelToken,
    u: SessionModel,
    v: SessionModel,
    run: AutoCompaction,
    result: Result<Option<CompactionResult>, CompactionError>,
)
    requires
        auto_end_told(u, v, run, result),
    ensures
        ({
            let t = auto_compaction_begun(s, run.reason, token);
            &&& t.outbox == s.outbox + session::cancelling(s.slots.auto_compaction).push(
                Effect::EmitAwaited(AgentSessionEvent::CompactionStart { reason: run.reason }),
            )
            &&& compaction_told(t.outbox.last()) == 1
        }),
        v.outbox.len() == u.outbox.len() + 1,
        v.outbox.drop_last() == u.outbox,
        compaction_told(v.outbox.last()) == -1,
        v.outbox.last() matches Effect::EmitAwaited(
            AgentSessionEvent::CompactionEnd { result: told, aborted, error_message, .. },
        ) && {
            &&& aborted <==> result == Err::<Option<CompactionResult>, CompactionError>(
                CompactionError::Cancelled,
            )
            &&& told is Some <==> (result is Ok && result->Ok_0 is Some)
            &&& error_message is Some <==> result is Err && !aborted
        },
{
    let t = auto_compaction_begun(s, run.reason, token);
    assert(t.outbox =~= s.outbox + session::cancelling(s.slots.auto_compaction).push(
        Effect::EmitAwaited(AgentSessionEvent::CompactionStart { reason: run.reason }),
    ));
    assert(v.outbox.drop_last() =~= u.outbox);
}

impl AgentSession {
    /// Begins an automatic compaction: it takes its slot and its start is told.
    pub fn run_auto_compaction(
        &mut self,
        reason: CompactionReason,
        will_retry: bool,
        token: CancelToken,
    ) -> (run: AutoCompaction)
        ensures
            final(self)@ == auto_compaction_begun(old(self)@, reason, token),
            run == (AutoCompaction {
                reason,
                will_retry,
                owner: final(self)@.slots.auto_compaction_owner,
            }),
    {
        let owner: u64 = self.begin_auto_compaction_abort(token);
        self.emit_public_awaited(AgentSessionEvent::CompactionStart { reason });
        AutoCompaction { reason, will_retry, owner }
    }

    /// Ends an automatic compaction, and tells whether the run goes on.
    pub fn auto_compaction_finished(
        &mut self,
        run: AutoCompaction,
        result: Result<Option<CompactionResult>, CompactionError>,
    ) -> (r: bool)
        ensures
            exists|t: SessionModel| #[trigger]
                auto_end_told(old(self)@, t, run, result) && final(self)@ == auto_compaction_over(
                    t,
                    run,
                    result,
                ),
            r == goes_on(old(self)@, run, result),
    {
        let ghost told: SessionModel;
        let r: bool = match result {
            Ok(Some(compaction)) => {
                self.emit_compaction_end(
                    run.reason,
                    Some(compaction),
                    false,
                    run.will_retry,
                    None,
                );
                proof {
                    told = self@;
                }
                if run.will_retry {
                    self.pop_last_if_assistant();
                    true
                } else {
                    self.has_queued_messages()
                }
            },
            Ok(None) => {
                self.emit_compaction_end(run.reason, None, false, false, None);
                proof {
                    told = self@;
                }
                false
            },
            Err(CompactionError::Cancelled) => {
                self.emit_compaction_end(run.reason, None, true, false, None);
                proof {
                    told = self@;
                }
                false
            },
            Err(error) => {
                let cause = error.message();
                let message = if run.reason == CompactionReason::Overflow {
                    text::concat2("Context overflow recovery failed: ", cause.as_str())
                } else {
                    text::concat2("Auto-compaction failed: ", cause.as_str())
                };
                self.emit_compaction_end(run.reason, None, false, false, Some(message));
                proof {
                    told = self@;
                }
                false
            },
        };
        assert(auto_end_told(old(self)@, told, run, result));
        self.clear_auto_compaction_abort(run.owner);
        r
    }

    /// Makes way for a manual compaction: the event pump is taken off, so that nothing of the abort
    /// reaches the listeners, and everything in progress is cancelled. The caller then waits until
    /// the session is idle.
    pub fn compact(&mut self)
        ensures
            final(self)@ == session::aborted(old(self)@.put(Effect::DisconnectPump)),
    {
        self.outbox.push(Effect::DisconnectPump);
        self.abort();
    }

    /// Begins a manual compaction: it takes its slot and its start is told.
    pub fn begin_manual_compaction(&mut self, token: CancelToken)
        ensures
            final(self)@ == manual_compaction_begun(old(self)@, token),
    {
        self.begin_compaction_abort(token);
        self.emit_public_awaited(
            AgentSessionEvent::CompactionStart { reason: CompactionReason::Manual },
        );
    }

    /// Ends a manual compaction: its end is told, its slot is cleared and the event pump is put back.
    /// Where there was nothing to compact, `none_error` says why, and that is the failure.
    pub fn manual_compaction_finished(
        &mut self,
        result: Result<Option<CompactionResult>, CompactionError>,
        none_error: CompactionError,
    ) -> (r: Result<CompactionResult, CompactionError>)
        requires
            !(none_error is Cancelled),
        ensures
            r == match result {
                Ok(Some(c)) => Ok::<CompactionResult, CompactionError>(c),
                Ok(None) => Err::<CompactionResult, CompactionError>(none_error),
                Err(error) => Err::<CompactionResult, CompactionError>(error),
            },
            exists|t: SessionModel| #[trigger]
                manual_end_told(old(self)@, t, r) && final(self)@ == (SessionModel {
                    slots: AbortSlots { compaction: None, ..t.slots },
                    ..t
                }).put(Effect::ReconnectPump),
    {
        let r: Result<CompactionResult, CompactionError> = match result {
            Ok(Some(compaction)) => {
                self.emit_compaction_end(
                    CompactionReason::Manual,
                    Some(compaction.clone()),
                    false,
                    false,
                    None,
                );
                Ok(compaction)
            },
            Ok(None) => {
                let message = text::concat2("Compaction failed: ", none_error.message().as_str());
                self.emit_compaction_end(
                    CompactionReason::Manual,
                    None,
                    false,
                    false,
                    Some(message),
                );
                Err(none_error)
            },
            Err(error) => {
                let aborted: bool = match &error {
                    CompactionError::Cancelled => true,
                    _ => false,
                };
                let message = if aborted {
                    None
                } else {
                    Some(text::concat2("Compaction failed: ", error.message().as_str()))
                };
                self.emit_compaction_end(CompactionReason::Manual, None, aborted, false, message);
                Err(error)
            },
        };
        assert(manual_end_told(old(self)@, self@, r));
        self.clear_compaction_abort();
        self.outbox.push(Effect::ReconnectPump);
        r
    }
}

// ---------------------------------------------------------------------------
// What the operations promise
// ---------------------------------------------------------------------------

/// Without automatic compaction, and for an answer from before the last compaction, nothing is due
/// and nothing changes.
pub proof fn law_old_answers_start_no_compaction(
    session: &mut AgentSession,
    message: &AssistantMessage,
    overflow: bool,
    boundary: i64,
    estimate: ContextEstimate,
    check: CompactionCheck,
)
    requires
        call_ensures(
            AgentSession::compaction_decision,
            (session, message, overflow, boundary, estimate),
            check,
        ),
        !old(session)@.lifecycle.auto_compaction_enabled || boundary > 0 && message.timestamp
            <= boundary,
    ensures
        check == CompactionCheck::No,
        final(session)@ == old(session)@,
{
}

/// An answer of the selected model that shows that the context was too long makes a compaction due:
/// one that came whole without a retry; any other with one, once, for which the failed answer leaves
/// the transcript; and after that the failure is told and nothing is due.
pub proof fn law_a_long_context_is_recovered_from_once(
    session: &mut AgentSession,
    message: &AssistantMessage,
    boundary: i64,
    estimate: ContextEstimate,
    check: CompactionCheck,
)
    requires
        call_ensures(
            AgentSession::compaction_decision,
            (session, message, true, boundary, estimate),
            check,
        ),
        old(session)@.lifecycle.auto_compaction_enabled,
        boundary <= 0 || message.timestamp > boundary,
        old(session)@.agent.model.provider@ == message.provider@,
        old(session)@.agent.model.id@ == message.model@,
    ensures
        message.stop_reason == StopReason::Stop ==> check == (CompactionCheck::Run {
            reason: CompactionReason::Overflow,
            will_retry: false,
        }) && final(session)@ == old(session)@,
        message.stop_reason != StopReason::Stop && !old(session)@.lifecycle.overflow_recovery_attempted ==> {
            let before = old(session)@.agent.transcript;
            &&& check == CompactionCheck::Run {
                reason: CompactionReason::Overflow,
                will_retry: true,
            }
            &&& final(session)@.lifecycle.overflow_recovery_attempted
            &&& final(session)@.outbox == old(session)@.outbox
            &&& (before.len() > 0 && (before.last() matches AgentMessage::Llm(
                Message::Assistant(_),
            ))) ==> final(session)@.agent.transcript == before.drop_last()
            &&& !(before.len() > 0 && (before.last() matches AgentMessage::Llm(
                Message::Assistant(_),
            ))) ==> final(session)@.agent.transcript == before
        },
        message.stop_reason != StopReason::Stop && old(session)@.lifecycle.overflow_recovery_attempted ==> {
            &&& check == CompactionCheck::No
            &&& final(session)@.agent == old(session)@.agent
            &&& final(session)@.outbox.len() == old(session)@.outbox.len() + 1
            &&& final(session)@.outbox.last() matches Effect::EmitAwaited(
                AgentSessionEvent::CompactionEnd {
                    reason,
                    result,
                    aborted,
                    will_retry,
                    error_message,
                },
            ) && reason == CompactionReason::Overflow && result is None && !aborted && !will_retry
                && error_message is Some && error_message->0@
                == "Context overflow recovery failed after one compact-and-retry attempt"@
        },
{
}

/// Any other answer leaves the session as it is, and only the threshold is looked at, with the tokens
/// for it.
pub proof fn law_other_answers_are_measured(
    session: &mut AgentSession,
    before: &AgentSession,
    message: &AssistantMessage,
    overflow: bool,
    boundary: i64,
    estimate: ContextEstimate,
    tokens: u64,
    check: CompactionCheck,
)
    requires
        call_ensures(
            AgentSession::compaction_decision,
            (session, message, overflow, boundary, estimate),
            check,
        ),
        before@ == old(session)@,
        call_ensures(
            AgentSession::threshold_context_tokens,
            (before, message, boundary, estimate),
            tokens,
        ),
        old(session)@.lifecycle.auto_compaction_enabled,
        boundary <= 0 || message.timestamp > boundary,
        !overflow || old(session)@.agent.model.provider@ != message.provider@ || old(session)@.agent.model.id@ != message.model@,
    ensures
        check == (CompactionCheck::Threshold { tokens }),
        final(session)@ == old(session)@,
{
}

/// A look at an answer decides with what the answer itself shows of the context, and with the time of
/// the last compaction.
pub proof fn law_a_look_decides_by_the_answer(
    session: &mut AgentSession,
    twin: &mut AgentSession,
    message: &AssistantMessage,
    entry: &CompactionEntry,
    estimate: ContextEstimate,
    overflow: bool,
    boundary: i64,
    check: CompactionCheck,
    decision: CompactionCheck,
)
    requires
        call_ensures(
            AgentSession::check_compaction,
            (session, message, Some(entry), estimate),
            check,
        ),
        call_ensures(
            overflow::is_context_overflow,
            (message, old(session)@.agent.model.context_window),
            overflow,
        ),
        boundary == match timestamp::timestamp_millis(
            vstd::utf8::encode_utf8(entry.timestamp@),
        ) {
            Some(millis) => millis,
            None => 0,
        },
        old(twin)@ == old(session)@,
        call_ensures(
            AgentSession::compaction_decision,
            (twin, message, overflow, boundary, estimate),
            decision,
        ),
    ensures
        check == decision,
        final(session)@.agent == final(twin)@.agent,
        final(session)@.lifecycle == final(twin)@.lifecycle,
        final(session)@.outbox.len() == final(twin)@.outbox.len(),
{
}

/// Without a compaction before, every answer counts.
pub proof fn law_without_a_compaction_every_answer_counts(
    session: &mut AgentSession,
    twin: &mut AgentSession,
    message: &AssistantMessage,
    estimate: ContextEstimate,
    overflow: bool,
    check: CompactionCheck,
    decision: CompactionCheck,
)
    requires
        call_ensures(
            AgentSession::check_compaction,
            (session, message, None::<&CompactionEntry>, estimate),
            check,
        ),
        call_ensures(
            overflow::is_context_overflow,
            (message, old(session)@.agent.model.context_window),
            overflow,
        ),
        old(twin)@ == old(session)@,
        call_ensures(
            AgentSession::compaction_decision,
            (twin, message, overflow, 0i64, estimate),
            decision,
        ),
    ensures
        check == decision,
        final(session)@.agent == final(twin)@.agent,
        final(session)@.lifecycle == final(twin)@.lifecycle,
        final(session)@.outbox.len() == final(twin)@.outbox.len(),
{
}

/// The threshold is compared with what a good answer reports; for one that failed or reports nothing,
/// with the estimate, as long as that rests on an answer from behind the last compaction.
pub proof fn law_the_threshold_takes_what_is_reported(
    session: &AgentSession,
    message: &AssistantMessage,
    boundary: i64,
    estimate: ContextEstimate,
    reported: u64,
    context: Vec<AgentMessage>,
    tokens: u64,
)
    requires
        call_ensures(
            AgentSession::threshold_context_tokens,
            (session, message, boundary, estimate),
            tokens,
        ),
        call_ensures(stats::calculate_context_tokens, (&message.usage,), reported),
        call_ensures(AgentSession::context_messages, (session,), context),
    ensures
        message.stop_reason != StopReason::Error && reported > 0 ==> tokens == reported,
        message.stop_reason == StopReason::Error || reported == 0 ==> {
            &&& estimate.last_usage_index is None ==> tokens == 0
            &&& estimate.last_usage_index matches Some(i) ==> {
                &&& i >= context@.len() ==> tokens == estimate.tokens
                &&& i < context@.len() ==> (match context@[i as int] {
                    AgentMessage::Llm(Message::Assistant(a)) => tokens == if boundary > 0
                        && a.timestamp <= boundary {
                        0
                    } else {
                        estimate.tokens
                    },
                    _ => tokens == estimate.tokens,
                })
            }
        },
{
}

/// The settings are handed to the engine as they are, and the threshold is looked at exactly where
/// automatic compaction is on and the window is known.
pub proof fn law_the_threshold_needs_a_window(
    session: &AgentSession,
    r: Option<(u64, CompactionSettings)>,
)
    requires
        call_ensures(AgentSession::compact_before_next_assistant_response, (session,), r),
    ensures
        r is Some <==> session@.lifecycle.auto_compaction_enabled
            && session@.agent.model.context_window > 0,
        r matches Some((window, settings)) ==> {
            &&& window == session@.agent.model.context_window
            &&& settings.enabled == session@.settings.compaction.enabled
            &&& settings.reserve_tokens == session@.settings.compaction.reserve_tokens
            &&& settings.keep_recent_tokens == session@.settings.compaction.keep_recent_tokens
        },
{
}

/// A summary is retried as the settings say, ten times at most.
pub proof fn law_summaries_are_retried_ten_times_at_most(
    session: &AgentSession,
    policy: SummarizationRetryPolicy,
    asked: u64,
    allowed: u32,
)
    requires
        call_ensures(AgentSession::summarization_retry_policy, (session,), policy),
        call_ensures(clamp_summarization_max_retries, (asked,), allowed),
    ensures
        policy.enabled == session@.settings.retry.enabled,
        policy.base_delay_ms == session@.settings.retry.base_delay_ms,
        session@.settings.retry.max_retries == asked ==> policy.max_retries == allowed,
        asked <= 10 ==> allowed == asked,
        asked > 10 ==> allowed == 10,
{
}

/// Each notice of a summary's retries is told once, as what it is.
pub proof fn law_retries_of_a_summary_are_told(
    session: &mut AgentSession,
    source: SummarizationRetrySource,
    notice: SummarizationRetryNotice,
    done: (),
)
    requires
        call_ensures(
            AgentSession::summarization_retry_callbacks,
            (session, source, notice),
            done,
        ),
    ensures
        final(session)@.agent == old(session)@.agent,
        final(session)@.outbox.len() == old(session)@.outbox.len() + 1,
        final(session)@.outbox.drop_last() == old(session)@.outbox,
        ({
            let last = final(session)@.outbox.last();
            &&& notice matches SummarizationRetryNotice::Scheduled {
                attempt,
                max_attempts,
                delay_ms,
                error_message,
            } ==> last == Effect::Emit(
                AgentSessionEvent::SummarizationRetryScheduled {
                    attempt,
                    max_attempts,
                    delay_ms,
                    error_message,
                },
            )
            &&& notice is AttemptStart ==> last == Effect::Emit(
                AgentSessionEvent::SummarizationRetryAttemptStart { source },
            )
            &&& notice is Finished ==> last == Effect::Emit(
                AgentSessionEvent::SummarizationRetryFinished,
            )
        }),
{
    assert(final(session)@.outbox.drop_last() =~= old(session)@.outbox);
}

/// A compaction takes its summary from the runtime where there is one, with the credentials that it
/// has; else from the stream of its own; and without either it fails.
pub proof fn law_the_runtime_comes_first(
    runtime: Option<Result<Option<SummarizationAuth>, String>>,
    handle: Option<&CompactionStreamHandle>,
    r: Result<CompactionInputs, CompactionError>,
)
    requires
        call_ensures(resolve_compaction_inputs, (runtime, handle), r),
    ensures
        runtime matches Some(Ok(Some(auth))) ==> r == Ok::<CompactionInputs, CompactionError>(
            CompactionInputs::Runtime(auth),
        ),
        runtime matches Some(Ok(None)) ==> (r matches Ok(CompactionInputs::Runtime(auth))
            && auth.api_key is None && auth.headers is None && auth.env is None),
        runtime matches Some(Err(error)) ==> (r matches Err(CompactionError::SummarizationFailed(t))
            && t@ == "auth resolution failed: "@ + error@),
        runtime is None && handle is Some ==> (r matches Ok(
            CompactionInputs::Override { stream_fn, api_key },
        ) && stream_fn == handle->0.stream_fn && api_key == handle->0.api_key),
        runtime is None && handle is None ==> (r matches Err(
            CompactionError::SummarizationFailed(t),
        ) && t@ == "No model runtime configured for "@ + "compaction"@),
{
}

/// An operation that needs a summary fails without a runtime, and where its credentials cannot be
/// had; otherwise it gets them.
pub proof fn law_an_operation_needs_a_runtime(
    operation: &str,
    runtime: Option<Result<Option<SummarizationAuth>, String>>,
    r: Result<CompactionInputs, CompactionError>,
)
    requires
        call_ensures(resolve_summarization_inputs, (operation, runtime), r),
    ensures
        r is Ok <==> runtime is Some && runtime->0 is Ok,
        runtime matches Some(Ok(Some(auth))) ==> r == Ok::<CompactionInputs, CompactionError>(
            CompactionInputs::Runtime(auth),
        ),
        runtime is None ==> (r matches Err(CompactionError::SummarizationFailed(t)) && t@
            == "No model runtime configured for "@ + operation@),
        runtime matches Some(Err(error)) ==> (r matches Err(CompactionError::SummarizationFailed(t))
            && t@ == "auth resolution failed: "@ + error@),
{
}

/// A compaction begins with the branch, for the reason and with the words that it was asked for.
pub proof fn law_a_compaction_begins_with_the_branch(
    session: &AgentSession,
    reason: CompactionReason,
    words: Option<String>,
    will_retry: bool,
    is_manual: bool,
    handlers: bool,
    core: CompactionCore,
)
    requires
        call_ensures(
            AgentSession::run_compaction_core,
            (session, reason, words, will_retry, is_manual, handlers),
            core,
        ),
    ensures
        core.step is ReadBranch,
        core.reason == reason,
        core.custom_instructions == words,
        core.will_retry == will_retry,
        core.is_manual == is_manual,
        core.has_before_handlers == handlers,
{
}

/// A compaction that is cancelled while it waits for the branch, the credentials, the extensions or
/// the storage is over and changes nothing; while extensions are told of it, it has succeeded
/// already, and its entry is told.
pub proof fn law_a_cancelled_compaction_is_over(
    session: &mut AgentSession,
    core: CompactionCore,
    r: CompactionCore,
)
    requires
        call_ensures(AgentSession::advance_compaction, (session, core, CoreReply::Cancelled), r),
    ensures
        core.step is ReadBranch || core.step is ResolveInputs || core.step is AskExtensions
            || core.step is Store ==> r.step == CoreStep::Done(Err(CompactionError::Cancelled))
            && final(session)@ == old(session)@,
        core.step matches CoreStep::TellExtensions { result, saved } ==> r.step == CoreStep::Done(
            Ok(Some(result)),
        ) && final(session)@.outbox == old(session)@.outbox.push(
            Effect::Emit(AgentSessionEvent::EntryAppended { entry: saved }),
        ) && final(session)@.agent == old(session)@.agent,
        core.step is Prepare || core.step is RunEngine || core.step is Rebuild || core.step is Done
            ==> r.step == core.step && final(session)@ == old(session)@,
{
}

/// Until the summary is stored, each step leads to the next: the branch to the preparation, where
/// there is something to compact on to the credentials, from there to the extensions where one wants
/// to be asked and else to the engine, and from the engine to the storage.
pub proof fn law_the_steps_up_to_the_storage(
    session: &mut AgentSession,
    core: CompactionCore,
    reply: CoreReply,
    r: CompactionCore,
)
    requires
        call_ensures(AgentSession::advance_compaction, (session, core, reply), r),
    ensures
        r.reason == core.reason && r.will_retry == core.will_retry && r.is_manual == core.is_manual
            && r.custom_instructions == core.custom_instructions && r.has_before_handlers
            == core.has_before_handlers,
        core.step is ReadBranch && reply is BranchRead ==> r.step is Prepare,
        core.step is Prepare && reply == CoreReply::Prepared(Ok(true)) ==> r.step is ResolveInputs,
        core.step is Prepare && reply == CoreReply::Prepared(Ok(false)) ==> r.step
            == CoreStep::Done(Ok(None)),
        core.step is ResolveInputs && core.has_before_handlers ==> (reply
            matches CoreReply::InputsResolved(Ok(inputs)) ==> r.step == CoreStep::AskExtensions {
            inputs,
        }),
        core.step is ResolveInputs && !core.has_before_handlers ==> (reply
            matches CoreReply::InputsResolved(Ok(inputs)) ==> (r.step matches CoreStep::RunEngine {
            inputs: given,
            custom_instructions,
        } && given == inputs && custom_instructions == if core.is_manual {
            core.custom_instructions
        } else {
            None
        })),
        core.step is RunEngine ==> (reply matches CoreReply::EngineDone(Ok(result)) ==> r.step
            == CoreStep::Store { result, from_hook: false }),
        step_rank(core.step) < 6 ==> final(session)@ == old(session)@,
{
}

/// What extensions say before a compaction: a cancellation ends it, a summary of theirs is stored in
/// place of the engine's and marked so, and otherwise the engine gets its turn with the credentials
/// that were resolved.
pub proof fn law_extensions_answer_before_a_compaction(
    session: &mut AgentSession,
    core: CompactionCore,
    answer: BeforeCompactResult,
    r: CompactionCore,
)
    requires
        call_ensures(
            AgentSession::advance_compaction,
            (session, core, CoreReply::ExtensionsAnswered(answer)),
            r,
        ),
        core.step is AskExtensions,
    ensures
        final(session)@ == old(session)@,
        answer.cancel ==> r.step == CoreStep::Done(Err(CompactionError::Cancelled)),
        !answer.cancel && answer.compaction is Some ==> (r.step matches CoreStep::Store {
            result,
            from_hook,
        } && from_hook && result.from_hook == Some(true) && result.summary
            == answer.compaction->0.summary && result.first_kept_entry_id
            == answer.compaction->0.first_kept_entry_id && result.tokens_before
            == answer.compaction->0.tokens_before && result.details == answer.compaction->0.details
            && result.usage == answer.compaction->0.usage),
        !answer.cancel && answer.compaction is None ==> (r.step matches CoreStep::RunEngine {
            inputs,
            custom_instructions,
        } && inputs == core.step->AskExtensions_inputs && custom_instructions == if core.is_manual {
            core.custom_instructions
        } else {
            None
        }),
{
}

/// A failure at any step ends the compaction with it, and the session stays as it is.
pub proof fn law_a_failure_ends_a_compaction(
    session: &mut AgentSession,
    core: CompactionCore,
    reply: CoreReply,
    r: CompactionCore,
)
    requires
        call_ensures(AgentSession::advance_compaction, (session, core, reply), r),
    ensures
        core.step is Prepare ==> (reply matches CoreReply::Prepared(Err(e)) ==> r.step
            == CoreStep::Done(Err(e))),
        core.step is ResolveInputs ==> (reply matches CoreReply::InputsResolved(Err(e)) ==> r.step
            == CoreStep::Done(Err(e))),
        core.step is RunEngine ==> (reply matches CoreReply::EngineDone(Err(e)) ==> r.step
            == CoreStep::Done(Err(e))),
        core.step is Store ==> (reply matches CoreReply::Stored(Err(e)) ==> (r.step
            matches CoreStep::Done(Err(CompactionError::SummarizationFailed(t))) && t@
            == "failed to persist compaction: "@ + e@)),
        core.step is Rebuild ==> (reply matches CoreReply::Rebuilt(Err(e)) ==> r.step
            == CoreStep::Done(Err(e))),
        (reply matches CoreReply::Rebuilt(Err(_))) ==> final(session)@ == old(session)@,
        (reply matches CoreReply::Stored(_)) ==> final(session)@ == old(session)@,
        core.step is Done ==> r.step == core.step && final(session)@ == old(session)@,
{
}

/// Behind a stored summary the transcript is the rebuilt one, and the result says how many tokens are
/// left. A stored compaction goes to the extensions first and to the listeners after them, with a
/// failure of theirs before it; any other entry goes to the listeners at once.
pub proof fn law_a_stored_summary_replaces_the_transcript(
    session: &mut AgentSession,
    core: CompactionCore,
    reply: CoreReply,
    r: CompactionCore,
)
    requires
        call_ensures(AgentSession::advance_compaction, (session, core, reply), r),
    ensures
        core.step matches CoreStep::Store { result, from_hook } ==> (reply matches CoreReply::Stored(
            Ok(saved),
        ) ==> r.step == CoreStep::Rebuild { result, saved }),
        core.step matches CoreStep::Rebuild { result, saved } ==> (reply matches CoreReply::Rebuilt(
            Ok((transcript, tokens)),
        ) ==> {
            let told = match saved {
                Some(SessionEntry::Compaction(_)) => old(session)@.outbox,
                Some(entry) => old(session)@.outbox.push(
                    Effect::Emit(AgentSessionEvent::EntryAppended { entry }),
                ),
                None => old(session)@.outbox,
            };
            let counted = match r.step {
                CoreStep::TellExtensions { result: c, saved: entry } => if saved == Some(entry)
                    && entry is Compaction {
                    Some(c)
                } else {
                    None
                },
                CoreStep::Done(Ok(Some(c))) => if saved matches Some(SessionEntry::Compaction(_)) {
                    None
                } else {
                    Some(c)
                },
                _ => None,
            };
            &&& final(session)@.agent.transcript == transcript@
            &&& final(session)@.outbox == told
            &&& counted matches Some(c) && c.estimated_tokens_after == Some(tokens) && c.summary
                == result.summary && c.first_kept_entry_id == result.first_kept_entry_id
                && c.tokens_before == result.tokens_before && c.details == result.details && c.usage
                == result.usage && c.from_hook == result.from_hook
        }),
        core.step matches CoreStep::TellExtensions { result, saved } ==> (reply
            matches CoreReply::ExtensionsTold(answer) ==> {
            let entry = Effect::Emit(AgentSessionEvent::EntryAppended { entry: saved });
            &&& r.step == CoreStep::Done(Ok(Some(result)))
            &&& final(session)@.agent == old(session)@.agent
            &&& answer is Ok ==> final(session)@.outbox == old(session)@.outbox.push(entry)
            &&& answer matches Err(e) ==> final(session)@.outbox == old(session)@.outbox.push(
                Effect::RunnerFailure(e),
            ).push(entry)
        }),
{
}

/// Extensions cancel a compaction only by saying so: no answer and a failure of theirs do not, and a
/// failure is reported.
pub proof fn law_only_a_word_cancels_a_compaction(
    session: &mut AgentSession,
    answer: Result<Option<CancelResult>, ExtensionRunnerError>,
    r: BeforeCompactResult,
)
    requires
        call_ensures(AgentSession::extension_before_compact, (session, answer), r),
    ensures
        r.cancel <==> (answer matches Ok(Some(c)) && c.cancel),
        r.compaction is None,
        answer is Ok ==> final(session)@ == old(session)@,
        answer matches Err(e) ==> final(session)@.outbox == old(session)@.outbox.push(
            Effect::RunnerFailure(e),
        ) && final(session)@.agent == old(session)@.agent,
{
}

/// What is stored of a compaction is its result; a mark says where extensions gave it.
pub proof fn law_the_result_is_stored(
    result: &CompactionResult,
    from_hook: bool,
    draft: CompactionDraft,
)
    requires
        call_ensures(compaction_draft, (result, from_hook), draft),
    ensures
        draft.summary@ == result.summary@,
        draft.first_kept_entry_id@ == result.first_kept_entry_id@,
        result.tokens_before <= i64::MAX ==> draft.tokens_before == result.tokens_before,
        result.tokens_before > i64::MAX ==> draft.tokens_before == i64::MAX,
        draft.details == result.details,
        draft.usage == result.usage,
        draft.from_hook == Some(true) <==> from_hook,
        draft.from_hook is Some <==> from_hook,
{
}

/// The events and the span of a compaction name its reason, and whether a retry follows.
pub proof fn law_a_compaction_names_its_reason(
    core: &CompactionCore,
    id: String,
    before: AgentSessionEvent,
    after: AgentSessionEvent,
    span: CompactionSpanStart,
)
    requires
        call_ensures(CompactionCore::before_event, (core,), before),
        call_ensures(CompactionCore::after_event, (core,), after),
        call_ensures(CompactionCore::span_start, (core, id), span),
    ensures
        before matches AgentSessionEvent::CompactionStart { reason } && reason == core.reason,
        after matches AgentSessionEvent::CompactionEnd {
            reason,
            result,
            aborted,
            will_retry,
            error_message,
        } && reason == core.reason && result is None && !aborted && will_retry == core.will_retry
            && error_message is None,
        span.session_id@ == id@,
        span.lane_name@ == "main"@,
        span.recovery == core.will_retry,
        core.reason == CompactionReason::Manual ==> span.operation_id@ == "compaction-"@
            + "manual"@,
        core.reason == CompactionReason::Threshold ==> span.operation_id@ == "compaction-"@
            + "threshold"@,
        core.reason == CompactionReason::Overflow ==> span.operation_id@ == "compaction-"@
            + "overflow"@,
{
}

/// A request that succeeded is good and leaves the compaction's span open; a failure is one of both,
/// in the same words.
pub proof fn law_a_failed_request_fails_both_spans(
    result: &Result<CompactionResult, CompactionError>,
    error: &CompactionError,
    words: String,
    r: (SpanStatus, Option<SpanStatus>),
)
    requires
        call_ensures(record_compaction_result_status, (result,), r),
        call_ensures(CompactionError::message, (error,), words),
    ensures
        *result is Ok ==> r.0 is Good && r.1 is None,
        *result == Err::<CompactionResult, CompactionError>(*error) ==> (r.0 matches SpanStatus::Error {
            message,
        } && message@ == words@) && (r.1 matches Some(SpanStatus::Error { message }) && message@
            == words@),
{
}

/// The words of a failure are those that it carries; a cancelled compaction says so.
pub proof fn law_failures_speak_in_their_words(error: &CompactionError, words: String)
    requires
        call_ensures(CompactionError::message, (error,), words),
    ensures
        *error matches CompactionError::AlreadyCompacted(t) ==> words@ == t@,
        *error matches CompactionError::NothingToCompact(t) ==> words@ == t@,
        *error matches CompactionError::SummarizationFailed(t) ==> words@ == t@,
        *error matches CompactionError::MessageConversion(t) ==> words@ == t@,
        *error is Cancelled ==> words@ == "Compaction cancelled"@,
{
}

/// An automatic compaction takes the place of one in progress, which is cancelled first, and its
/// start is told last; it owns its slot from then on.
pub proof fn law_an_automatic_compaction_begins(
    session: &mut AgentSession,
    reason: CompactionReason,
    will_retry: bool,
    token: CancelToken,
    run: AutoCompaction,
)
    requires
        call_ensures(AgentSession::run_auto_compaction, (session, reason, will_retry, token), run),
    ensures
        run.reason == reason,
        run.will_retry == will_retry,
        run.owner == final(session)@.slots.auto_compaction_owner,
        final(session)@.slots.auto_compaction == Some(token),
        final(session)@.outbox.last() == Effect::EmitAwaited(
            AgentSessionEvent::CompactionStart { reason },
        ),
        old(session)@.slots.auto_compaction matches Some(before) ==> final(session)@.outbox == old(session)@.outbox.push(Effect::Cancel(before)).push(
            Effect::EmitAwaited(AgentSessionEvent::CompactionStart { reason }),
        ),
        old(session)@.slots.auto_compaction is None ==> final(session)@.outbox == old(session)@.outbox.push(Effect::EmitAwaited(AgentSessionEvent::CompactionStart { reason })),
        final(session)@.agent == old(session)@.agent,
{
    if let Some(before) = old(session)@.slots.auto_compaction {
        assert(final(session)@.outbox =~= old(session)@.outbox.push(Effect::Cancel(before)).push(
            Effect::EmitAwaited(AgentSessionEvent::CompactionStart { reason }),
        ));
    } else {
        assert(final(session)@.outbox =~= old(session)@.outbox.push(
            Effect::EmitAwaited(AgentSessionEvent::CompactionStart { reason }),
        ));
    }
}

/// The end of an automatic compaction is told once, with its result, that it was cancelled, or why it
/// failed. The run goes on after a summary where a retry follows or messages wait, and never
/// otherwise; for a retry the failed answer leaves the transcript. The slot is free where it is still
/// this compaction's.
pub proof fn law_an_automatic_compaction_ends(
    session: &mut AgentSession,
    run: AutoCompaction,
    result: Result<Option<CompactionResult>, CompactionError>,
    goes: bool,
)
    requires
        call_ensures(AgentSession::auto_compaction_finished, (session, run, result), goes),
    ensures
        ({
            let s = old(session)@;
            let t = final(session)@;
            let summary = result is Ok && result->Ok_0 is Some;
            &&& goes <==> summary && (run.will_retry || s.agent.has_queued())
            &&& t.outbox.len() == s.outbox.len() + 1
            &&& t.outbox.drop_last() == s.outbox
            &&& t.outbox.last() matches Effect::EmitAwaited(
                AgentSessionEvent::CompactionEnd {
                    reason,
                    result: told,
                    aborted,
                    will_retry,
                    error_message,
                },
            ) && reason == run.reason && (told == if summary {
                result->Ok_0
            } else {
                None
            }) && (aborted <==> result is Err && result->Err_0 is Cancelled) && (will_retry
                <==> summary && run.will_retry) && (error_message is Some <==> result is Err
                && !(result->Err_0 is Cancelled)) && (error_message is Some && run.reason
                == CompactionReason::Overflow ==> error_message->0@
                == "Context overflow recovery failed: "@ + result->Err_0.text()) && (error_message
                is Some && run.reason != CompactionReason::Overflow ==> error_message->0@
                == "Auto-compaction failed: "@ + result->Err_0.text())
            &&& (summary && run.will_retry && s.agent.transcript.len() > 0
                && (s.agent.transcript.last() matches AgentMessage::Llm(Message::Assistant(_))))
                ==> t.agent.transcript == s.agent.transcript.drop_last()
            &&& !(summary && run.will_retry) ==> t.agent == s.agent
            &&& s.slots.auto_compaction_owner == run.owner ==> t.slots.auto_compaction is None
            &&& s.slots.auto_compaction_owner != run.owner ==> t.slots.auto_compaction
                == s.slots.auto_compaction
        }),
{
    let u = choose|u: SessionModel| #[trigger]
        auto_end_told(old(session)@, u, run, result) && final(session)@ == auto_compaction_over(
            u,
            run,
            result,
        );
    assert(auto_end_told(old(session)@, u, run, result));
    assert(u.outbox.drop_last() =~= old(session)@.outbox);
}

/// A manual compaction begins by taking its slot: one in progress is cancelled first, and the start
/// is told last.
pub proof fn law_a_manual_compaction_begins(
    session: &mut AgentSession,
    token: CancelToken,
    done: (),
)
    requires
        call_ensures(AgentSession::begin_manual_compaction, (session, token), done),
    ensures
        final(session)@.slots.compaction == Some(token),
        final(session)@.outbox.last() == Effect::EmitAwaited(
            AgentSessionEvent::CompactionStart { reason: CompactionReason::Manual },
        ),
        old(session)@.slots.compaction is None ==> final(session)@.outbox.drop_last() == old(session)@.outbox,
        old(session)@.slots.compaction matches Some(before) ==> final(session)@.outbox.drop_last()
            == old(session)@.outbox.push(Effect::Cancel(before)),
        final(session)@.agent == old(session)@.agent,
{
    if let Some(before) = old(session)@.slots.compaction {
        assert(final(session)@.outbox.drop_last() =~= old(session)@.outbox.push(
            Effect::Cancel(before),
        ));
    } else {
        assert(final(session)@.outbox.drop_last() =~= old(session)@.outbox);
    }
}

/// A manual compaction ends with its summary or why there is none: that is what the caller gets and
/// what is told, once; then its slot is free and the event pump is put back.
pub proof fn law_a_manual_compaction_ends(
    session: &mut AgentSession,
    result: Result<Option<CompactionResult>, CompactionError>,
    none_error: CompactionError,
    r: Result<CompactionResult, CompactionError>,
)
    requires
        call_ensures(
            AgentSession::manual_compaction_finished,
            (session, result, none_error),
            r,
        ),
    ensures
        result matches Ok(Some(c)) ==> r == Ok::<CompactionResult, CompactionError>(c),
        result matches Ok(None) ==> r == Err::<CompactionResult, CompactionError>(none_error),
        result matches Err(e) ==> r == Err::<CompactionResult, CompactionError>(e),
        final(session)@.slots.compaction is None,
        final(session)@.agent == old(session)@.agent,
        ({
            let n = old(session)@.outbox.len() as int;
            let t = final(session)@.outbox;
            &&& t.len() == n + 2
            &&& t.take(n) == old(session)@.outbox
            &&& t[n + 1] == Effect::ReconnectPump
            &&& t[n] matches Effect::EmitAwaited(
                AgentSessionEvent::CompactionEnd {
                    reason,
                    result: told,
                    aborted,
                    will_retry,
                    error_message,
                },
            ) && reason == CompactionReason::Manual && !will_retry && (told is Some <==> r is Ok) && (
            r is Ok ==> told->0 == r->Ok_0) && (aborted <==> r is Err && r->Err_0 is Cancelled) && (
            error_message is Some <==> r is Err && !(r->Err_0 is Cancelled)) && (error_message
                is Some ==> error_message->0@ == "Compaction failed: "@ + r->Err_0.text())
        }),
{
    let u = choose|u: SessionModel| #[trigger]
        manual_end_told(old(session)@, u, r) && final(session)@ == (SessionModel {
            slots: AbortSlots { compaction: None, ..u.slots },
            ..u
        }).put(Effect::ReconnectPump);
    assert(manual_end_told(old(session)@, u, r));
    assert(final(session)@.outbox.take(old(session)@.outbox.len() as int) =~= old(session)@.outbox);
}

/// To make way for a manual compaction the pump is taken off before anything is aborted.
pub proof fn law_the_pump_is_off_before_a_manual_compaction(session: &mut AgentSession, done: ())
    requires
        call_ensures(AgentSession::compact, (session,), done),
    ensures
        final(session)@.outbox.len() > old(session)@.outbox.len(),
        final(session)@.outbox.take(old(session)@.outbox.len() as int) == old(session)@.outbox,
        final(session)@.outbox[old(session)@.outbox.len() as int] == Effect::DisconnectPump,
        final(session)@.agent.transcript == old(session)@.agent.transcript,
{
    let n = old(session)@.outbox.len() as int;
    assert(final(session)@.outbox.take(n) =~= old(session)@.outbox);
}

/// The engine is set as the settings say, each part by the part of that name.
pub proof fn law_the_engine_is_set_as_resolved(
    resolved: ResolvedCompactionSettings,
    r: CompactionSettings,
)
    requires
        call_ensures(settings_to_pure, (resolved,), r),
    ensures
        r.enabled == resolved.enabled,
        r.reserve_tokens == resolved.reserve_tokens,
        r.keep_recent_tokens == resolved.keep_recent_tokens,
{
}

} // verus!
