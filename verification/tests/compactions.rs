//! Compaction: when it runs, its steps, and what is told of it.

use agent_session::compaction::{
    clamp_summarization_max_retries, compaction_draft, record_compaction_result_status,
    resolve_compaction_inputs, resolve_summarization_inputs, BeforeCompactResult, CompactionCheck,
    CompactionCore, CompactionError, CompactionInputs, CompactionSettings, CompactionStreamHandle,
    SummarizationAuth,
    ContextEstimate, CoreReply, CoreStep, SpanStatus, SummarizationRetryNotice,
};
use agent_session::events::{
    AgentSessionEvent, CompactionReason, SummarizationRetrySource,
};
use agent_session::extension_runner::{CancelResult, ExtensionRunnerError};
use agent_session::messages::{
    AgentMessage, AssistantMessage, CompactionEntry, CompactionResult, Message, Model, SessionEntry,
    StopReason, Usage,
};
use agent_session::prompt::user_text;
use agent_session::session::{
    AgentSession, AgentSessionConfig, CancelToken, Effect, ResolvedCompactionSettings,
    RetrySettings, SessionSettings,
};

fn settings() -> SessionSettings {
    SessionSettings {
        retry: RetrySettings { enabled: true, max_retries: 3, base_delay_ms: 1_000 },
        compaction: ResolvedCompactionSettings {
            enabled: true,
            reserve_tokens: 1_000,
            keep_recent_tokens: 1_000,
        },
        default_thinking_level: None,
        default_provider: None,
        default_model: None,
        shell_command_prefix: None,
        shell_path: None,
    }
}

fn test_model() -> Model {
    Model {
        id: "m".to_owned(),
        name: "m".to_owned(),
        api: "test-api".to_owned(),
        provider: "test-provider".to_owned(),
        base_url: String::new(),
        reasoning: false,
        thinking_level_map: None,
        context_window: 8_192,
        max_tokens: 1_024,
    }
}

fn make_session() -> AgentSession {
    let config = match AgentSessionConfig::test_config("stub".to_owned(), test_model(), settings())
    {
        Ok(config) => config,
        Err(error) => panic!("{error:?}"),
    };
    match AgentSession::new(config) {
        Ok(session) => session,
        Err(error) => panic!("{error:?}"),
    }
}

fn answer(stop_reason: StopReason, error: Option<&str>, tokens: u64) -> AssistantMessage {
    let mut message =
        AssistantMessage::new("test-api", "test-provider", "m", 1_800_000_000_000);
    message.stop_reason = stop_reason;
    message.error_message = error.map(str::to_owned);
    message.usage = Usage { input: tokens, total_tokens: tokens, ..Usage::default() };
    message
}

fn too_long() -> AssistantMessage {
    answer(StopReason::Error, Some("prompt is too long: 999999 tokens > 8192 maximum"), 0)
}

fn no_estimate() -> ContextEstimate {
    ContextEstimate { tokens: 0, last_usage_index: None }
}

fn entry(timestamp: &str) -> CompactionEntry {
    CompactionEntry {
        id: "c".to_owned(),
        timestamp: timestamp.to_owned(),
        summary: "s".to_owned(),
        first_kept_entry_id: "k".to_owned(),
        tokens_before: 1,
        details: None,
        from_hook: None,
        usage: None,
    }
}

fn result() -> CompactionResult {
    CompactionResult {
        summary: "## Goal\nTest summary".to_owned(),
        first_kept_entry_id: "k".to_owned(),
        tokens_before: 100,
        estimated_tokens_after: None,
        details: None,
        usage: None,
        from_hook: None,
    }
}

fn stored() -> CoreReply {
    CoreReply::Stored(Ok(Some(SessionEntry::Compaction(entry("2025-01-01T00:00:00.000Z")))))
}

fn run(s: &mut AgentSession, handlers: bool, replies: Vec<CoreReply>) -> CompactionCore {
    let mut core =
        s.run_compaction_core(CompactionReason::Manual, Some("Focus on file changes".to_owned()), false, true, handlers);
    for reply in replies {
        core = s.advance_compaction(core, reply);
    }
    core
}

fn auth() -> SummarizationAuth {
    SummarizationAuth {
        api_key: Some("key".to_owned()),
        headers: Some(vec![("x-org".to_owned(), Some("7".to_owned())), ("x-old".to_owned(), None)]),
        env: Some(vec![("REGION".to_owned(), "eu".to_owned())]),
    }
}

fn inputs() -> CompactionInputs {
    CompactionInputs::Runtime(auth())
}

fn to_engine() -> Vec<CoreReply> {
    vec![
        CoreReply::BranchRead,
        CoreReply::Prepared(Ok(true)),
        CoreReply::InputsResolved(Ok(inputs())),
    ]
}

fn ends(s: &AgentSession) -> Vec<(CompactionReason, bool, bool, Option<String>)> {
    s.outbox
        .iter()
        .filter_map(|effect| match effect {
            Effect::EmitAwaited(AgentSessionEvent::CompactionEnd {
                reason,
                aborted,
                will_retry,
                error_message,
                ..
            }) => Some((*reason, *aborted, *will_retry, error_message.clone())),
            _ => None,
        })
        .collect()
}

#[test]
fn check_compaction_disabled_returns_false() {
    let mut s = make_session();
    s.agent.transcript.push(AgentMessage::Llm(Message::Assistant(too_long())));
    s.set_auto_compaction_enabled(false);
    assert!(!s.settings.compaction.enabled, "runtime toggle must update persisted settings state");
    assert_eq!(s.check_compaction(&too_long(), None, no_estimate()), CompactionCheck::No);
    assert_eq!(s.messages().len(), 1, "transcript unchanged when disabled");
    assert!(s.outbox.is_empty() && !s.lifecycle.overflow_recovery_attempted);
}

#[test]
fn check_compaction_overflow_error_compacts_and_retries_once() {
    let mut s = make_session();
    let failed = too_long();
    s.agent.transcript.push(AgentMessage::Llm(Message::Assistant(failed.clone())));
    assert_eq!(
        s.check_compaction(&failed, None, no_estimate()),
        CompactionCheck::Run { reason: CompactionReason::Overflow, will_retry: true }
    );
    assert!(s.lifecycle.overflow_recovery_attempted);
    assert!(s.messages().is_empty(), "the failed answer leaves the transcript");
    let auto = s.run_auto_compaction(CompactionReason::Overflow, true, CancelToken(1));
    let should_continue = s.auto_compaction_finished(auto, Ok(Some(result())));
    assert!(should_continue, "error overflow should signal continuation");
}

#[test]
fn check_compaction_overflow_second_attempt_emits_terminal_error() {
    let mut s = make_session();
    s.lifecycle.overflow_recovery_attempted = true;
    assert_eq!(s.check_compaction(&too_long(), None, no_estimate()), CompactionCheck::No);
    assert_eq!(
        ends(&s),
        vec![(
            CompactionReason::Overflow,
            false,
            false,
            Some("Context overflow recovery failed after one compact-and-retry attempt".to_owned())
        )]
    );
    assert_eq!(s.outbox.len(), 1, "no start is told");
}

#[test]
fn check_compaction_overflow_successful_response_compacts_without_retry() {
    let mut s = make_session();
    let mut silent = answer(StopReason::Stop, None, 0);
    silent.usage = Usage {
        input: 10_000,
        output: 500,
        cache_read: 0,
        cache_write: 0,
        total_tokens: 10_500,
    };
    assert_eq!(
        s.check_compaction(&silent, None, no_estimate()),
        CompactionCheck::Run { reason: CompactionReason::Overflow, will_retry: false }
    );
    assert!(!s.lifecycle.overflow_recovery_attempted);
    let auto = s.run_auto_compaction(CompactionReason::Overflow, false, CancelToken(1));
    assert!(s.is_compacting());
    let should_continue = s.auto_compaction_finished(auto, Ok(Some(result())));
    assert!(!should_continue, "successful overflow should not retry");
    assert!(!s.is_compacting(), "should clear compaction latch");
}

#[test]
fn check_compaction_different_model_skips_overflow() {
    let mut s = make_session();
    s.agent.model.context_window = 1_000_000;
    s.agent.transcript.push(user_text("hi", &vec![], 1));
    let mut failed =
        AssistantMessage::new("test-api", "different-provider", "other-model", 1_800_000_000_000);
    failed.stop_reason = StopReason::Error;
    failed.error_message = Some("prompt is too long".to_owned());
    assert_eq!(
        s.check_compaction(&failed, None, no_estimate()),
        CompactionCheck::Threshold { tokens: 0 }
    );
    assert_eq!(s.messages().len(), 1, "transcript unchanged");
    assert!(!s.lifecycle.overflow_recovery_attempted && s.outbox.is_empty());
}

#[test]
fn check_compaction_stale_pre_compaction_usage_ignored() {
    let mut s = make_session();
    let late = entry("2099-01-01T00:00:00.000Z");
    let mut old = AssistantMessage::new("test-api", "test-provider", "m", 1);
    old.stop_reason = StopReason::Stop;
    old.usage = Usage { input: 10_000, output: 500, ..Usage::default() };
    assert_eq!(
        s.check_compaction(&old, Some(&late), no_estimate()),
        CompactionCheck::No,
        "stale pre-compaction message should not trigger compaction"
    );
    assert_eq!(
        s.check_compaction(&too_long(), Some(&late), no_estimate()),
        CompactionCheck::No
    );
    let early = entry("2001-01-01T00:00:00.000Z");
    assert_eq!(
        s.check_compaction(&answer(StopReason::Stop, None, 500), Some(&early), no_estimate()),
        CompactionCheck::Threshold { tokens: 500 }
    );
    let unreadable = entry("soon");
    assert_eq!(
        s.check_compaction(&answer(StopReason::Stop, None, 500), Some(&unreadable), no_estimate()),
        CompactionCheck::Threshold { tokens: 500 }
    );
}

#[test]
fn an_estimate_counts_where_an_answer_reports_nothing() {
    let mut s = make_session();
    let old = answer(StopReason::Stop, None, 40);
    s.agent.transcript.push(AgentMessage::Llm(Message::Assistant(old)));
    let estimate = ContextEstimate { tokens: 77, last_usage_index: Some(0) };
    let failed = answer(StopReason::Error, Some("boom"), 40);
    assert_eq!(s.threshold_context_tokens(&failed, 0, estimate), 77);
    assert_eq!(s.threshold_context_tokens(&failed, 1_800_000_000_000, estimate), 0);
    assert_eq!(s.threshold_context_tokens(&failed, 0, no_estimate()), 0);
    assert_eq!(
        s.threshold_context_tokens(&answer(StopReason::Stop, None, 41), 0, estimate),
        41
    );
    let mut parts = answer(StopReason::Stop, None, 0);
    parts.usage.input = 5;
    parts.usage.cache_write = 4;
    assert_eq!(s.threshold_context_tokens(&parts, 0, estimate), 9);
    parts.usage.input = 0;
    parts.usage.cache_write = 0;
    assert_eq!(s.threshold_context_tokens(&parts, 0, estimate), 77);
}

#[test]
fn the_next_turn_is_measured_only_with_a_window() {
    let mut s = make_session();
    assert_eq!(
        s.compact_before_next_assistant_response(),
        Some((
            8_192,
            CompactionSettings { enabled: true, reserve_tokens: 1_000, keep_recent_tokens: 1_000 }
        ))
    );
    s.agent.model.context_window = 0;
    assert_eq!(s.compact_before_next_assistant_response(), None);
}

#[test]
fn manual_compact_produces_summary_and_rebuilds_messages() {
    let mut s = make_session();
    s.agent.transcript = (0..40).map(|i| user_text("message", &vec![], i)).collect();
    s.compact();
    s.begin_manual_compaction(CancelToken(4));
    let mut replies = to_engine();
    replies.push(CoreReply::EngineDone(Ok(result())));
    replies.push(stored());
    replies.push(CoreReply::Rebuilt(Ok((vec![user_text("summary", &vec![], 1)], 12))));
    let core = run(&mut s, false, replies);
    assert_eq!(s.messages(), vec![user_text("summary", &vec![], 1)]);
    assert!(matches!(&core.step, CoreStep::TellExtensions { .. }));
    assert_eq!(
        core.after_event(),
        AgentSessionEvent::CompactionEnd {
            reason: CompactionReason::Manual,
            result: None,
            aborted: false,
            will_retry: false,
            error_message: None,
        }
    );
    let core = s.advance_compaction(core, CoreReply::ExtensionsTold(Ok(())));
    let counted = || CompactionResult { estimated_tokens_after: Some(12), ..result() };
    let ended = match core.step {
        CoreStep::Done(ended) => ended,
        other => panic!("{other:?}"),
    };
    assert_eq!(ended, Ok(Some(counted())));
    let none = CompactionError::NothingToCompact("Nothing to compact".to_owned());
    let compacted = match s.manual_compaction_finished(ended, none) {
        Ok(compacted) => compacted,
        Err(error) => panic!("{error:?}"),
    };
    assert!(compacted.summary.contains("Test summary"));
    assert!(!compacted.first_kept_entry_id.is_empty());
    assert!(compacted.tokens_before > 0);
    assert!(compacted.estimated_tokens_after.is_some());
    assert!(s.messages().len() < 40, "transcript should be smaller after compaction");
    let told: Vec<&AgentSessionEvent> = s
        .outbox
        .iter()
        .filter_map(|effect| match effect {
            Effect::Emit(event) | Effect::EmitAwaited(event) => Some(event),
            _ => None,
        })
        .collect();
    assert_eq!(
        told,
        vec![
            &AgentSessionEvent::CompactionStart { reason: CompactionReason::Manual },
            &AgentSessionEvent::EntryAppended {
                entry: SessionEntry::Compaction(entry("2025-01-01T00:00:00.000Z")),
            },
            &AgentSessionEvent::CompactionEnd {
                reason: CompactionReason::Manual,
                result: Some(counted()),
                aborted: false,
                will_retry: false,
                error_message: None,
            },
        ]
    );
}

#[test]
fn manual_compact_custom_instructions_passed_to_summary() {
    let mut s = make_session();
    let core = run(&mut s, false, to_engine());
    assert_eq!(
        core.step,
        CoreStep::RunEngine {
            inputs: inputs(),
            custom_instructions: Some("Focus on file changes".to_owned()),
        }
    );
    let mut core = s.run_compaction_core(
        CompactionReason::Threshold,
        Some("not for this".to_owned()),
        false,
        false,
        false,
    );
    for reply in to_engine() {
        core = s.advance_compaction(core, reply);
    }
    assert_eq!(core.step, CoreStep::RunEngine { inputs: inputs(), custom_instructions: None });
}

#[test]
fn cancellation_wins_while_waiting_for_persistence_lock() {
    let mut s = make_session();
    let cancelled = CoreStep::Done(Err(CompactionError::Cancelled));
    let mut replies = to_engine();
    replies.push(CoreReply::EngineDone(Ok(result())));
    replies.push(CoreReply::Cancelled);
    assert_eq!(run(&mut s, false, replies).step, cancelled);
    assert_eq!(run(&mut s, false, vec![CoreReply::Cancelled]).step, cancelled);
    let waiting = vec![CoreReply::BranchRead, CoreReply::Prepared(Ok(true)), CoreReply::Cancelled];
    assert_eq!(run(&mut s, false, waiting).step, cancelled);
    let mut asked = to_engine();
    asked.push(CoreReply::Cancelled);
    assert_eq!(run(&mut s, true, asked).step, cancelled);
    assert!(s.outbox.is_empty() && s.messages().is_empty());
}

#[test]
fn extensions_may_cancel_or_replace_a_compaction() {
    let mut s = make_session();
    let core = run(&mut s, true, to_engine());
    assert_eq!(core.step, CoreStep::AskExtensions { inputs: inputs() });
    assert_eq!(
        core.before_event(),
        AgentSessionEvent::CompactionStart { reason: CompactionReason::Manual }
    );
    let cancel = BeforeCompactResult { cancel: true, compaction: None };
    let core = s.advance_compaction(core, CoreReply::ExtensionsAnswered(cancel));
    assert_eq!(core.step, CoreStep::Done(Err(CompactionError::Cancelled)));
    let core = run(&mut s, true, to_engine());
    let replace = BeforeCompactResult { cancel: false, compaction: Some(result()) };
    let core = s.advance_compaction(core, CoreReply::ExtensionsAnswered(replace));
    assert_eq!(
        core.step,
        CoreStep::Store {
            result: CompactionResult { from_hook: Some(true), ..result() },
            from_hook: true,
        }
    );
}

#[test]
fn the_answer_of_extensions_is_read() {
    let mut s = make_session();
    assert!(s.extension_before_compact(Ok(Some(CancelResult { cancel: true, reason: None }))).cancel);
    assert!(!s.extension_before_compact(Ok(None)).cancel);
    assert!(s.outbox.is_empty());
    let failure = || ExtensionRunnerError::Failed("boom".to_owned());
    assert!(!s.extension_before_compact(Err(failure())).cancel);
    assert_eq!(s.outbox, vec![Effect::RunnerFailure(failure())]);
}

#[test]
fn a_compaction_may_have_nothing_to_do() {
    let mut s = make_session();
    let replies = vec![CoreReply::BranchRead, CoreReply::Prepared(Ok(false))];
    assert_eq!(run(&mut s, false, replies).step, CoreStep::Done(Ok(None)));
    let mut failed = to_engine();
    failed.push(CoreReply::EngineDone(Ok(result())));
    failed.push(CoreReply::Stored(Err("disk".to_owned())));
    let error =
        CompactionError::SummarizationFailed("failed to persist compaction: disk".to_owned());
    assert_eq!(run(&mut s, false, failed).step, CoreStep::Done(Err(error)));
}

#[test]
fn manual_compact_too_small_error() {
    let mut s = make_session();
    s.compact();
    s.begin_manual_compaction(CancelToken(4));
    assert!(s.is_compacting());
    let none = || CompactionError::NothingToCompact("Nothing to compact".to_owned());
    assert_eq!(s.manual_compaction_finished(Ok(None), none()), Err(none()));
    assert!(!s.is_compacting());
    assert_eq!(
        ends(&s),
        vec![(
            CompactionReason::Manual,
            false,
            false,
            Some("Compaction failed: Nothing to compact".to_owned())
        )]
    );
    assert_eq!(s.outbox.first(), Some(&Effect::DisconnectPump));
    assert_eq!(s.outbox.last(), Some(&Effect::ReconnectPump));
}

#[test]
fn manual_compact_already_compacted_error() {
    let mut s = make_session();
    let again = || CompactionError::AlreadyCompacted("Already compacted".to_owned());
    s.begin_manual_compaction(CancelToken(4));
    assert_eq!(s.manual_compaction_finished(Ok(Some(result())), again()), Ok(result()));
    s.begin_manual_compaction(CancelToken(5));
    let second = s.manual_compaction_finished(Err(again()), again());
    assert_eq!(second, Err(again()));
}

#[test]
fn manual_compact_error_emits_error_message() {
    let mut s = make_session();
    s.begin_manual_compaction(CancelToken(4));
    let mut replies = to_engine();
    let exploded = || CompactionError::SummarizationFailed("summarization exploded".to_owned());
    replies.push(CoreReply::EngineDone(Err(exploded())));
    let ended = match run(&mut s, false, replies).step {
        CoreStep::Done(ended) => ended,
        other => panic!("{other:?}"),
    };
    let none = CompactionError::NothingToCompact("Nothing to compact".to_owned());
    assert_eq!(s.manual_compaction_finished(ended, none), Err(exploded()));
    assert_eq!(
        ends(&s),
        vec![(
            CompactionReason::Manual,
            false,
            false,
            Some("Compaction failed: summarization exploded".to_owned())
        )]
    );
    assert!(!s.outbox.iter().any(|effect| matches!(
        effect,
        Effect::Emit(
            AgentSessionEvent::SummarizationRetryScheduled { .. }
                | AgentSessionEvent::SummarizationRetryAttemptStart { .. }
                | AgentSessionEvent::SummarizationRetryFinished
        )
    )));
}

#[test]
fn manual_compact_cancelled_by_abort() {
    let mut s = make_session();
    s.begin_manual_compaction(CancelToken(4));
    s.abort();
    assert!(s.outbox.contains(&Effect::Cancel(CancelToken(4))));
    let none = CompactionError::AlreadyCompacted("Already compacted".to_owned());
    let outcome = s.manual_compaction_finished(Err(CompactionError::Cancelled), none);
    assert_eq!(outcome, Err(CompactionError::Cancelled));
    assert_eq!(ends(&s), vec![(CompactionReason::Manual, true, false, None)]);
}

#[test]
fn run_auto_compaction_queued_message_continuation() {
    let mut s = make_session();
    let auto = s.run_auto_compaction(CompactionReason::Threshold, false, CancelToken(1));
    assert!(!s.auto_compaction_finished(auto, Ok(Some(result()))));
    let queued = "queued follow-up";
    assert!(s.follow_up(queued, queued.to_owned(), &vec![], &vec![], 1).is_ok());
    let auto = s.run_auto_compaction(CompactionReason::Threshold, false, CancelToken(2));
    assert!(
        s.auto_compaction_finished(auto, Ok(Some(result()))),
        "should continue when queued messages exist after auto-compaction"
    );
    let auto = s.run_auto_compaction(CompactionReason::Overflow, true, CancelToken(3));
    assert!(!s.auto_compaction_finished(auto, Ok(None)));
    assert!(!s.is_compacting());
}

#[test]
fn automatic_compactions_say_why_they_failed() {
    let mut s = make_session();
    let failure = || CompactionError::SummarizationFailed("no".to_owned());
    let auto = s.run_auto_compaction(CompactionReason::Overflow, true, CancelToken(1));
    assert!(!s.auto_compaction_finished(auto, Err(failure())));
    let auto = s.run_auto_compaction(CompactionReason::Threshold, false, CancelToken(2));
    assert!(!s.auto_compaction_finished(auto, Err(failure())));
    let auto = s.run_auto_compaction(CompactionReason::Threshold, false, CancelToken(3));
    assert!(!s.auto_compaction_finished(auto, Err(CompactionError::Cancelled)));
    assert_eq!(
        ends(&s),
        vec![
            (
                CompactionReason::Overflow,
                false,
                false,
                Some("Context overflow recovery failed: no".to_owned())
            ),
            (
                CompactionReason::Threshold,
                false,
                false,
                Some("Auto-compaction failed: no".to_owned())
            ),
            (CompactionReason::Threshold, true, false, None),
        ]
    );
}

#[test]
fn a_retry_after_compaction_drops_the_failed_answer() {
    let mut s = make_session();
    s.agent.transcript.push(AgentMessage::Llm(Message::Assistant(too_long())));
    let auto = s.run_auto_compaction(CompactionReason::Overflow, true, CancelToken(1));
    assert!(s.auto_compaction_finished(auto, Ok(Some(result()))));
    assert!(s.messages().is_empty());
    assert_eq!(ends(&s), vec![(CompactionReason::Overflow, false, true, None)]);
}

#[test]
fn manual_compact_no_model_runtime_fails() {
    let mut s = make_session();
    s.compact();
    s.begin_manual_compaction(CancelToken(4));
    let replies = vec![
        CoreReply::BranchRead,
        CoreReply::Prepared(Ok(true)),
        CoreReply::InputsResolved(resolve_compaction_inputs(None, None)),
    ];
    let ended = match run(&mut s, false, replies).step {
        CoreStep::Done(ended) => ended,
        other => panic!("{other:?}"),
    };
    let none = CompactionError::NothingToCompact("Nothing to compact".to_owned());
    let result = s.manual_compaction_finished(ended, none);
    assert!(
        matches!(result, Err(CompactionError::SummarizationFailed(_))),
        "expected SummarizationFailed without model_runtime: {result:?}"
    );
    match result {
        Err(error) => assert_eq!(error.message(), "No model runtime configured for compaction"),
        Ok(result) => panic!("{result:?}"),
    }
}

#[test]
fn a_summary_comes_from_the_runtime_or_from_a_stream() {
    let handle = CompactionStreamHandle { stream_fn: 5, api_key: Some("k".to_owned()) };
    assert_eq!(
        resolve_compaction_inputs(None, Some(&handle)),
        Ok(CompactionInputs::Override { stream_fn: 5, api_key: Some("k".to_owned()) })
    );
    assert_eq!(resolve_compaction_inputs(Some(Ok(Some(auth()))), Some(&handle)), Ok(inputs()));
    assert_eq!(
        resolve_compaction_inputs(Some(Ok(None)), Some(&handle)),
        Ok(CompactionInputs::Runtime(SummarizationAuth {
            api_key: None,
            headers: None,
            env: None,
        }))
    );
    assert_eq!(
        resolve_compaction_inputs(Some(Err("expired".to_owned())), Some(&handle)),
        Err(CompactionError::SummarizationFailed("auth resolution failed: expired".to_owned()))
    );
    assert_eq!(CompactionStreamHandle::new(3).api_key, None);
}

#[test]
fn resolve_summarization_inputs_tree_navigation_label() {
    let result = resolve_summarization_inputs("branch summarization", None);
    let msg = match &result {
        Err(CompactionError::SummarizationFailed(msg)) => msg,
        _ => panic!("expected SummarizationFailed"),
    };
    assert!(
        msg.contains("branch summarization"),
        "error should name the tree-navigation operation, got: {msg}"
    );
    assert!(
        !msg.contains("for compaction"),
        "error must not say 'compaction' for tree navigation, got: {msg}"
    );
    assert_eq!(msg, "No model runtime configured for branch summarization");
}

#[test]
fn failed_compaction_records_error_status_on_both_spans() {
    let failed = Err(CompactionError::SummarizationFailed("summarization exploded".to_owned()));
    let status = || SpanStatus::Error { message: "summarization exploded".to_owned() };
    assert_eq!(record_compaction_result_status(&failed), (status(), Some(status())));
    assert_eq!(record_compaction_result_status(&Ok(result())), (SpanStatus::Good, None));
    let s = make_session();
    let core = s.run_compaction_core(CompactionReason::Overflow, None, true, false, false);
    let span = core.span_start("id".to_owned());
    assert_eq!(span.operation_id, "compaction-overflow");
    assert_eq!(span.lane_name, "main");
    assert!(span.recovery);
}

#[test]
fn a_draft_holds_what_is_stored() {
    let draft =
        compaction_draft(&CompactionResult { tokens_before: u64::MAX, ..result() }, false);
    assert_eq!(draft.tokens_before, i64::MAX);
    assert_eq!(draft.from_hook, None);
    assert_eq!(compaction_draft(&result(), true).from_hook, Some(true));
    assert_eq!(compaction_draft(&result(), true).tokens_before, 100);
}

#[test]
fn retries_of_a_summary_are_told() {
    let mut s = make_session();
    let source = SummarizationRetrySource::Compaction { reason: CompactionReason::Manual };
    s.summarization_retry_callbacks(
        source,
        SummarizationRetryNotice::Scheduled {
            attempt: 1,
            max_attempts: 3,
            delay_ms: 10,
            error_message: "e".to_owned(),
        },
    );
    s.summarization_retry_callbacks(source, SummarizationRetryNotice::AttemptStart);
    s.summarization_retry_callbacks(source, SummarizationRetryNotice::Finished);
    assert_eq!(
        s.outbox,
        vec![
            Effect::Emit(AgentSessionEvent::SummarizationRetryScheduled {
                attempt: 1,
                max_attempts: 3,
                delay_ms: 10,
                error_message: "e".to_owned(),
            }),
            Effect::Emit(AgentSessionEvent::SummarizationRetryAttemptStart { source }),
            Effect::Emit(AgentSessionEvent::SummarizationRetryFinished),
        ]
    );
    assert_eq!(s.summarization_retry_policy().max_retries, 3);
    assert_eq!(clamp_summarization_max_retries(10), 10);
    assert_eq!(clamp_summarization_max_retries(11), 10);
    assert_eq!(clamp_summarization_max_retries(u64::MAX), 10);
}
