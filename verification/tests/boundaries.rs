//! The boundaries of turns and runs.

use agent_session::boundary::{
    append_draft, before_settle_payload, boundary_context, boundary_named, boundary_request, outcome_str,
    persisted_turn_ids, turn_end_payload, Boundary, BoundaryDraft, BoundaryReply, BoundaryStep,
    DraftTask, MessageWait, SettleStep, TurnBoundary, TurnReply, TurnStep,
};
use agent_session::events::AgentSessionEvent;
use agent_session::extension_runner::ExtensionRunnerError;
use agent_session::json::Json;
use agent_session::messages::{
    AgentMessage, AssistantMessage, Message, Model, SessionEntry, SessionMessageEntry, StopReason,
    ToolResultMessage,
};
use agent_session::prompt::{user_text, AgentLoopError};
use agent_session::session::{
    ActivityOutcome, AgentSession, AgentSessionConfig, Effect, ResolvedCompactionSettings,
    RetrySettings, SessionError, SessionSettings,
};
use std::sync::Arc;

fn settings() -> SessionSettings {
    SessionSettings {
        retry: RetrySettings { enabled: true, max_retries: 3, base_delay_ms: 1_000 },
        compaction: ResolvedCompactionSettings {
            enabled: true,
            reserve_tokens: 1_000,
            keep_recent_tokens: 1_000,
        },
        default_thinking_level: None,
        default_provider: None,
        default_model: None,
        shell_command_prefix: None,
        shell_path: None,
    }
}

fn test_model() -> Model {
    Model {
        id: "m".to_owned(),
        name: "m".to_owned(),
        api: "test-api".to_owned(),
        provider: "test-provider".to_owned(),
        base_url: String::new(),
        reasoning: false,
        thinking_level_map: None,
        context_window: 8_192,
        max_tokens: 1_024,
    }
}

fn make_session() -> AgentSession {
    let config = match AgentSessionConfig::test_config("stub".to_owned(), test_model(), settings())
    {
        Ok(config) => config,
        Err(error) => panic!("{error:?}"),
    };
    match AgentSession::new(config) {
        Ok(session) => session,
        Err(error) => panic!("{error:?}"),
    }
}

fn assistant() -> Message {
    Message::Assistant(AssistantMessage::new("test-api", "test-provider", "m", 1))
}

fn user(text: &str) -> AgentMessage {
    user_text(text, &vec![], 1)
}

fn user_message() -> Message {
    match user("hi") {
        AgentMessage::Llm(message) => message,
        other => panic!("{other:?}"),
    }
}

fn tool_result(id: &str) -> ToolResultMessage {
    ToolResultMessage {
        tool_call_id: id.to_owned(),
        tool_name: "read".to_owned(),
        content: Arc::new(vec![]),
        is_error: false,
        timestamp: 1,
    }
}

fn message_entry(id: &str, message: Message) -> SessionEntry {
    SessionEntry::Message(SessionMessageEntry {
        id: id.to_owned(),
        timestamp: "2025-01-01T00:00:00.000Z".to_owned(),
        message: AgentMessage::Llm(message),
    })
}

fn run(s: &mut AgentSession, replies: Vec<BoundaryReply>) -> BoundaryStep {
    let mut dispatch = AgentSession::dispatch_boundary(Boundary::TurnEnd);
    for reply in replies {
        dispatch = s.advance_boundary(dispatch, reply);
    }
    dispatch.step
}

fn committed(wanted: Option<bool>) -> Vec<BoundaryReply> {
    vec![
        BoundaryReply::Previewed(Ok(true)),
        BoundaryReply::Answered(Ok(wanted)),
        BoundaryReply::DraftsChecked(Ok(())),
        BoundaryReply::Committed(Ok(())),
    ]
}

#[test]
fn boundaries_have_names() {
    assert_eq!(boundary_named("turn_end"), Ok(Boundary::TurnEnd));
    assert_eq!(boundary_named("agent_before_settle"), Ok(Boundary::AgentBeforeSettle));
    assert_eq!(
        boundary_named("turn_start"),
        Err(SessionError::ContextEditInvalid("Unknown boundary: turn_start".to_owned()))
    );
    assert_eq!(Boundary::TurnEnd.as_str(), "turn_end");
}

#[test]
fn a_run_continues_only_where_there_is_something_to_answer() {
    let s = make_session();
    let can = |s: &AgentSession, context: Vec<Message>| {
        s.preview_boundary(Boundary::TurnEnd, &context).can_continue
    };
    assert!(!can(&s, vec![]));
    assert!(!can(&s, vec![Message::System("s".to_owned())]));
    assert!(can(&s, vec![user_message()]));
    assert!(!can(&s, vec![user_message(), assistant()]));
    let mut s = make_session();
    s.pending_custom_messages.push(user("x"));
    assert!(can(&s, vec![]));
    assert_eq!(
        s.preview_boundary(Boundary::TurnEnd, &vec![]).pending_messages,
        vec![user("x")]
    );
}

#[test]
fn a_boundary_continues_only_as_asked() {
    let mut s = make_session();
    assert_eq!(run(&mut s, committed(None)), BoundaryStep::Done(Ok(false)));
    assert_eq!(run(&mut s, committed(Some(false))), BoundaryStep::Done(Ok(false)));
    assert_eq!(run(&mut s, committed(Some(true))), BoundaryStep::PreviewAgain);
    let mut replies = committed(Some(true));
    replies.push(BoundaryReply::Previewed(Ok(true)));
    assert_eq!(run(&mut s, replies), BoundaryStep::Done(Ok(true)));
    let mut replies = committed(Some(true));
    replies.push(BoundaryReply::Previewed(Ok(false)));
    assert!(matches!(run(&mut s, replies), BoundaryStep::Done(_)));
}

#[test]
fn failures_of_extensions_at_a_boundary_are_isolated() {
    let mut s = make_session();
    let failed = vec![
        BoundaryReply::Previewed(Ok(true)),
        BoundaryReply::Answered(Err(ExtensionRunnerError::Failed("boom".to_owned()))),
    ];
    assert_eq!(run(&mut s, failed), BoundaryStep::Done(Ok(false)));
    assert_eq!(s.outbox.len(), 1);
    assert!(matches!(&s.outbox[0], Effect::RunnerError(m) if m.contains("boom")));
    let disk = || SessionError::Other("disk".to_owned());
    let failed = vec![BoundaryReply::Previewed(Err(disk()))];
    assert_eq!(run(&mut s, failed), BoundaryStep::Done(Err(disk())));
}

#[test]
fn drafts_become_entries() {
    assert_eq!(
        append_draft(
            BoundaryDraft::Compaction {
                summary: "s".to_owned(),
                first_kept_entry_id: None,
                details: None,
                usage: None,
            },
            u64::MAX
        ),
        DraftTask::Compaction {
            summary: "s".to_owned(),
            first_kept_entry_id: None,
            tokens_before: i64::MAX,
            details: None,
            from_hook: Some(true),
            usage: None,
        }
    );
    assert_eq!(
        append_draft(
            BoundaryDraft::ContextEdit { target_id: "t".to_owned(), replacement: None },
            1
        ),
        DraftTask::ContextEdit { target_id: "t".to_owned(), replacement: None }
    );
}

#[test]
fn committed_drafts_replace_the_transcript() {
    let mut s = make_session();
    let entry = message_entry("1", user_message());
    s.commit_boundary_drafts(vec![entry.clone()], vec![user("x")]);
    assert_eq!(s.messages(), vec![user("x")]);
    assert_eq!(
        s.outbox,
        vec![Effect::Emit(AgentSessionEvent::EntryAppended { entry })]
    );
}

#[test]
fn the_entries_of_a_turn_are_found() {
    let branch = vec![
        message_entry("old", assistant()),
        message_entry("user", user_message()),
        message_entry("answer", assistant()),
        message_entry("result", Message::ToolResult(tool_result("call"))),
        message_entry("other", Message::ToolResult(tool_result("unknown"))),
    ];
    assert_eq!(
        persisted_turn_ids(&branch, &vec![tool_result("call")]),
        (Some("answer".to_owned()), vec!["result".to_owned()])
    );
    assert_eq!(persisted_turn_ids(&vec![], &vec![]), (None, vec![]));
}

#[test]
fn a_turn_ends_with_an_outcome() {
    let mut s = make_session();
    let quiet = |outcome, turn_index| TurnBoundary {
        outcome,
        turn_index,
        step: TurnStep::Done(Ok(false)),
    };
    assert_eq!(
        s.finish_turn_boundary(StopReason::Aborted, false),
        quiet(ActivityOutcome::Aborted, 0)
    );
    assert_eq!(s.finish_turn_boundary(StopReason::Error, false), quiet(ActivityOutcome::Error, 1));
    assert_eq!(
        s.finish_turn_boundary(StopReason::ToolUse, true),
        TurnBoundary {
            outcome: ActivityOutcome::Completed,
            turn_index: 2,
            step: TurnStep::WaitMessages,
        }
    );
    assert_eq!(outcome_str(ActivityOutcome::Completed), "completed");
    let text = |value: &str| Json::Text(value.to_owned());
    assert_eq!(
        before_settle_payload(ActivityOutcome::Error),
        vec![
            ("type".to_owned(), text("agent_before_settle")),
            ("outcome".to_owned(), text("error")),
        ]
    );
    let payload = turn_end_payload(
        2,
        Json::Null,
        Json::Null,
        "answer",
        &vec!["result".to_owned()],
        ActivityOutcome::Completed,
    );
    assert!(payload.contains(&("type".to_owned(), text("turn_end"))));
    assert!(payload.contains(&("turnIndex".to_owned(), Json::Integer(2))));
    assert!(payload.contains(&("outcome".to_owned(), text("completed"))));
}

#[test]
fn extensions_are_asked_with_the_context() {
    let context =
        boundary_context(Json::Null, Json::Bool(true), Json::Null, Json::Null, true);
    let keys: Vec<&str> = context.iter().map(|(key, _)| key.as_str()).collect();
    assert_eq!(
        keys,
        vec!["contextEntries", "contextMessages", "llmMessages", "pendingMessages", "canContinue"]
    );
    assert_eq!(context[4].1, Json::Bool(true));
    let request = boundary_request(before_settle_payload(ActivityOutcome::Error), Json::Null);
    assert_eq!(
        request[2..],
        [
            ("entries".to_owned(), Json::Array(Arc::new(vec![]))),
            ("continue".to_owned(), Json::Bool(false)),
            ("context".to_owned(), Json::Null),
        ]
    );
    assert_eq!(request[0].1, Json::Text("agent_before_settle".to_owned()));
}

fn turn_after(s: &mut AgentSession, replies: Vec<TurnReply>) -> TurnStep {
    let mut turn = s.finish_turn_boundary(StopReason::Stop, true);
    for reply in replies {
        turn = s.advance_turn_boundary(turn, reply);
    }
    turn.step
}

fn found(message: Option<&str>) -> TurnReply {
    TurnReply::EntriesFound {
        message: message.map(str::to_owned),
        tool_results: vec!["t".to_owned()],
    }
}

#[test]
fn a_turn_without_its_entry_is_told() {
    let mut s = make_session();
    let reached = || TurnReply::Waited(MessageWait::Reached);
    assert_eq!(
        turn_after(&mut s, vec![reached(), found(Some("m"))]),
        TurnStep::Dispatch {
            message_entry_id: "m".to_owned(),
            tool_result_entry_ids: vec!["t".to_owned()],
        }
    );
    assert!(s.outbox.is_empty());
    assert_eq!(turn_after(&mut s, vec![reached(), found(None)]), TurnStep::Done(Ok(false)));
    assert_eq!(
        s.outbox,
        vec![Effect::RunnerError(
            "turn_end could not resolve the persisted assistant entry ID".to_owned()
        )]
    );
}

#[test]
fn a_turn_boundary_waits_for_the_messages_of_the_turn() {
    let mut s = make_session();
    let waited = |wait| TurnReply::Waited(wait);
    assert_eq!(turn_after(&mut s, vec![waited(MessageWait::Waiting)]), TurnStep::WaitMessages);
    assert_eq!(turn_after(&mut s, vec![found(Some("m"))]), TurnStep::WaitMessages);
    for wait in [MessageWait::Failed, MessageWait::Cancelled] {
        assert_eq!(turn_after(&mut s, vec![waited(wait)]), TurnStep::Done(Ok(false)));
    }
    assert!(s.outbox.is_empty());
}

#[test]
fn a_failed_boundary_ends_the_run() {
    let mut s = make_session();
    let ended = |result| {
        vec![
            TurnReply::Waited(MessageWait::Reached),
            found(Some("m")),
            TurnReply::Dispatched { result, message: "disk".to_owned() },
        ]
    };
    assert_eq!(turn_after(&mut s, ended(Ok(true))), TurnStep::Done(Ok(true)));
    assert_eq!(turn_after(&mut s, ended(Ok(false))), TurnStep::Done(Ok(false)));
    let disk = SessionError::Other("disk".to_owned());
    assert_eq!(
        turn_after(&mut s, ended(Err(disk))),
        TurnStep::Done(Err(AgentLoopError::Message("disk".to_owned())))
    );
    assert_eq!(s.outbox, vec![Effect::AbortAgent]);
    assert_eq!(s.take_session_error(), Some(SessionError::Other("disk".to_owned())));
}

#[test]
fn a_run_settles_unless_something_waits() {
    let mut s = make_session();
    assert_eq!(s.before_settle_boundary(false), SettleStep::Decided(false));
    assert_eq!(s.before_settle_boundary(true), SettleStep::Dispatch);
    assert_eq!(s.settle_boundary_flushed(), SettleStep::Preview);
    assert!(s.settle_boundary_decided(true, true));
    assert!(!s.settle_boundary_decided(true, false));
    assert!(!s.settle_boundary_decided(false, true));
    s.agent.steering_queue.push(user("x"));
    assert_eq!(s.before_settle_boundary(false), SettleStep::Decided(true));
    assert!(s.settle_boundary_decided(false, true));
    s.lifecycle.boundary_abort_requested = true;
    assert_eq!(s.before_settle_boundary(true), SettleStep::Decided(false));
    assert_eq!(s.settle_boundary_flushed(), SettleStep::Decided(false));
}

#[test]
fn messages_that_waited_are_published_in_order() {
    let mut s = make_session();
    s.pending_custom_messages = vec![user("one"), user("two")];
    let taken = s.flush_pending_custom_messages();
    assert!(s.pending_custom_messages.is_empty());
    for message in taken {
        assert_eq!(s.pending_custom_stored(message, Ok(())), Ok(()));
    }
    assert_eq!(s.messages(), vec![user("one"), user("two")]);
    assert_eq!(s.outbox.len(), 4);
    let disk = || SessionError::Other("disk".to_owned());
    assert_eq!(s.pending_custom_stored(user("three"), Err(disk())), Err(disk()));
    assert_eq!(s.message_count(), 2);
}

#[test]
fn a_run_waits_for_its_own_messages() {
    let mut s = make_session();
    s.counters.processed_message_ends = 4;
    s.begin_agent_run();
    assert_eq!(s.wait_for_processed_messages(0), MessageWait::Reached);
    assert_eq!(s.wait_for_processed_messages(1), MessageWait::Waiting);
    s.counters.processed_message_ends = 5;
    assert_eq!(s.wait_for_processed_messages(1), MessageWait::Reached);
    s.record_session_error(SessionError::Other("disk".to_owned()));
    assert_eq!(s.wait_for_processed_messages(1), MessageWait::Failed);
}
