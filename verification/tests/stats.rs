//! Statistics and the use of the context window.

use agent_session::messages::{
    AgentMessage, AssistantContent, AssistantMessage, BranchSummaryEntry, CompactionEntry,
    CustomAgentMessage, Message,
    Model, SessionEntry, SessionMessageEntry, StopReason, ToolCall, ToolResultMessage, Usage,
};
use agent_session::prompt::user_text;
use agent_session::stats::{calculate_context_tokens, ContextUsage};
use std::sync::Arc;
use agent_session::session::{
    AgentSession, AgentSessionConfig, ResolvedCompactionSettings, RetrySettings, SessionSettings,
};

fn settings() -> SessionSettings {
    SessionSettings {
        retry: RetrySettings { enabled: true, max_retries: 3, base_delay_ms: 1_000 },
        compaction: ResolvedCompactionSettings {
            enabled: true,
            reserve_tokens: 1_000,
            keep_recent_tokens: 1_000,
        },
        default_thinking_level: None,
        default_provider: None,
        default_model: None,
        shell_command_prefix: None,
        shell_path: None,
    }
}

fn test_model() -> Model {
    Model {
        id: "m".to_owned(),
        name: "m".to_owned(),
        api: "test-api".to_owned(),
        provider: "test-provider".to_owned(),
        base_url: String::new(),
        reasoning: false,
        thinking_level_map: None,
        context_window: 8_192,
        max_tokens: 1_024,
    }
}

fn session_with(model: Model) -> AgentSession {
    let config = match AgentSessionConfig::test_config("stub".to_owned(), model, settings()) {
        Ok(config) => config,
        Err(error) => panic!("{error:?}"),
    };
    match AgentSession::new(config) {
        Ok(session) => session,
        Err(error) => panic!("{error:?}"),
    }
}

fn make_session() -> AgentSession {
    session_with(test_model())
}

fn summary_usage(input: u64, output: u64) -> Usage {
    Usage {
        input,
        output,
        cache_read: input / 2,
        cache_write: output / 2,
        total_tokens: 0,
    }
}

fn compaction(id: &str, usage: Option<Usage>) -> SessionEntry {
    SessionEntry::Compaction(CompactionEntry {
        id: id.to_owned(),
        timestamp: "2025-01-01T00:00:00.000Z".to_owned(),
        summary: "summary".to_owned(),
        first_kept_entry_id: "kept".to_owned(),
        tokens_before: 1000,
        details: None,
        from_hook: None,
        usage,
    })
}

fn branch_summary(usage: Option<Usage>) -> SessionEntry {
    SessionEntry::BranchSummary(BranchSummaryEntry {
        id: "b".to_owned(),
        timestamp: "2025-01-01T00:00:00.000Z".to_owned(),
        summary: "branch summary".to_owned(),
        usage,
    })
}

fn message(message: AgentMessage) -> SessionEntry {
    SessionEntry::Message(SessionMessageEntry {
        id: "e".to_owned(),
        timestamp: "2025-01-01T00:00:00.000Z".to_owned(),
        message,
    })
}

fn answer(stop_reason: StopReason, usage: Usage) -> AssistantMessage {
    let mut answer = AssistantMessage::new("test-api", "test-provider", "m", 1);
    answer.stop_reason = stop_reason;
    answer.usage = usage;
    answer
}

fn llm(assistant: AssistantMessage) -> SessionEntry {
    message(AgentMessage::Llm(Message::Assistant(assistant)))
}

#[test]
fn context_usage_tokens_when_window_zero_is_none() {
    let mut model = test_model();
    model.context_window = 0;
    let session = session_with(model);
    assert!(session.get_context_usage(&vec![], 10).is_none());
}

#[test]
fn token_totals_saturate_instead_of_overflow() {
    let session = make_session();
    let overflow_usage = summary_usage(u64::MAX, 0);
    let entries = vec![
        compaction("first", Some(overflow_usage)),
        compaction("second", Some(overflow_usage)),
    ];
    let stats = session.get_session_stats(None, "id".to_owned(), &entries, &entries, 0);
    assert_eq!(stats.tokens.input, u64::MAX, "input must saturate at u64::MAX, not overflow");
    assert_eq!(stats.tokens.total, u64::MAX);
}

#[test]
fn stats_include_compaction_and_branch_summary_usage() {
    let session = make_session();
    let entries = vec![
        compaction("c", Some(summary_usage(100, 200))),
        branch_summary(Some(summary_usage(10, 20))),
    ];
    let stats = session.get_session_stats(
        Some("/tmp/s.jsonl".to_owned()),
        "id".to_owned(),
        &entries,
        &entries,
        0,
    );
    assert_eq!(stats.tokens.input, 110, "input should include both summary usages");
    assert_eq!(stats.tokens.output, 220, "output should include both summary usages");
    assert_eq!(stats.tokens.cache_read, 55, "cache_read should include both summary usages");
    assert_eq!(stats.tokens.cache_write, 110, "cache_write should include both summary usages");
    assert_eq!(stats.total_messages, 0);
    assert_eq!(stats.assistant_messages, 0);
    assert_eq!(stats.session_file, Some("/tmp/s.jsonl".to_owned()));
    assert_eq!(stats.session_id, "id");
}

#[test]
fn messages_and_tool_calls_are_counted() {
    let session = make_session();
    let mut assistant = answer(StopReason::ToolUse, Usage { input: 7, ..Usage::default() });
    let call = |id: &str| {
        AssistantContent::ToolCall(ToolCall {
            id: id.to_owned(),
            name: "read".to_owned(),
            arguments: Arc::new(vec![]),
        })
    };
    assistant.content =
        Arc::new(vec![AssistantContent::Text("a".to_owned()), call("1"), call("2")]);
    let result = ToolResultMessage {
        tool_call_id: "1".to_owned(),
        tool_name: "read".to_owned(),
        content: Arc::new(vec![]),
        is_error: false,
        timestamp: 1,
    };
    let entries = vec![
        message(user_text("hi", &vec![], 1)),
        llm(assistant),
        message(AgentMessage::Llm(Message::ToolResult(result))),
        message(AgentMessage::Llm(Message::System("s".to_owned()))),
        SessionEntry::Other { id: "x".to_owned(), kind: "label".to_owned() },
    ];
    let stats = session.get_session_stats(None, "id".to_owned(), &entries, &entries, 5);
    assert_eq!(stats.user_messages, 1);
    assert_eq!(stats.assistant_messages, 1);
    assert_eq!(stats.tool_calls, 2);
    assert_eq!(stats.tool_results, 1);
    assert_eq!(stats.total_messages, 3);
    assert_eq!(stats.tokens.total, 7);
    assert_eq!(
        stats.context_usage,
        Some(ContextUsage { tokens: Some(5), context_window: 8_192 })
    );
}

#[test]
fn a_shell_result_is_no_message_of_the_conversation() {
    let session = make_session();
    let shell = AgentMessage::Custom(CustomAgentMessage {
        role: "bashExecution".to_owned(),
        payload: Arc::new(vec![]),
    });
    let entries = vec![message(shell)];
    let stats = session.get_session_stats(None, "id".to_owned(), &entries, &entries, 5);
    assert_eq!(stats.total_messages, 0);
    assert_eq!(stats.user_messages, 0);
}

#[test]
fn tokens_are_unknown_right_after_a_compaction() {
    let session = make_session();
    let unknown = Some(ContextUsage { tokens: None, context_window: 8_192 });
    let known = Some(ContextUsage { tokens: Some(42), context_window: 8_192 });
    let usage = Usage { total_tokens: 9, ..Usage::default() };
    let mut branch = vec![llm(answer(StopReason::Stop, usage)), compaction("c", None)];
    assert_eq!(session.get_context_usage(&branch, 42), unknown);
    branch.push(llm(answer(StopReason::Error, usage)));
    branch.push(llm(answer(StopReason::Aborted, usage)));
    branch.push(llm(answer(StopReason::Stop, Usage::default())));
    assert_eq!(session.get_context_usage(&branch, 42), unknown);
    branch.push(llm(answer(StopReason::Stop, usage)));
    assert_eq!(session.get_context_usage(&branch, 42), known);
}

#[test]
fn context_tokens_fall_back_to_the_parts() {
    let parts =
        Usage { input: 1, output: 2, cache_read: 3, cache_write: 4, total_tokens: 0 };
    assert_eq!(calculate_context_tokens(&parts), 10);
    assert_eq!(calculate_context_tokens(&Usage { total_tokens: 3, ..parts }), 3);
    assert_eq!(calculate_context_tokens(&Usage { input: u64::MAX, ..parts }), u64::MAX);
}

#[test]
fn the_totals_of_two_parts_add_up() {
    let session = make_session();
    let part = |input| vec![compaction("c", Some(summary_usage(input, 0)))];
    let total = |entries: &Vec<SessionEntry>| {
        session.get_session_stats(None, "id".to_owned(), entries, entries, 0).tokens.input
    };
    let mut both = part(3);
    both.extend(part(4));
    assert_eq!(total(&both), total(&part(3)) + total(&part(4)));
}
