//! Events, their names and their wire form.

use agent_session::events::{
    AgentEvent, AgentSessionEvent, CompactionReason, ModelSelectSource, SessionBeforeForkPosition,
    SessionBeforeSwitchReason, SessionShutdownReason, SessionStartReason, SummarizationRetrySource,
};
use agent_session::json::Json;
use agent_session::messages::{AgentToolResult, Model, ModelThinkingLevel, SessionEntry};
use agent_session::prompt::user_text;
use agent_session::wire::{write_event, WireParts};
use agent_session::wire_read::{read_event, EventParts};
use std::sync::Arc;

fn text(value: &str) -> Json {
    Json::Text(value.to_owned())
}

fn object(members: Vec<(&str, Json)>) -> Json {
    Json::Object(Arc::new(
        members.into_iter().map(|(key, value)| (key.to_owned(), value)).collect(),
    ))
}

fn wire(event: &AgentSessionEvent) -> Json {
    write_event(event, &WireParts::default())
}

fn read(value: &Json) -> Option<AgentSessionEvent> {
    read_event(value, EventParts::default())
}

fn default_model() -> Model {
    Model {
        id: "unknown".to_owned(),
        name: "unknown".to_owned(),
        api: "unknown".to_owned(),
        provider: "unknown".to_owned(),
        base_url: String::new(),
        reasoning: false,
        thinking_level_map: None,
        context_window: 0,
        max_tokens: 0,
    }
}

#[test]
fn agent_end_wire_includes_will_retry() {
    let event = AgentSessionEvent::AgentEnd {
        messages: Arc::new(vec![user_text("hi", &Vec::new(), 0)]),
        will_retry: true,
    };
    let parts =
        WireParts { main: Json::Array(Arc::new(vec![text("encoded")])), other: Json::Null };
    let value = write_event(&event, &parts);
    assert_eq!(value.get("type"), Some(&text("agent_end")));
    assert_eq!(value.get("willRetry"), Some(&Json::Bool(true)));
    assert!(matches!(value.get("messages"), Some(Json::Array(_))));
}

#[test]
fn queue_update_wire_camel_case() {
    let event = AgentSessionEvent::QueueUpdate {
        steering: Arc::new(vec!["a".to_owned()]),
        follow_up: Arc::new(vec!["b".to_owned()]),
    };
    let value = wire(&event);
    assert_eq!(value.get("type"), Some(&text("queue_update")));
    assert_eq!(value.get("steering"), Some(&Json::Array(Arc::new(vec![text("a")]))));
    assert_eq!(value.get("followUp"), Some(&Json::Array(Arc::new(vec![text("b")]))));
}

#[test]
fn lifecycle_events_use_reference_wire_payloads() {
    let switch = wire(&AgentSessionEvent::SessionBeforeSwitch {
        reason: SessionBeforeSwitchReason::Resume,
        target_session_file: Some("/tmp/session.jsonl".to_owned()),
    });
    assert_eq!(
        switch,
        object(vec![
            ("type", text("session_before_switch")),
            ("reason", text("resume")),
            ("targetSessionFile", text("/tmp/session.jsonl")),
        ])
    );

    let fork = wire(&AgentSessionEvent::SessionBeforeFork {
        entry_id: "entry-1".to_owned(),
        position: SessionBeforeForkPosition::Before,
    });
    assert_eq!(
        fork,
        object(vec![
            ("type", text("session_before_fork")),
            ("entryId", text("entry-1")),
            ("position", text("before")),
        ])
    );

    let selected = write_event(
        &AgentSessionEvent::ModelSelect {
            model: default_model(),
            previous_model: Some(default_model()),
            source: ModelSelectSource::Cycle,
        },
        &WireParts { main: object(vec![]), other: object(vec![]) },
    );
    assert_eq!(selected.get("type"), Some(&text("model_select")));
    assert_eq!(selected.get("source"), Some(&text("cycle")));
    assert!(selected.get("previousModel").is_some());
}

#[test]
fn optional_lifecycle_fields_are_omitted() {
    let switch = wire(&AgentSessionEvent::SessionBeforeSwitch {
        reason: SessionBeforeSwitchReason::New,
        target_session_file: None,
    });
    assert!(switch.get("targetSessionFile").is_none());
}

#[test]
fn agent_settled_is_tag_only() {
    let value = wire(&AgentSessionEvent::AgentSettled);
    assert_eq!(value, object(vec![("type", text("agent_settled"))]));
}

#[test]
fn session_start_wire_shape_and_round_trip() {
    let startup = AgentSessionEvent::SessionStart {
        reason: SessionStartReason::Startup,
        previous_session_file: None,
    };
    let value = wire(&startup);
    assert_eq!(
        value,
        object(vec![("type", text("session_start")), ("reason", text("startup"))])
    );
    assert!(value.get("previousSessionFile").is_none());
    assert_eq!(read(&value), Some(startup));

    let resume = AgentSessionEvent::SessionStart {
        reason: SessionStartReason::Resume,
        previous_session_file: Some("/tmp/prev.jsonl".to_owned()),
    };
    let value = wire(&resume);
    assert_eq!(
        value,
        object(vec![
            ("type", text("session_start")),
            ("reason", text("resume")),
            ("previousSessionFile", text("/tmp/prev.jsonl")),
        ])
    );
    assert_eq!(read(&value), Some(resume));
}

#[test]
fn session_shutdown_wire_shape_and_round_trip() {
    let quit = AgentSessionEvent::SessionShutdown {
        reason: SessionShutdownReason::Quit,
        target_session_file: None,
    };
    let value = wire(&quit);
    assert_eq!(
        value,
        object(vec![("type", text("session_shutdown")), ("reason", text("quit"))])
    );
    assert!(value.get("targetSessionFile").is_none());
    assert_eq!(read(&value), Some(quit));

    let new = AgentSessionEvent::SessionShutdown {
        reason: SessionShutdownReason::New,
        target_session_file: Some("/tmp/next.jsonl".to_owned()),
    };
    let value = wire(&new);
    assert_eq!(
        value,
        object(vec![
            ("type", text("session_shutdown")),
            ("reason", text("new")),
            ("targetSessionFile", text("/tmp/next.jsonl")),
        ])
    );
    assert_eq!(read(&value), Some(new));
}

#[test]
fn lifecycle_reason_strings_match_wire_contract() {
    assert_eq!(
        [
            SessionStartReason::Startup.as_str(),
            SessionStartReason::Reload.as_str(),
            SessionStartReason::New.as_str(),
            SessionStartReason::Resume.as_str(),
            SessionStartReason::Fork.as_str(),
        ],
        ["startup", "reload", "new", "resume", "fork"]
    );
    assert_eq!(
        [
            SessionShutdownReason::Quit.as_str(),
            SessionShutdownReason::Reload.as_str(),
            SessionShutdownReason::New.as_str(),
            SessionShutdownReason::Resume.as_str(),
            SessionShutdownReason::Fork.as_str(),
        ],
        ["quit", "reload", "new", "resume", "fork"]
    );
    assert_eq!(SessionStartReason::default(), SessionStartReason::Startup);
}

#[test]
fn session_info_changed_clear_omits_name() {
    let event = AgentSessionEvent::SessionInfoChanged { name: None };
    let value = wire(&event);
    assert_eq!(value, object(vec![("type", text("session_info_changed"))]));
    assert!(value.get("name").is_none());
    assert_eq!(read(&value), Some(event));
}

#[test]
fn session_info_changed_rename_includes_name() {
    let event = AgentSessionEvent::SessionInfoChanged { name: Some("hello".to_owned()) };
    let value = wire(&event);
    assert_eq!(
        value,
        object(vec![("type", text("session_info_changed")), ("name", text("hello"))])
    );
    assert_eq!(read(&value), Some(event));
}

#[test]
fn session_info_changed_deserializes_name_null() {
    let value = object(vec![("type", text("session_info_changed")), ("name", Json::Null)]);
    assert_eq!(read(&value), Some(AgentSessionEvent::SessionInfoChanged { name: None }));
}

#[test]
fn summarization_retry_scheduled_wire_shape() {
    let event = AgentSessionEvent::SummarizationRetryScheduled {
        attempt: 1,
        max_attempts: 3,
        delay_ms: 2000,
        error_message: "overloaded".to_owned(),
    };
    let value = wire(&event);
    assert_eq!(
        value,
        object(vec![
            ("type", text("summarization_retry_scheduled")),
            ("attempt", Json::Integer(1)),
            ("maxAttempts", Json::Integer(3)),
            ("delayMs", Json::Integer(2000)),
            ("errorMessage", text("overloaded")),
        ])
    );
    assert_eq!(read(&value), Some(event));
}

#[test]
fn summarization_retry_attempt_start_branch_summary_wire() {
    let event = AgentSessionEvent::SummarizationRetryAttemptStart {
        source: SummarizationRetrySource::BranchSummary,
    };
    let value = wire(&event);
    assert_eq!(
        value,
        object(vec![
            ("type", text("summarization_retry_attempt_start")),
            ("source", text("branchSummary")),
        ])
    );
    assert_eq!(read(&value), Some(event));
}

#[test]
fn summarization_retry_attempt_start_compaction_wire() {
    let event = AgentSessionEvent::SummarizationRetryAttemptStart {
        source: SummarizationRetrySource::Compaction { reason: CompactionReason::Manual },
    };
    let value = wire(&event);
    assert_eq!(
        value,
        object(vec![
            ("type", text("summarization_retry_attempt_start")),
            ("source", text("compaction")),
            ("reason", text("manual")),
        ])
    );
    let threshold = AgentSessionEvent::SummarizationRetryAttemptStart {
        source: SummarizationRetrySource::Compaction { reason: CompactionReason::Threshold },
    };
    assert_eq!(wire(&threshold).get("reason"), Some(&text("threshold")));
    let overflow = AgentSessionEvent::SummarizationRetryAttemptStart {
        source: SummarizationRetrySource::Compaction { reason: CompactionReason::Overflow },
    };
    assert_eq!(wire(&overflow).get("reason"), Some(&text("overflow")));
    assert_eq!(read(&value), Some(event));
}

#[test]
fn summarization_retry_finished_wire_shape() {
    let event = AgentSessionEvent::SummarizationRetryFinished;
    let value = wire(&event);
    assert_eq!(value, object(vec![("type", text("summarization_retry_finished"))]));
    assert_eq!(read(&value), Some(event));
}

#[test]
fn bash_execution_update_wire_with_id() {
    let event = AgentSessionEvent::BashExecutionUpdate {
        id: Some("call-1".to_owned()),
        delta: "hello\n".to_owned(),
    };
    let value = wire(&event);
    assert_eq!(
        value,
        object(vec![
            ("type", text("bash_execution_update")),
            ("id", text("call-1")),
            ("delta", text("hello\n")),
        ])
    );
    assert_eq!(read(&value), Some(event));
}

#[test]
fn bash_execution_update_wire_without_id() {
    let event = AgentSessionEvent::BashExecutionUpdate { id: None, delta: "world".to_owned() };
    let value = wire(&event);
    assert_eq!(
        value,
        object(vec![("type", text("bash_execution_update")), ("delta", text("world"))])
    );
    assert!(value.get("id").is_none());
    assert_eq!(read(&value), Some(event));
}

#[test]
fn own_events_are_read_back() {
    let events = vec![
        AgentSessionEvent::AgentStart,
        AgentSessionEvent::TurnStart,
        AgentSessionEvent::CompactionStart { reason: CompactionReason::Overflow },
        AgentSessionEvent::ThinkingLevelChanged { level: ModelThinkingLevel::Xhigh },
        AgentSessionEvent::AutoRetryStart {
            attempt: 2,
            max_attempts: u32::MAX,
            delay_ms: u64::MAX,
            error_message: "busy".to_owned(),
        },
        AgentSessionEvent::AutoRetryEnd {
            success: false,
            attempt: 3,
            final_error: Some("gone".to_owned()),
        },
        AgentSessionEvent::AutoRetryEnd { success: true, attempt: 1, final_error: None },
        AgentSessionEvent::SessionBeforeFork {
            entry_id: "e".to_owned(),
            position: SessionBeforeForkPosition::At,
        },
        AgentSessionEvent::QueueUpdate {
            steering: Arc::new(vec!["a".to_owned(), "b".to_owned()]),
            follow_up: Arc::new(vec![]),
        },
    ];
    for event in events {
        assert_eq!(read(&wire(&event)), Some(event));
    }
}

#[test]
fn what_is_no_event_is_not_read() {
    assert_eq!(read(&Json::Null), None);
    assert_eq!(read(&object(vec![])), None);
    assert_eq!(read(&object(vec![("type", text("unheard_of"))])), None);
    assert_eq!(
        read(&object(vec![("type", text("session_start")), ("reason", text("whim"))])),
        None
    );
    assert_eq!(
        read(&object(vec![
            ("type", text("auto_retry_end")),
            ("success", Json::Bool(true)),
            ("attempt", Json::Integer(-1)),
        ])),
        None
    );
    assert_eq!(
        read(&object(vec![
            ("type", text("session_info_changed")),
            ("name", Json::Integer(1)),
        ])),
        None
    );
}

#[test]
fn unknown_members_are_passed_over() {
    let value = object(vec![
        ("type", text("compaction_start")),
        ("colour", text("green")),
        ("reason", text("manual")),
    ]);
    assert_eq!(
        read(&value),
        Some(AgentSessionEvent::CompactionStart { reason: CompactionReason::Manual })
    );
}

#[test]
fn agent_events_keep_their_names() {
    let end = AgentSessionEvent::from_agent_event(
        AgentEvent::AgentEnd { messages: Arc::new(vec![]) },
        true,
    );
    assert_eq!(end.wire_name(), "agent_end");
    assert!(matches!(end, AgentSessionEvent::AgentEnd { will_retry: true, .. }));
    let tool = AgentSessionEvent::from_agent_event(
        AgentEvent::ToolExecutionStart {
            tool_call_id: "1".to_owned(),
            tool_name: "read".to_owned(),
            args: Arc::new(vec![]),
        },
        false,
    );
    assert_eq!(tool.wire_name(), "tool_execution_start");
}

fn tool_result() -> AgentToolResult {
    AgentToolResult { content: Arc::new(vec![]), details: Json::Null }
}

#[test]
fn events_with_messages_are_read_with_the_messages() {
    let message = || user_text("hi", &Vec::new(), 0);
    let written = WireParts { main: text("written"), other: Json::Array(Arc::new(vec![])) };
    let end = AgentSessionEvent::AgentEnd {
        messages: Arc::new(vec![message()]),
        will_retry: true,
    };
    let value = write_event(&end, &written);
    let parts = EventParts {
        messages: Some(Arc::new(vec![message()])),
        ..EventParts::default()
    };
    assert_eq!(read_event(&value, parts), Some(end));
    assert_eq!(read(&value), None);

    let with_message = || EventParts { message: Some(message()), ..EventParts::default() };
    let start = AgentSessionEvent::MessageStart { message: message() };
    assert_eq!(read_event(&write_event(&start, &written), with_message()), Some(start));
    let ended = AgentSessionEvent::MessageEnd { message: message() };
    assert_eq!(read_event(&write_event(&ended, &written), with_message()), Some(ended));
    let update = AgentSessionEvent::MessageUpdate {
        message: message(),
        assistant_message_event: object(vec![("type", text("text_delta"))]),
    };
    let value = write_event(&update, &written);
    let parts = EventParts {
        assistant_message_event: Some(object(vec![("type", text("text_delta"))])),
        ..with_message()
    };
    assert_eq!(read_event(&value, parts), Some(update));
    assert_eq!(read_event(&value, with_message()), None, "no event of a provider's stream");
    let turn = AgentSessionEvent::TurnEnd { message: message(), tool_results: Arc::new(vec![]) };
    let parts = EventParts { tool_results: Some(Arc::new(vec![])), ..with_message() };
    assert_eq!(read_event(&write_event(&turn, &written), parts), Some(turn));
    let bare = object(vec![("type", text("message_start"))]);
    assert_eq!(read_event(&bare, with_message()), None);
}

#[test]
fn events_of_tools_are_read() {
    let args = || Arc::new(vec![("path".to_owned(), text("a.rs"))]);
    let start = AgentSessionEvent::ToolExecutionStart {
        tool_call_id: "1".to_owned(),
        tool_name: "read".to_owned(),
        args: args(),
    };
    assert_eq!(read(&wire(&start)), Some(start));
    let with_result = || EventParts { tool_result: Some(tool_result()), ..EventParts::default() };
    let update = AgentSessionEvent::ToolExecutionUpdate {
        tool_call_id: "1".to_owned(),
        tool_name: "read".to_owned(),
        args: args(),
        partial_result: tool_result(),
    };
    assert_eq!(read_event(&wire(&update), with_result()), Some(update));
    let end = AgentSessionEvent::ToolExecutionEnd {
        tool_call_id: "1".to_owned(),
        tool_name: "read".to_owned(),
        result: tool_result(),
        is_error: true,
    };
    let value = wire(&end);
    assert_eq!(read_event(&value, with_result()), Some(end));
    assert_eq!(read(&value), None);
}

#[test]
fn events_with_models_and_entries_are_read() {
    let select = AgentSessionEvent::ModelSelect {
        model: default_model(),
        previous_model: Some(default_model()),
        source: ModelSelectSource::Cycle,
    };
    let written = WireParts { main: object(vec![]), other: object(vec![]) };
    let parts = EventParts {
        model: Some(default_model()),
        previous_model: Some(default_model()),
        ..EventParts::default()
    };
    assert_eq!(read_event(&write_event(&select, &written), parts), Some(select));
    let first = AgentSessionEvent::ModelSelect {
        model: default_model(),
        previous_model: None,
        source: ModelSelectSource::Restore,
    };
    let parts = EventParts { model: Some(default_model()), ..EventParts::default() };
    assert_eq!(read_event(&write_event(&first, &written), parts), Some(first));

    let end = AgentSessionEvent::CompactionEnd {
        reason: CompactionReason::Overflow,
        result: None,
        aborted: true,
        will_retry: false,
        error_message: Some("no".to_owned()),
    };
    assert_eq!(read(&wire(&end)), Some(end));
    let entry = || SessionEntry::Other { id: "x".to_owned(), kind: "label".to_owned() };
    let appended = AgentSessionEvent::EntryAppended { entry: entry() };
    let parts = EventParts { entry: Some(entry()), ..EventParts::default() };
    assert_eq!(read_event(&write_event(&appended, &written), parts), Some(appended));
}
