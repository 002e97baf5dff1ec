//! Shell commands and their records.

use agent_session::bash::{
    bash_execution_payload, parse_bash_result_from_agent_result, parse_bash_result_from_error,
    resolve_command, strip_status_suffix, BashExecError, BashExecutionMessage, BashResult,
    ExecuteBashOptions,
};
use agent_session::events::AgentSessionEvent;
use agent_session::json::Json;
use agent_session::messages::{
    AgentMessage, AgentToolResult, Model, SessionEntry, UserContent,
};
use std::sync::Arc;
use agent_session::session::{
    AgentSession, AgentSessionConfig, CancelToken, Effect, ResolvedCompactionSettings, RetrySettings, SessionError, SessionSettings,
};

fn settings() -> SessionSettings {
    SessionSettings {
        retry: RetrySettings { enabled: true, max_retries: 3, base_delay_ms: 1_000 },
        compaction: ResolvedCompactionSettings {
            enabled: true,
            reserve_tokens: 1_000,
            keep_recent_tokens: 1_000,
        },
        default_thinking_level: None,
        default_provider: None,
        default_model: None,
        shell_command_prefix: None,
        shell_path: None,
    }
}

fn test_model() -> Model {
    Model {
        id: "m".to_owned(),
        name: "m".to_owned(),
        api: "test-api".to_owned(),
        provider: "test-provider".to_owned(),
        base_url: String::new(),
        reasoning: false,
        thinking_level_map: None,
        context_window: 8_192,
        max_tokens: 1_024,
    }
}

fn session_with(model: Model) -> AgentSession {
    let config = match AgentSessionConfig::test_config("stub".to_owned(), model, settings()) {
        Ok(config) => config,
        Err(error) => panic!("{error:?}"),
    };
    match AgentSession::new(config) {
        Ok(session) => session,
        Err(error) => panic!("{error:?}"),
    }
}

fn make_session() -> AgentSession {
    session_with(test_model())
}

fn result(output: &str) -> BashResult {
    BashResult {
        output: output.to_owned(),
        exit_code: Some(0),
        cancelled: false,
        truncated: false,
        full_output_path: None,
    }
}

fn entry(id: &str) -> SessionEntry {
    SessionEntry::Other { id: id.to_owned(), kind: "message".to_owned() }
}

fn command_of(message: &AgentMessage) -> String {
    match message {
        AgentMessage::Custom(custom) => match custom.payload.first() {
            Some((_, Json::Text(command))) => command.clone(),
            other => panic!("{other:?}"),
        },
        other => panic!("{other:?}"),
    }
}

#[test]
fn the_status_line_is_cut_off() {
    assert_eq!(strip_status_suffix("out\n\nCommand exited with code 2"), "out");
    assert_eq!(strip_status_suffix("out\n\nCommand aborted"), "out");
    assert_eq!(strip_status_suffix("out\n\nCommand timed out after 5 seconds"), "out");
    assert_eq!(strip_status_suffix("out"), "out");
    assert_eq!(
        strip_status_suffix("a\n\nCommand exited with code 1\n\nCommand exited with code 2"),
        "a\n\nCommand exited with code 1"
    );
    let raw = "x\n\nCommand exited with code 1\ny";
    assert_eq!(strip_status_suffix("x\n\nCommand exited with code 1\ny\n\nCommand aborted"), raw);
    assert_eq!(strip_status_suffix(raw), raw);
}

#[test]
fn how_a_command_ended_is_read_wherever_it_stands() {
    let aborted = parse_bash_result_from_error(
        "x\n\nCommand exited with code 1\ny\n\nCommand aborted",
        "cmd",
    );
    assert_eq!(aborted.output, "x\n\nCommand exited with code 1\ny");
    assert_eq!(aborted.exit_code, Some(1));
    assert!(aborted.cancelled && !aborted.truncated);
    let failed = parse_bash_result_from_error(
        "timeout:3\nCommand aborted\nCommand timed out\n\nCommand exited with code 2",
        "cmd",
    );
    assert_eq!(failed.output, "timeout:3\nCommand aborted\nCommand timed out");
    assert_eq!(failed.exit_code, Some(2));
    assert!(failed.cancelled && failed.truncated);
    let first = parse_bash_result_from_error("Command exited with code 3\nb", "cmd");
    assert_eq!(first.exit_code, Some(3));
    assert_eq!(first.output, "Command exited with code 3\nb");
    let two = "Command exited with code 1\n\nCommand exited with code 2";
    assert_eq!(parse_bash_result_from_error(two, "cmd").exit_code, Some(1));
    let unread = "Command exited with code x\n\nCommand exited with code 2";
    assert_eq!(parse_bash_result_from_error(unread, "cmd").exit_code, None);
    let ended = parse_bash_result_from_error("out\n\nCommand aborted\n", "cmd");
    assert!(ended.cancelled);
    assert!(!parse_bash_result_from_error("command aborted", "cmd").cancelled);
}

#[test]
fn a_failure_is_read_into_a_result() {
    let failed = parse_bash_result_from_error("out\n\nCommand exited with code 127", "cmd");
    assert_eq!(failed.exit_code, Some(127));
    assert_eq!(failed.output, "out");
    assert!(!failed.cancelled && !failed.truncated);
    let aborted = parse_bash_result_from_error("out\n\nCommand aborted", "cmd");
    assert!(aborted.cancelled);
    assert_eq!(aborted.exit_code, None);
    let late = parse_bash_result_from_error("Command timed out after 5 seconds", "cmd");
    assert!(late.truncated);
    assert!(parse_bash_result_from_error("timeout:5", "cmd").truncated);
    assert!(parse_bash_result_from_error("timeout:120", "cmd").truncated);
    for other in ["timeout: x", "timeout:", "timeout:5s", "timeout:-5", "timeout:5\n", "a timeout:5"] {
        assert!(!parse_bash_result_from_error(other, "cmd").truncated, "{other}");
    }
    assert!(parse_bash_result_from_error("aborted", "cmd").cancelled);
    assert!(!parse_bash_result_from_error("it aborted", "cmd").cancelled);
    assert_eq!(parse_bash_result_from_error("Command exited with code x", "c").exit_code, None);
    assert_eq!(
        parse_bash_result_from_error("Command exited with code -9", "c").exit_code,
        Some(-9)
    );
}

#[test]
fn a_success_is_read_into_a_result() {
    let details = Json::Object(Arc::new(vec![
        (
            "truncation".to_owned(),
            Json::Object(Arc::new(vec![("truncated".to_owned(), Json::Bool(true))])),
        ),
        ("fullOutputPath".to_owned(), Json::Text("/tmp/out".to_owned())),
    ]));
    let read = parse_bash_result_from_agent_result(AgentToolResult {
        content: Arc::new(vec![UserContent::Text("hello".to_owned())]),
        details,
    });
    assert_eq!(read.output, "hello");
    assert_eq!(read.exit_code, Some(0));
    assert!(read.truncated);
    assert_eq!(read.full_output_path, Some("/tmp/out".to_owned()));
    let bare =
        parse_bash_result_from_agent_result(AgentToolResult { content: Arc::new(vec![]), details: Json::Null });
    assert_eq!(bare.output, "");
    assert!(!bare.truncated);
}

#[test]
fn a_prefix_stands_on_its_own_line() {
    assert_eq!(resolve_command(&Some("set -e".to_owned()), "ls"), "set -e\nls");
    assert_eq!(resolve_command(&Some(String::new()), "ls"), "ls");
    assert_eq!(resolve_command(&None, "ls"), "ls");
}

#[test]
fn the_payload_leaves_out_what_is_not_there() {
    let message = BashExecutionMessage {
        command: "ls".to_owned(),
        output: "out".to_owned(),
        exit_code: None,
        cancelled: true,
        truncated: false,
        full_output_path: None,
        timestamp: 5,
        exclude_from_context: None,
    };
    let keys: Vec<String> =
        bash_execution_payload(&message).into_iter().map(|(key, _)| key).collect();
    assert_eq!(keys, vec!["command", "output", "cancelled", "truncated", "timestamp"]);
    let full = BashExecutionMessage {
        exit_code: Some(1),
        full_output_path: Some("/tmp/o".to_owned()),
        exclude_from_context: Some(true),
        ..message
    };
    let keys: Vec<String> =
        bash_execution_payload(&full).into_iter().map(|(key, _)| key).collect();
    assert_eq!(
        keys,
        vec![
            "command",
            "output",
            "exitCode",
            "cancelled",
            "truncated",
            "fullOutputPath",
            "timestamp",
            "excludeFromContext"
        ]
    );
}

#[test]
fn abort_stops_running_bash() {
    let mut s = make_session();
    let invocation = s.execute_bash("sleep 30", &ExecuteBashOptions::default(), CancelToken(3));
    assert_eq!(invocation.command, "sleep 30");
    assert!(s.is_bash_running());
    s.abort();
    assert!(s.outbox.contains(&Effect::Cancel(CancelToken(3))));
    let ended = s.bash_finished("sleep 30", Err("\n\nCommand aborted".to_owned()));
    assert!(matches!(ended, Err(BashExecError::Execution { result, .. }) if result.cancelled));
    assert!(!s.is_bash_running());
}

#[test]
fn recorded_bash_result_enters_transcript_and_session_history() {
    let mut s = make_session();
    let message =
        s.record_bash_result("printf ok", result("ok"), &ExecuteBashOptions::default(), 1);
    let message = match message {
        Some(message) => message,
        None => panic!("nothing streams"),
    };
    assert_eq!(message.role(), "bashExecution");
    assert!(s.messages().is_empty(), "only what is stored joins the transcript");
    assert_eq!(s.bash_stored(message, Ok(Some(entry("1")))), Ok(()));
    assert_eq!(s.message_count(), 1);
    assert_eq!(s.messages()[0].role(), "bashExecution");
    assert_eq!(
        s.outbox,
        vec![Effect::Emit(AgentSessionEvent::EntryAppended { entry: entry("1") })]
    );
}

#[test]
fn a_failed_append_changes_nothing() {
    let mut s = make_session();
    let message = s.record_bash_result("ls", result("o"), &ExecuteBashOptions::default(), 1);
    let failure = SessionError::Other("disk".to_owned());
    let stored = message.map(|m| s.bash_stored(m, Err(failure)));
    assert_eq!(
        stored,
        Some(Err(BashExecError::Session(SessionError::Other("disk".to_owned()))))
    );
    assert!(s.messages().is_empty() && s.outbox.is_empty());
}

#[test]
fn records_wait_for_the_end_of_the_run_in_their_order() {
    let mut s = make_session();
    s.agent.is_streaming = true;
    for command in ["one", "two", "three"] {
        let now = s.record_bash_result(command, result("o"), &ExecuteBashOptions::default(), 1);
        assert!(now.is_none());
    }
    assert!(s.has_pending_bash_messages());
    s.agent.is_streaming = false;
    let mut first = true;
    while let Some((record, message)) = s.next_pending_bash() {
        if first {
            let error = SessionError::Other("disk".to_owned());
            assert!(s.flush_pending_bash_messages(&record, message, Err(error)).is_err());
            assert_eq!(s.pending_bash_messages.len(), 3, "a failure keeps them all");
            first = false;
            continue;
        }
        assert_eq!(s.flush_pending_bash_messages(&record, message, Ok(None)), Ok(()));
    }
    let commands: Vec<String> = s.messages().iter().map(command_of).collect();
    assert_eq!(commands, vec!["one", "two", "three"]);
    assert!(!s.has_pending_bash_messages());
}

#[test]
fn excluded_bash_result_remains_in_transcript_and_session_history() {
    let mut s = make_session();
    let options = ExecuteBashOptions { exclude_from_context: true, operations: None };
    let message = match s.record_bash_result("printf hidden", result("hidden"), &options, 1) {
        Some(message) => message,
        None => panic!("nothing streams"),
    };
    assert_eq!(s.bash_stored(message, Ok(Some(entry("1")))), Ok(()));
    let mut visible = s.messages();
    assert_eq!(visible.len(), 1);
    match &visible[0] {
        AgentMessage::Custom(message) => {
            assert_eq!(message.role, "bashExecution");
            let flag = ("excludeFromContext".to_owned(), Json::Bool(true));
            assert!(message.payload.contains(&flag));
        }
        other => panic!("{other:?}"),
    }
    assert_eq!(
        s.outbox,
        vec![Effect::Emit(AgentSessionEvent::EntryAppended { entry: entry("1") })]
    );
    agent_session::session::retain_context_visible_messages(&mut visible);
    assert!(visible.is_empty(), "the model does not see it");
}
