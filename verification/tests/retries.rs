//! Retries after failed answers.

use agent_session::events::AgentSessionEvent;
use agent_session::messages::{AgentMessage, AssistantMessage, Message, Model, StopReason};
use agent_session::overflow::is_context_overflow;
use agent_session::retry::{backoff_delay_ms, contains_status_code, is_retryable_assistant_error};
use agent_session::session::{
    AgentSession, AgentSessionConfig, CancelToken, Effect, ResolvedCompactionSettings,
    RetrySettings, SessionSettings,
};

fn session() -> AgentSession {
    let settings = SessionSettings {
        retry: RetrySettings { enabled: true, max_retries: 3, base_delay_ms: 1_000 },
        compaction: ResolvedCompactionSettings {
            enabled: true,
            reserve_tokens: 1_000,
            keep_recent_tokens: 1_000,
        },
        default_thinking_level: None,
        default_provider: None,
        default_model: None,
        shell_command_prefix: None,
        shell_path: None,
    };
    let model = Model {
        id: "m".to_owned(),
        name: "m".to_owned(),
        api: "test-api".to_owned(),
        provider: "test-provider".to_owned(),
        base_url: "url".to_owned(),
        reasoning: false,
        thinking_level_map: None,
        context_window: 8192,
        max_tokens: 1024,
    };
    let config = match AgentSessionConfig::test_config("noop".to_owned(), model, settings) {
        Ok(config) => config,
        Err(error) => panic!("{error:?}"),
    };
    match AgentSession::new(config) {
        Ok(session) => session,
        Err(error) => panic!("{error:?}"),
    }
}

fn failed(error: &str) -> AssistantMessage {
    let mut msg = AssistantMessage::new("api", "provider", "m", 0);
    msg.stop_reason = StopReason::Error;
    msg.error_message = Some(error.to_owned());
    msg
}

fn lifecycle(session: &AgentSession) -> Vec<String> {
    session
        .outbox
        .iter()
        .filter_map(|effect| match effect {
            Effect::Emit(AgentSessionEvent::AutoRetryStart { attempt, .. }) => {
                Some(format!("start:{attempt}"))
            }
            Effect::Emit(AgentSessionEvent::AutoRetryEnd { success, attempt, .. }) => {
                Some(format!("end:{success}:{attempt}"))
            }
            _ => None,
        })
        .collect()
}

#[test]
fn backoff_progression() {
    assert_eq!(backoff_delay_ms(1000, 1), 1000);
    assert_eq!(backoff_delay_ms(1000, 2), 2000);
    assert_eq!(backoff_delay_ms(1000, 3), 4000);
    assert_eq!(backoff_delay_ms(1000, 0), 0);
    // Saturates rather than overflowing.
    assert_eq!(backoff_delay_ms(u64::MAX, 1), u64::MAX);
}

#[test]
fn backoff_stays_at_the_largest_wait() {
    assert_eq!(backoff_delay_ms(1, 64), 1 << 63);
    assert_eq!(backoff_delay_ms(2, 64), u64::MAX);
    assert_eq!(backoff_delay_ms(1, u32::MAX), u64::MAX);
    assert_eq!(backoff_delay_ms(0, u32::MAX), 0);
}

#[test]
fn overloaded_is_retryable() {
    let msg = failed("overloaded_error");
    assert!(is_retryable_assistant_error(&msg));
    assert!(!is_context_overflow(&msg, 0));
}

#[test]
fn invalid_key_not_retryable() {
    let msg = failed("invalid_api_key");
    assert!(!is_retryable_assistant_error(&msg));
}

#[test]
fn context_overflow_not_retryable() {
    let msg = failed("This model's maximum context length is 8192 tokens.");
    assert!(!is_retryable_assistant_error(&msg));
    assert!(is_context_overflow(&msg, 0));
}

#[test]
fn rate_limit_is_retryable_but_not_overflow() {
    let msg = failed("rate_limit exceeded");
    assert!(is_retryable_assistant_error(&msg));
    assert!(!is_context_overflow(&msg, 0));
}

#[test]
fn status_first_429_is_retryable() {
    for error in
        ["OpenAI API error: 429: {}", "HTTP 429: ", "provider failed with status 429"]
    {
        let msg = failed(error);
        assert!(is_retryable_assistant_error(&msg), "{error}");
    }

    let msg = failed("internal code 14290");
    assert!(!is_retryable_assistant_error(&msg));
}

#[test]
fn network_connection_lost_retryable() {
    let msg = failed("Network connection lost.");
    assert!(is_retryable_assistant_error(&msg));
}

#[test]
fn bedrock_retry_text() {
    let msg = failed("Please try your request again later.");
    assert!(is_retryable_assistant_error(&msg));
}

#[test]
fn openai_retry_text() {
    let msg = failed(
        "The server had an error while processing your request. Sorry about that! Please retry your request.",
    );
    assert!(is_retryable_assistant_error(&msg));
}

#[test]
fn quota_429_not_retryable() {
    let msg = failed("429 insufficient_quota billing error");
    assert!(!is_retryable_assistant_error(&msg));
}

#[test]
fn socket_hang_up_retryable() {
    let msg = failed("provider fetch failed: socket hang up");
    assert!(is_retryable_assistant_error(&msg));
}

#[test]
fn existing_classifications_unchanged() {
    assert!(is_retryable_assistant_error(&failed("overloaded_error")));
    assert!(!is_retryable_assistant_error(&failed("invalid_api_key")));
    assert!(!is_retryable_assistant_error(&failed("internal code 14290")));
}

#[test]
fn throttling_not_overflow() {
    let msg = failed("Throttling error: Too many tokens, please wait.");
    assert!(!is_context_overflow(&msg, 0));
}

#[test]
fn stop_reason_non_error_not_retryable() {
    let msg = AssistantMessage::new("api", "provider", "m", 0);
    assert!(!is_retryable_assistant_error(&msg));
}

#[test]
fn usage_exceeds_window_is_overflow_not_retryable() {
    let session = session();

    let mut msg_silent = AssistantMessage::new("test-api", "test-provider", "m", 0);
    msg_silent.stop_reason = StopReason::Stop;
    msg_silent.usage.input = 10000;
    assert!(!session.is_retryable_error(&msg_silent));

    let mut msg_length = AssistantMessage::new("test-api", "test-provider", "m", 0);
    msg_length.stop_reason = StopReason::Length;
    msg_length.usage.input = 8192;
    msg_length.usage.output = 0;
    assert!(!session.is_retryable_error(&msg_length));

    let mut msg_normal = AssistantMessage::new("test-api", "test-provider", "m", 0);
    msg_normal.stop_reason = StopReason::Error;
    msg_normal.error_message = Some("overloaded".to_owned());
    msg_normal.usage.input = 1000;
    assert!(session.is_retryable_error(&msg_normal));
}

#[test]
fn status_codes_stand_alone() {
    assert!(contains_status_code("429", "429"));
    assert!(contains_status_code("error 429.", "429"));
    assert!(!contains_status_code("1429", "429"));
    assert!(!contains_status_code("4290", "429"));
    assert!(!contains_status_code("42", "429"));
}

#[test]
fn retry_exhaust_emits_failure() {
    let mut s = session();
    let msg = failed("overloaded_error");
    for attempt in 1..=3u64 {
        s.agent.transcript.push(AgentMessage::Llm(Message::Assistant(msg.clone())));
        let delay = s.prepare_retry(&msg, CancelToken(attempt));
        assert_eq!(delay, Some(1_000 << (attempt - 1)));
        assert!(s.agent.transcript.is_empty(), "the failed answer leaves the transcript");
        assert!(s.is_retrying());
        assert!(s.retry_wait_ended(false));
        assert!(!s.is_retrying());
    }
    assert_eq!(s.prepare_retry(&msg, CancelToken(9)), None);
    assert_eq!(s.retry_attempt(), 3);
    s.emit_retry_exhausted(&msg);
    assert_eq!(lifecycle(&s), vec!["start:1", "start:2", "start:3", "end:false:3"]);
    assert_eq!(s.retry_attempt(), 0);
}

#[test]
fn abort_retry_during_sleep() {
    let mut s = session();
    let msg = failed("overloaded_error");
    assert!(s.prepare_retry(&msg, CancelToken(7)).is_some());
    s.abort_retry();
    assert!(s.outbox.contains(&Effect::Cancel(CancelToken(7))));
    assert!(!s.retry_wait_ended(true));
    assert_eq!(lifecycle(&s), vec!["start:1", "end:false:1"]);
    let ended = AgentSessionEvent::AutoRetryEnd {
        success: false,
        attempt: 1,
        final_error: Some("Retry cancelled".to_owned()),
    };
    assert!(s.outbox.contains(&Effect::Emit(ended)));
    assert_eq!(s.retry_attempt(), 0);
    s.emit_retry_exhausted(&msg);
    assert_eq!(lifecycle(&s).len(), 2, "the end is told once");
}

#[test]
fn retry_disabled_no_retry() {
    let mut s = session();
    s.set_auto_retry_enabled(false);
    assert_eq!(s.prepare_retry(&failed("overloaded_error"), CancelToken(1)), None);
    s.emit_retry_exhausted(&failed("overloaded_error"));
    assert!(lifecycle(&s).is_empty(), "disabled retry must not emit auto_retry events");
    assert_eq!(s.retry_attempt(), 0);
    assert!(!s.auto_retry_enabled());
}

#[test]
fn the_end_of_a_run_says_whether_a_retry_follows() {
    let mut s = session();
    assert!(!s.will_retry());
    s.agent
        .transcript
        .push(AgentMessage::Llm(Message::Assistant(failed("overloaded_error"))));
    assert!(s.will_retry());
    s.counters.retry_attempt = s.counters.max_retries;
    assert!(!s.will_retry());
}
