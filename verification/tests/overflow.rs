//! Contexts that are too long.

use agent_session::compaction::{
    clamp_summarization_max_retries, SUMMARIZATION_MAX_RETRIES_CEILING,
};
use agent_session::messages::{AssistantMessage, Model, ModelThinkingLevel, StopReason, Usage};
use agent_session::model::thinking_level_str;
use agent_session::overflow::{is_context_overflow, overflow_decision, same_model};

fn test_model(context_window: u64) -> Model {
    Model {
        id: "m".to_owned(),
        name: "m".to_owned(),
        api: "test-api".to_owned(),
        provider: "test-provider".to_owned(),
        base_url: String::new(),
        reasoning: false,
        thinking_level_map: None,
        context_window,
        max_tokens: 1_024,
    }
}

#[test]
fn is_context_overflow_error_pattern() {
    let mut msg = AssistantMessage::new("a", "anthropic", "m", 1);
    msg.stop_reason = StopReason::Error;
    msg.error_message = Some("prompt is too long: 213462 tokens > 200000 maximum".into());
    assert!(is_context_overflow(&msg, 0));
}

#[test]
fn bare_maximum_context_length_is_not_overflow() {
    let mut msg = AssistantMessage::new("a", "openai-compatible", "m", 1);
    msg.stop_reason = StopReason::Error;
    msg.error_message = Some("exceeds the maximum context length".into());
    assert!(!is_context_overflow(&msg, 0));
}

#[test]
fn is_context_overflow_non_overflow_rate_limit() {
    let mut msg = AssistantMessage::new("a", "bedrock", "m", 1);
    msg.stop_reason = StopReason::Error;
    msg.error_message = Some("rate limit exceeded".into());
    assert!(!is_context_overflow(&msg, 0));
}

#[test]
fn is_context_overflow_silent_zai_style() {
    let mut msg = AssistantMessage::new("a", "zai", "m", 1);
    msg.stop_reason = StopReason::Stop;
    msg.usage = Usage {
        input: 100_000,
        output: 10,
        cache_read: 0,
        cache_write: 0,
        total_tokens: 100_010,
    };
    assert!(is_context_overflow(&msg, 80_000));
    assert!(!is_context_overflow(&msg, 120_000));
}

#[test]
fn is_context_overflow_length_stop_mimo_style() {
    let mut msg = AssistantMessage::new("a", "mimo", "m", 1);
    msg.stop_reason = StopReason::Length;
    msg.usage = Usage {
        input: 8_100,
        output: 0,
        cache_read: 0,
        cache_write: 0,
        total_tokens: 8_100,
    };
    assert!(!is_context_overflow(&msg, 8_192));
    msg.usage.input = 8_110;
    assert!(is_context_overflow(&msg, 8_192));
}

#[test]
fn same_model_checks_provider_and_id() {
    let model = test_model(8192);
    let mut msg = AssistantMessage::new("test-api", "test-provider", "m", 1);
    assert!(same_model(&model, &msg));
    msg.provider = "other".into();
    assert!(!same_model(&model, &msg));
}

#[test]
fn thinking_level_str_serializes() {
    assert_eq!(thinking_level_str(ModelThinkingLevel::Off), Some("off".to_owned()));
    assert_eq!(thinking_level_str(ModelThinkingLevel::High), Some("high".to_owned()));
}

#[test]
fn summarization_retry_clamps_oversized_max_retries() {
    assert_eq!(clamp_summarization_max_retries(0), 0);
    assert_eq!(clamp_summarization_max_retries(3), 3);
    assert_eq!(
        clamp_summarization_max_retries(u64::from(SUMMARIZATION_MAX_RETRIES_CEILING)),
        SUMMARIZATION_MAX_RETRIES_CEILING
    );
    assert_eq!(
        clamp_summarization_max_retries(u64::from(SUMMARIZATION_MAX_RETRIES_CEILING) + 1),
        SUMMARIZATION_MAX_RETRIES_CEILING
    );
    assert_eq!(
        clamp_summarization_max_retries(u64::MAX),
        SUMMARIZATION_MAX_RETRIES_CEILING
    );
}

#[test]
fn a_failure_that_names_another_cause_is_no_overflow() {
    let mut msg = AssistantMessage::new("a", "p", "m", 1);
    msg.stop_reason = StopReason::Error;
    msg.error_message = Some("some failure".into());
    assert!(overflow_decision(&msg, 0, true, false));
    assert!(!overflow_decision(&msg, 0, true, true));
    assert!(!overflow_decision(&msg, 0, false, false));
}
