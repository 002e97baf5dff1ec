//! The state of a session.

use agent_session::events::{
    AgentEvent, AgentSessionEvent, SessionStartEvent, SessionStartReason,
};
use agent_session::json::Json;
use agent_session::messages::{
    AgentMessage, AssistantContent, AssistantMessage, CustomAgentMessage, Message, Model, ModelThinkingLevel,
    SessionEntry, StopReason,
};
use agent_session::persistence::{
    handle_agent_event_side_effects, normalize_replacement, user_message_text, SideEffect,
};
use agent_session::prompt::user_text;
use agent_session::resources::{
    extension_source_infos, lookup_source_info, LoadedExtension, SourceInfo,
};
use std::sync::Arc;
use agent_session::session::{
    AgentSession, AgentSessionConfig, AgentSessionError, CancelToken, Effect, QueueMode, ResolvedCompactionSettings, RetrySettings, SessionError, SessionSettings,
};

fn settings() -> SessionSettings {
    SessionSettings {
        retry: RetrySettings { enabled: true, max_retries: 3, base_delay_ms: 1_000 },
        compaction: ResolvedCompactionSettings {
            enabled: true,
            reserve_tokens: 1_000,
            keep_recent_tokens: 1_000,
        },
        default_thinking_level: None,
        default_provider: None,
        default_model: None,
        shell_command_prefix: None,
        shell_path: None,
    }
}

fn test_model() -> Model {
    Model {
        id: "m".to_owned(),
        name: "m".to_owned(),
        api: "test-api".to_owned(),
        provider: "test-provider".to_owned(),
        base_url: String::new(),
        reasoning: false,
        thinking_level_map: None,
        context_window: 8_192,
        max_tokens: 1_024,
    }
}

fn session_with(model: Model) -> AgentSession {
    let config = match AgentSessionConfig::test_config("stub".to_owned(), model, settings()) {
        Ok(config) => config,
        Err(error) => panic!("{error:?}"),
    };
    match AgentSession::new(config) {
        Ok(session) => session,
        Err(error) => panic!("{error:?}"),
    }
}

fn make_session() -> AgentSession {
    session_with(test_model())
}

fn assistant(stop_reason: StopReason) -> AssistantMessage {
    let mut message = AssistantMessage::new("test-api", "test-provider", "m", 1);
    message.stop_reason = stop_reason;
    message
}

fn llm(message: AssistantMessage) -> AgentMessage {
    AgentMessage::Llm(Message::Assistant(message))
}

#[test]
fn a_session_needs_an_agent_or_a_provider() {
    let mut config =
        match AgentSessionConfig::test_config("stub".to_owned(), test_model(), settings()) {
            Ok(config) => config,
            Err(error) => panic!("{error:?}"),
        };
    config.provider = None;
    assert!(matches!(
        AgentSession::new(config),
        Err(AgentSessionError::MissingAgentOrProvider)
    ));
}

#[test]
fn single_settled_across_simulated_continuation() {
    let mut s = make_session();
    s.mark_agent_run_active();
    assert!(!s.is_idle());
    s.mark_agent_run_active();
    assert!(s.outbox.is_empty(), "a continuation does not settle");
    s.emit_agent_settled();
    s.emit_agent_settled();
    let settled = s
        .outbox
        .iter()
        .filter(|e| matches!(e, Effect::Emit(AgentSessionEvent::AgentSettled)))
        .count();
    assert_eq!(settled, 1);
    assert!(s.is_idle());
}

#[test]
fn listener_unsubscribe() {
    let mut s = make_session();
    let first = s.subscribe();
    let second = s.subscribe();
    assert_ne!(first, second);
    s.unsubscribe(first);
    assert_eq!(s.listeners, vec![second]);
    s.unsubscribe(first);
    assert_eq!(s.listeners, vec![second]);
}

#[test]
fn dispose_cancels_pump_without_emitting_shutdown() {
    let mut s = make_session();
    s.begin_retry_abort(CancelToken(1));
    s.begin_bash_abort(CancelToken(2));
    s.dispose();
    s.dispose();
    assert_eq!(
        s.outbox,
        vec![
            Effect::Cancel(CancelToken(1)),
            Effect::Cancel(CancelToken(2)),
            Effect::DisconnectPump,
            Effect::AbortAgent,
            Effect::AwaitAgentIdle,
            Effect::InvalidateRunner,
        ]
    );
}

#[test]
fn abort_stops_everything() {
    let mut s = make_session();
    s.begin_retry_abort(CancelToken(1));
    s.begin_compaction_abort(CancelToken(2));
    s.begin_auto_compaction_abort(CancelToken(3));
    s.begin_bash_abort(CancelToken(4));
    s.abort();
    assert!(!s.is_retrying() && !s.is_compacting() && !s.is_bash_running());
    assert_eq!(
        s.outbox,
        vec![
            Effect::Cancel(CancelToken(1)),
            Effect::Cancel(CancelToken(2)),
            Effect::Cancel(CancelToken(3)),
            Effect::Cancel(CancelToken(4)),
            Effect::AbortAgent,
            Effect::AwaitIdle,
        ]
    );
}

#[test]
fn stale_auto_compaction_owner_cannot_clear_current_slot() {
    let mut s = make_session();
    let stale = s.begin_auto_compaction_abort(CancelToken(1));
    let current = s.begin_auto_compaction_abort(CancelToken(2));
    assert_ne!(stale, current);
    let cancelled = vec![Effect::Cancel(CancelToken(1))];
    assert_eq!(s.outbox, cancelled, "only the stale token is cancelled");
    s.clear_auto_compaction_abort(stale);
    assert!(s.is_compacting());
    assert_eq!(s.outbox, cancelled);
    s.clear_auto_compaction_abort(current);
    assert!(!s.is_compacting());
}

#[test]
fn queue_update_before_message_start_public() {
    let mut s = make_session();
    s.mark_agent_run_active();
    s.on_user_message_start(&user_text("first", &vec![], 1));
    assert!(s.outbox.is_empty(), "nothing waited");
    s.mirror_steering_push("steer-text".to_owned());
    assert_eq!(s.pending_message_count(), 1);
    s.on_user_message_start(&user_text("steer-text", &vec![], 1));
    assert_eq!(s.pending_message_count(), 0, "pending must be 0 at message_start:user");
    assert_eq!(
        s.outbox.last(),
        Some(&Effect::Emit(AgentSessionEvent::QueueUpdate {
            steering: Arc::new(vec![]),
            follow_up: Arc::new(vec![]),
        }))
    );
    s.mirror_follow_up_push("then right".to_owned());
    s.mirror_steering_push("go left".to_owned());
    s.on_user_message_start(&user_text("go left", &vec![], 1));
    assert_eq!(s.pending_messages(), (vec![], vec!["then right".to_owned()]));
}

#[test]
fn a_text_that_waits_twice_leaves_once() {
    let mut s = make_session();
    s.mirror_steering_push("again".to_owned());
    s.mirror_steering_push("again".to_owned());
    s.on_user_message_start(&user_text("again", &vec![], 1));
    assert_eq!(s.pending_message_count(), 1);
    s.clear_queue();
    assert_eq!(s.pending_message_count(), 0);
}

#[test]
fn success_ends_retrying_and_opens_the_latch() {
    let mut s = make_session();
    s.counters.retry_attempt = 2;
    s.lifecycle.overflow_recovery_attempted = true;
    let message = llm(assistant(StopReason::Stop));
    assert!(s.on_message_end(&message, Ok(None)).is_ok());
    assert_eq!(s.retry_attempt(), 0);
    assert!(!s.lifecycle.overflow_recovery_attempted);
    assert!(s.outbox.iter().any(|e| matches!(
        e,
        Effect::Emit(AgentSessionEvent::AutoRetryEnd { success: true, attempt: 2, .. })
    )));

    let mut s = make_session();
    s.counters.retry_attempt = 2;
    let message = llm(assistant(StopReason::Error));
    assert!(s.on_message_end(&message, Ok(None)).is_ok());
    assert_eq!(s.retry_attempt(), 2, "a failure keeps the count");
}

#[test]
fn the_first_storage_failure_counts() {
    let mut s = make_session();
    s.record_session_error(SessionError::Other("first".to_owned()));
    s.record_session_error(SessionError::Other("second".to_owned()));
    assert_eq!(s.take_session_error(), Some(SessionError::Other("first".to_owned())));
    assert_eq!(s.take_session_error(), None);
}

#[test]
fn only_a_trailing_answer_is_popped() {
    let mut s = make_session();
    s.agent.transcript = vec![user_text("hi", &vec![], 1), llm(assistant(StopReason::Error))];
    assert!(s.pop_last_if_assistant());
    assert!(!s.pop_last_if_assistant());
    assert_eq!(s.message_count(), 1);
    assert_eq!(s.assistant_count(), 0);
    assert_eq!(s.last_assistant(), None);
}

#[test]
fn message_end_replacement_updates_live_and_persists() {
    let mut first = assistant(StopReason::Stop);
    first.content = Arc::new(vec![AssistantContent::Text("original".to_owned())]);
    let original = llm(first);
    let mut other = assistant(StopReason::Stop);
    other.content = Arc::new(vec![AssistantContent::Text("replaced".to_owned())]);
    let mut s = make_session();
    s.agent.transcript.push(original.clone());
    let replaced = s.apply_message_end_replacement(original.clone(), Some(llm(other.clone())));
    assert_eq!(replaced, llm(other.clone()));
    assert_eq!(s.messages(), vec![llm(other.clone())]);
    let effect = handle_agent_event_side_effects(
        &AgentEvent::MessageEnd { message: original },
        &AgentSessionEvent::MessageEnd { message: llm(other.clone()) },
    );
    assert_eq!(effect, SideEffect::MessageEnd(llm(other)));
}

#[test]
fn product_converter_keeps_visible_messages_and_excludes_hidden_custom_messages() {
    let bash_message = |command: &str, output: &str, exclude_from_context: bool| {
        let mut payload = vec![
            ("command".to_owned(), Json::Text(command.to_owned())),
            ("output".to_owned(), Json::Text(output.to_owned())),
            ("exitCode".to_owned(), Json::Integer(0)),
            ("cancelled".to_owned(), Json::Bool(false)),
            ("truncated".to_owned(), Json::Bool(false)),
            ("timestamp".to_owned(), Json::Integer(1)),
        ];
        if exclude_from_context {
            payload.push(("excludeFromContext".to_owned(), Json::Bool(true)));
        }
        AgentMessage::Custom(CustomAgentMessage {
            role: "bashExecution".to_owned(),
            payload: Arc::new(payload),
        })
    };
    let hidden = AgentMessage::Custom(CustomAgentMessage {
        role: "custom".to_owned(),
        payload: Arc::new(vec![("excludeFromContext".to_owned(), Json::Bool(true))]),
    });
    let visible = || bash_message("echo visible", "visible", false);
    let mut all = vec![
        visible(),
        bash_message("echo hidden", "hidden", true),
        hidden,
        user_text("continue", &vec![], 1),
    ];
    agent_session::session::retain_context_visible_messages(&mut all);
    assert_eq!(all, vec![visible(), user_text("continue", &vec![], 1)]);
}

#[test]
fn hidden_messages_are_no_part_of_an_estimate() {
    let mut s = make_session();
    let hidden = AgentMessage::Custom(CustomAgentMessage {
        role: "note".to_owned(),
        payload: Arc::new(vec![("excludeFromContext".to_owned(), Json::Bool(true))]),
    });
    s.agent.transcript = vec![hidden, user_text("hi", &vec![], 1)];
    assert_eq!(s.messages().len(), 2);
    assert_eq!(s.context_messages(), vec![user_text("hi", &vec![], 1)]);
}

#[test]
fn a_custom_message_without_content_gets_none() {
    let bare = AgentMessage::Custom(CustomAgentMessage {
        role: "custom".to_owned(),
        payload: Arc::new(vec![("customType".to_owned(), Json::Text("t".to_owned()))]),
    });
    match normalize_replacement(bare) {
        AgentMessage::Custom(custom) => assert_eq!(
            custom.payload.last(),
            Some(&("content".to_owned(), Json::Array(Arc::new(vec![]))))
        ),
        other => panic!("{other:?}"),
    }
    let user = user_text("hi", &vec![], 1);
    assert_eq!(normalize_replacement(user.clone()), user);
    assert_eq!(user_message_text(&user), "hi");
}

#[test]
fn modes_and_flags_are_kept() {
    let mut s = make_session();
    s.set_steering_mode(QueueMode::All);
    s.set_follow_up_mode(QueueMode::OneAtATime);
    assert_eq!(s.steering_mode(), QueueMode::All);
    assert_eq!(s.follow_up_mode(), QueueMode::OneAtATime);
    s.set_auto_compaction_enabled(false);
    assert!(!s.auto_compaction_enabled());
    assert!(s.auto_retry_enabled());
    assert_eq!(s.thinking_level(), ModelThinkingLevel::Off);
}

#[test]
fn barriers_are_waited_for_until_they_are_taken_back() {
    let mut s = make_session();
    let first = s.register_event_backpressure_hook();
    let second = s.register_event_backpressure_hook();
    assert_eq!(s.await_event_backpressure(), vec![first, second]);
    s.unregister_event_backpressure_hook(first);
    assert_eq!(s.await_event_backpressure(), vec![second]);
}

#[test]
fn the_start_of_a_session_is_kept_for_the_first_bind() {
    let mut config =
        match AgentSessionConfig::test_config("stub".to_owned(), test_model(), settings()) {
            Ok(config) => config,
            Err(error) => panic!("{error:?}"),
        };
    config.session_start_event = Some(SessionStartEvent {
        reason: SessionStartReason::Fork,
        previous_session_file: Some("/tmp/p".to_owned()),
    });
    let mut s = match AgentSession::new(config) {
        Ok(s) => s,
        Err(error) => panic!("{error:?}"),
    };
    assert_eq!(s.tell_session_start(), SessionStartReason::Startup);
    assert_eq!(s.tell_session_start(), SessionStartReason::Startup);
    assert_eq!(
        s.outbox,
        vec![Effect::ToExtensions(AgentSessionEvent::SessionStart {
            reason: SessionStartReason::Fork,
            previous_session_file: Some("/tmp/p".to_owned()),
        })]
    );
}

#[test]
fn a_later_extension_counts_for_its_path() {
    let info = |source: &str| SourceInfo {
        path: "/x".to_owned(),
        source: source.to_owned(),
        scope: None,
        origin: None,
        base_dir: None,
    };
    let loaded = vec![
        LoadedExtension {
            path: "/x".to_owned(),
            resolved_path: String::new(),
            source_info: info("a"),
        },
        LoadedExtension {
            path: "/x".to_owned(),
            resolved_path: "/real/x".to_owned(),
            source_info: info("b"),
        },
    ];
    let entries = extension_source_infos(Some(&loaded));
    assert_eq!(lookup_source_info(&entries, "/x").map(|i| i.source.as_str()), Some("b"));
    assert_eq!(lookup_source_info(&entries, "/real/x").map(|i| i.path.as_str()), Some("/real/x"));
    assert!(lookup_source_info(&entries, "/y").is_none());
    assert!(extension_source_infos(None).is_empty());
}

#[test]
fn an_entry_of_the_storage_is_told() {
    let mut s = make_session();
    let entry = SessionEntry::Other { id: "1".to_owned(), kind: "message".to_owned() };
    let message = user_text("hi", &vec![], 1);
    assert!(s.on_message_end(&message, Ok(Some(entry.clone()))).is_ok());
    assert_eq!(
        s.outbox,
        vec![Effect::Emit(AgentSessionEvent::EntryAppended { entry })]
    );
    let failed = s.on_message_end(&message, Err(SessionError::Other("disk".to_owned())));
    assert_eq!(failed, Err(SessionError::Other("disk".to_owned())));
}
