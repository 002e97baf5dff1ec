//! Commands of extensions.

use agent_session::bridge_types::SessionCommand;
use agent_session::commands::{
    custom_message_input, parse_deliver_as, user_message_parts, CommandOperation, CommandParts,
    CommandTask, MessageInputError,
};
use agent_session::events::AgentSessionEvent;
use agent_session::extension::ExtensionBindings;
use agent_session::json::Json;
use agent_session::messages::{ImageContent, Model, ModelThinkingLevel, SessionEntry};
use agent_session::prompt::{CustomMessageContent, DeliverAs};
use agent_session::session::{
    AgentSession, AgentSessionConfig, Effect, ResolvedCompactionSettings, RetrySettings,
    SessionSettings,
};
use std::sync::Arc;

fn settings() -> SessionSettings {
    SessionSettings {
        retry: RetrySettings { enabled: true, max_retries: 3, base_delay_ms: 1_000 },
        compaction: ResolvedCompactionSettings {
            enabled: true,
            reserve_tokens: 1_000,
            keep_recent_tokens: 1_000,
        },
        default_thinking_level: None,
        default_provider: None,
        default_model: None,
        shell_command_prefix: None,
        shell_path: None,
    }
}

fn test_model() -> Model {
    Model {
        id: "m".to_owned(),
        name: "m".to_owned(),
        api: "test-api".to_owned(),
        provider: "test-provider".to_owned(),
        base_url: String::new(),
        reasoning: false,
        thinking_level_map: None,
        context_window: 8_192,
        max_tokens: 1_024,
    }
}

fn make_session() -> AgentSession {
    let config = match AgentSessionConfig::test_config("stub".to_owned(), test_model(), settings())
    {
        Ok(config) => config,
        Err(error) => panic!("{error:?}"),
    };
    match AgentSession::new(config) {
        Ok(session) => session,
        Err(error) => panic!("{error:?}"),
    }
}

fn object(members: Vec<(&str, Json)>) -> Json {
    Json::Object(Arc::new(
        members.into_iter().map(|(key, value)| (key.to_owned(), value)).collect(),
    ))
}

fn text(value: &str) -> Json {
    Json::Text(value.to_owned())
}

fn no_parts() -> CommandParts {
    CommandParts { content: None, images: vec![] }
}

fn listening() -> AgentSession {
    let mut session = make_session();
    session.bind_extensions(ExtensionBindings {
        has_error_listener: true,
        has_shutdown_handler: true,
        ..ExtensionBindings::default()
    });
    session
}

fn image() -> ImageContent {
    ImageContent { data: "AAAA".to_owned(), mime_type: "image/png".to_owned() }
}

#[test]
fn ways_of_delivery_are_read() {
    assert_eq!(parse_deliver_as("steer"), Some(DeliverAs::Steer));
    assert_eq!(parse_deliver_as("followUp"), Some(DeliverAs::FollowUp));
    assert_eq!(parse_deliver_as("nextTurn"), Some(DeliverAs::NextTurn));
    assert_eq!(parse_deliver_as("Steer"), None);
    assert_eq!(parse_deliver_as(""), None);
}

#[test]
fn a_message_needs_a_type() {
    assert_eq!(
        custom_message_input(&object(vec![("content", text("x"))]), None),
        Err(MessageInputError::TypeRequired)
    );
    assert_eq!(
        custom_message_input(&object(vec![("customType", Json::Integer(1))]), None),
        Err(MessageInputError::TypeRequired)
    );
    assert_eq!(MessageInputError::TypeRequired.message(), "customType is required");
    let failed = custom_message_input(
        &object(vec![("customType", text("t"))]),
        Some(Err("no".to_owned())),
    );
    let error = MessageInputError::InvalidContent("no".to_owned());
    assert_eq!(error.message(), "invalid content: no");
    assert_eq!(failed, Err(error));
}

#[test]
fn a_message_has_defaults() {
    let read = custom_message_input(
        &object(vec![("customType", text("t")), ("details", Json::Null)]),
        None,
    );
    match read {
        Ok(input) => {
            assert_eq!(input.custom_type, "t");
            assert_eq!(input.content, CustomMessageContent::Text(String::new()));
            assert!(!input.display);
            assert_eq!(input.details, None);
        }
        Err(error) => panic!("{error:?}"),
    }
    let full = object(vec![
        ("customType", text("t")),
        ("display", Json::Bool(true)),
        ("details", Json::Integer(4)),
    ]);
    match custom_message_input(&full, None) {
        Ok(input) => {
            assert!(input.display);
            assert_eq!(input.details, Some(Json::Integer(4)));
        }
        Err(error) => panic!("{error:?}"),
    }
}

#[test]
fn the_parts_of_a_message_are_texts_and_images() {
    assert_eq!(user_message_parts(&text("hi"), &vec![]), ("hi".to_owned(), vec![]));
    let block = |kind: &str, value: &str| object(vec![("type", text(kind)), ("text", text(value))]);
    let blocks = Json::Array(Arc::new(vec![
        block("text", "one"),
        object(vec![("type", text("image"))]),
        block("text", "two"),
        object(vec![("type", text("image"))]),
    ]));
    let decoded = vec![None, Some(image()), None, None];
    let (read, images) = user_message_parts(&blocks, &decoded);
    assert_eq!(read, "one\ntwo");
    assert_eq!(images, vec![image()]);
    assert_eq!(user_message_parts(&Json::Null, &vec![]), (String::new(), vec![]));
}

#[test]
fn a_custom_message_is_sent_as_its_options_say() {
    let mut s = listening();
    let message = object(vec![("customType", text("t"))]);
    let options =
        object(vec![("triggerTurn", Json::Bool(true)), ("deliverAs", text("followUp"))]);
    let task = s.apply_session_command(
        SessionCommand::SendMessage { message, options: Some(options) },
        no_parts(),
    );
    match task {
        CommandTask::SendCustom { trigger_turn, deliver_as, input } => {
            assert!(trigger_turn);
            assert_eq!(deliver_as, Some(DeliverAs::FollowUp));
            assert_eq!(input.custom_type, "t");
        }
        other => panic!("{other:?}"),
    }
    let task = s.apply_session_command(
        SessionCommand::SendMessage { message: Json::Null, options: None },
        no_parts(),
    );
    assert_eq!(task, CommandTask::Done);
    assert_eq!(
        s.outbox,
        vec![Effect::ReportError("sendMessage: customType is required".to_owned())]
    );
}

#[test]
fn a_user_message_never_waits_for_the_next_turn() {
    let mut s = listening();
    let send = |s: &mut AgentSession, way: &str| {
        s.apply_session_command(
            SessionCommand::SendUserMessage {
                content: text("hi"),
                options: Some(object(vec![("deliverAs", text(way))])),
            },
            no_parts(),
        )
    };
    let sent = |deliver_as| CommandTask::SendUser {
        text: "hi".to_owned(),
        images: vec![],
        deliver_as,
    };
    assert_eq!(send(&mut s, "nextTurn"), sent(None));
    assert_eq!(send(&mut s, "steer"), sent(Some(DeliverAs::Steer)));
    assert_eq!(send(&mut s, "soon"), sent(None));
}

#[test]
fn other_commands_are_handed_on_or_done() {
    let mut s = listening();
    let task = s.apply_session_command(
        SessionCommand::AppendEntry { custom_type: "t".to_owned(), data: None },
        no_parts(),
    );
    assert_eq!(task, CommandTask::AppendEntry { custom_type: "t".to_owned(), data: None });
    let task = s.apply_session_command(
        SessionCommand::SetSessionName { name: "n".to_owned() },
        no_parts(),
    );
    assert_eq!(task, CommandTask::SetSessionName { name: "n".to_owned() });
    let task = s.apply_session_command(SessionCommand::RefreshTools, no_parts());
    assert_eq!(task, CommandTask::RefreshTools);
    assert!(s.outbox.is_empty());
    assert_eq!(
        s.apply_session_command(SessionCommand::Shutdown, no_parts()),
        CommandTask::Done
    );
    assert_eq!(s.outbox, vec![Effect::CallShutdownHandler]);
    assert_eq!(s.apply_session_command(SessionCommand::Abort, no_parts()), CommandTask::Done);
    assert!(s.outbox.contains(&Effect::AbortAgent));
}

#[test]
fn a_thinking_level_is_read_from_its_name() {
    let mut s = listening();
    s.agent.model.reasoning = true;
    let set = |s: &mut AgentSession, level: &str| {
        s.apply_session_command(
            SessionCommand::SetThinkingLevel { level: level.to_owned() },
            no_parts(),
        )
    };
    assert_eq!(set(&mut s, "high"), CommandTask::Done);
    assert_eq!(s.thinking_level(), ModelThinkingLevel::High);
    let told = s.outbox.len();
    assert_eq!(set(&mut s, "extreme"), CommandTask::Done);
    assert_eq!(s.thinking_level(), ModelThinkingLevel::High);
    assert_eq!(s.outbox.len(), told + 1);
    assert!(matches!(s.outbox.last(), Some(Effect::ReportError(m)) if m.contains("extreme")));
}

#[test]
fn failures_of_commands_name_them() {
    let mut s = listening();
    s.command_failed(CommandOperation::SetLabel, "no such entry");
    assert_eq!(s.outbox, vec![Effect::ReportError("setLabel: no such entry".to_owned())]);
    let mut quiet = make_session();
    quiet.command_failed(CommandOperation::AppendEntry, "disk");
    assert!(quiet.outbox.is_empty());
}

#[test]
fn an_appended_entry_is_told() {
    let mut s = make_session();
    s.entry_appended(None);
    assert!(s.outbox.is_empty());
    let entry = SessionEntry::Other { id: "1".to_owned(), kind: "custom".to_owned() };
    s.entry_appended(Some(entry.clone()));
    assert_eq!(
        s.outbox,
        vec![Effect::Emit(AgentSessionEvent::EntryAppended { entry })]
    );
}
