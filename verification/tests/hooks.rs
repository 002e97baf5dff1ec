//! What the turns of a run see of the session, and what is stored of it.

use agent_session::extension_runner::{
    has_command, tool_hook_outcome, ExtensionRunnerError, NullExtensionRunner, SessionHooks,
    SystemPromptState, ToolHookReply, TurnContext,
};
use agent_session::json::Json;
use agent_session::messages::{AgentMessage, CustomAgentMessage, Model};
use agent_session::persistence::PersistPlan;
use agent_session::prompt::{user_text, CustomMessageContent, CustomMessageInput};
use agent_session::session::{
    AgentSession, AgentSessionConfig, ResolvedCompactionSettings, RetrySettings, SessionError,
    SessionSettings,
};
use std::sync::Arc;

fn settings() -> SessionSettings {
    SessionSettings {
        retry: RetrySettings { enabled: true, max_retries: 3, base_delay_ms: 1_000 },
        compaction: ResolvedCompactionSettings {
            enabled: true,
            reserve_tokens: 1_000,
            keep_recent_tokens: 1_000,
        },
        default_thinking_level: None,
        default_provider: None,
        default_model: None,
        shell_command_prefix: None,
        shell_path: None,
    }
}

fn test_model() -> Model {
    Model {
        id: "m".to_owned(),
        name: "m".to_owned(),
        api: "test-api".to_owned(),
        provider: "test-provider".to_owned(),
        base_url: String::new(),
        reasoning: false,
        thinking_level_map: None,
        context_window: 8_192,
        max_tokens: 1_024,
    }
}

fn make_session() -> AgentSession {
    let config = match AgentSessionConfig::test_config("stub".to_owned(), test_model(), settings())
    {
        Ok(config) => config,
        Err(error) => panic!("{error:?}"),
    };
    match AgentSession::new(config) {
        Ok(session) => session,
        Err(error) => panic!("{error:?}"),
    }
}

fn turn() -> TurnContext {
    TurnContext { system_prompt: "old".to_owned(), tools: vec!["read".to_owned()] }
}

fn custom(role: &str) -> AgentMessage {
    AgentMessage::Custom(CustomAgentMessage { role: role.to_owned(), payload: Arc::new(vec![]) })
}

fn decoded() -> CustomMessageInput {
    CustomMessageInput {
        custom_type: "t".to_owned(),
        content: CustomMessageContent::Text(String::new()),
        display: false,
        details: None,
    }
}

#[test]
fn extensions_that_are_not_there_handle_nothing() {
    assert!(!NullExtensionRunner.has_handlers("input"));
    assert!(NullExtensionRunner.get_registered_commands().is_empty());
    assert!(has_command(&vec!["a".to_owned(), "b".to_owned()], "b"));
    assert!(!has_command(&vec!["ab".to_owned()], "a"));
}

#[test]
fn the_next_turn_has_the_prompt_and_the_tools_of_the_session() {
    let mut hooks = SessionHooks::null();
    let next = hooks.prepare_next_turn(turn());
    assert_eq!(next.system_prompt, "");
    assert_eq!(next.tools, vec!["read"], "without tools of its own the turn keeps its tools");
    hooks.set_base_system_prompt("base".to_owned());
    hooks.set_tools(vec!["bash".to_owned()]);
    let next = hooks.prepare_next_turn(turn());
    assert_eq!(next.system_prompt, "base");
    assert_eq!(next.tools, vec!["bash"]);
    hooks.set_system_prompt_override(Some("this turn".to_owned()));
    assert_eq!(hooks.prepare_next_turn(turn()).system_prompt, "this turn");
    assert_eq!(
        hooks.system_prompt_snapshot(),
        SystemPromptState {
            base: "base".to_owned(),
            override_prompt: Some("this turn".to_owned()),
        }
    );
    hooks.set_system_prompt_override(None);
    assert_eq!(hooks.effective_system_prompt(), "base");
}

#[test]
fn hooks_about_tool_calls_come_to_a_result() {
    assert_eq!(tool_hook_outcome(ToolHookReply::NoHandlers), Ok(None));
    assert_eq!(tool_hook_outcome(ToolHookReply::Cancelled), Ok(None));
    assert_eq!(
        tool_hook_outcome(ToolHookReply::Answered(Some(Json::Bool(true)))),
        Ok(Some(Json::Bool(true)))
    );
    let failed = ToolHookReply::Failed(ExtensionRunnerError::Failed("boom".to_owned()));
    assert_eq!(tool_hook_outcome(failed), Err("extension error: boom".to_owned()));
}

#[test]
fn messages_are_stored_by_their_role() {
    let s = make_session();
    assert_eq!(
        s.persist_message_end(&user_text("hi", &vec![], 1), None),
        Ok(PersistPlan::AppendMessage)
    );
    assert_eq!(
        s.persist_message_end(&custom("custom"), Some(decoded())),
        Ok(PersistPlan::AppendCustom(decoded()))
    );
    assert_eq!(
        s.persist_message_end(&custom("custom"), None),
        Ok(PersistPlan::AppendMessage)
    );
    assert_eq!(s.persist_message_end(&custom("bashExecution"), None), Ok(PersistPlan::Nothing));
}

#[test]
fn nothing_is_stored_after_a_failure() {
    let mut s = make_session();
    s.record_session_error(SessionError::Other("disk".to_owned()));
    assert_eq!(
        s.persist_message_end(&user_text("hi", &vec![], 1), None),
        Err(SessionError::Io {
            path: "session persistence".to_owned(),
            message: "session persistence is blocked by an earlier failure".to_owned(),
        })
    );
}

#[test]
fn a_model_that_does_not_reason_does_not_think() {
    let mut s = make_session();
    assert!(!s.supports_thinking());
    s.agent.model.reasoning = true;
    assert!(s.supports_thinking());
    assert!(!s.is_summarizing());
}
