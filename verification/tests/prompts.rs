//! Prompts, queues and runs.

use agent_session::bash::{BashExecError, BashResult, ExecuteBashOptions};
use agent_session::events::AgentSessionEvent;
use agent_session::extension_runner::{BeforeAgentStartResult, ExtensionRunnerError, InputTransformResult};
use agent_session::json::Json;
use agent_session::messages::{
    AgentMessage, AssistantMessage, ImageContent, Message, Model, StopReason,
};
use agent_session::persistence::user_message_text;
use agent_session::prompt::{
    build_custom_agent_message, observe_run_agent_end, parse_slash_command, preflight_result,
    run_emits_agent_end, send_user_message, user_text, AgentLoopError, AuthReply, CustomDelivery,
    CustomMessageContent, CustomMessageInput, DeliverAs, EndBarrier, InputReply, PreflightOutcome,
    PreflightReply, PreflightStep, PromptError, PromptOptions, PromptRun, RunStep,
    StreamingBehavior,
};
use agent_session::resources::{Skill, SourceInfo};
use agent_session::session::{
    AgentSession, AgentSessionConfig, CancelToken, Effect, ResolvedCompactionSettings,
    RetrySettings, SessionError, SessionSettings,
};

fn settings() -> SessionSettings {
    SessionSettings {
        retry: RetrySettings { enabled: true, max_retries: 3, base_delay_ms: 1_000 },
        compaction: ResolvedCompactionSettings {
            enabled: true,
            reserve_tokens: 1_000,
            keep_recent_tokens: 1_000,
        },
        default_thinking_level: None,
        default_provider: None,
        default_model: None,
        shell_command_prefix: None,
        shell_path: None,
    }
}

fn test_model() -> Model {
    Model {
        id: "m".to_owned(),
        name: "m".to_owned(),
        api: "test-api".to_owned(),
        provider: "test-provider".to_owned(),
        base_url: String::new(),
        reasoning: false,
        thinking_level_map: None,
        context_window: 8_192,
        max_tokens: 1_024,
    }
}

fn make_session() -> AgentSession {
    let config = match AgentSessionConfig::test_config("stub".to_owned(), test_model(), settings())
    {
        Ok(config) => config,
        Err(error) => panic!("{error:?}"),
    };
    match AgentSession::new(config) {
        Ok(session) => session,
        Err(error) => panic!("{error:?}"),
    }
}

fn session_without_model() -> AgentSession {
    let mut config =
        match AgentSessionConfig::test_config("stub".to_owned(), test_model(), settings()) {
            Ok(config) => config,
            Err(error) => panic!("{error:?}"),
        };
    config.model = None;
    match AgentSession::new(config) {
        Ok(session) => session,
        Err(error) => panic!("{error:?}"),
    }
}

fn retry_lifecycle(s: &AgentSession) -> Vec<String> {
    s.outbox
        .iter()
        .filter_map(|effect| match effect {
            Effect::Emit(AgentSessionEvent::AutoRetryStart { attempt, .. }) => {
                Some(format!("start:{attempt}"))
            }
            Effect::Emit(AgentSessionEvent::AutoRetryEnd { success, .. }) => {
                Some(format!("end:{success}"))
            }
            Effect::Emit(AgentSessionEvent::AgentSettled) => Some("settled".to_owned()),
            _ => None,
        })
        .collect()
}

fn assistant(stop_reason: StopReason, error: Option<&str>) -> AssistantMessage {
    let mut message = AssistantMessage::new("test-api", "test-provider", "m", 1);
    message.stop_reason = stop_reason;
    message.error_message = error.map(str::to_owned);
    message
}

fn answers(s: &mut AgentSession, message: AssistantMessage) {
    s.agent.transcript.push(AgentMessage::Llm(Message::Assistant(message)));
}

fn bash_result(output: &str) -> BashResult {
    BashResult {
        output: output.to_owned(),
        exit_code: Some(0),
        cancelled: false,
        truncated: false,
        full_output_path: None,
    }
}

fn flush_all(s: &mut AgentSession) {
    while let Some((record, message)) = s.next_pending_bash() {
        assert_eq!(s.flush_pending_bash_messages(&record, message, Ok(None)), Ok(()));
    }
}

fn custom(text: &str) -> CustomMessageInput {
    CustomMessageInput {
        custom_type: "note".to_owned(),
        content: CustomMessageContent::Text(text.to_owned()),
        display: true,
        details: None,
    }
}

fn custom_message(text: &str) -> AgentMessage {
    build_custom_agent_message(&custom(text), Json::Text(text.to_owned()), 1)
}

fn image() -> ImageContent {
    ImageContent { data: "AAAA".to_owned(), mime_type: "image/png".to_owned() }
}

fn plain_run(s: &mut AgentSession, text: &str, replies: Vec<PreflightReply>) -> (PromptRun, PreflightStep) {
    let (mut run, mut step) = s.prompt(text, PromptOptions::new(), &vec![]);
    for reply in replies {
        let (next_run, next_step) = s.prompt_preflight(run, reply, 1);
        run = next_run;
        step = next_step;
    }
    (run, step)
}

fn flushed() -> PreflightReply {
    PreflightReply::Flushed { result: Ok(()), no_model_text: "No model selected.".to_owned() }
}

fn failure() -> PromptError {
    PromptError::Message("boom".to_owned())
}

fn no_handlers() -> PreflightReply {
    PreflightReply::InputTransformed(InputReply::NoHandlers)
}

fn to_auth(auth: AuthReply, text: &str) -> Vec<PreflightReply> {
    vec![
        no_handlers(),
        PreflightReply::Expanded(text.to_owned()),
        flushed(),
        PreflightReply::AuthChecked(auth),
    ]
}

#[test]
fn slash_commands_are_split_at_the_first_space() {
    let parts = |name: &str, args: &str| Some((name.to_owned(), args.to_owned()));
    assert_eq!(parse_slash_command("/name rest of it"), parts("name", "rest of it"));
    assert_eq!(parse_slash_command("/name"), parts("name", ""));
    assert_eq!(parse_slash_command("/name "), parts("name", ""));
    assert_eq!(parse_slash_command("/ x"), parts("", "x"));
    assert_eq!(parse_slash_command("/"), parts("", ""));
    assert_eq!(parse_slash_command("name"), None);
    assert_eq!(parse_slash_command(""), None);
    assert_eq!(parse_slash_command("/a\tb c"), parts("a\tb", "c"));
}

#[test]
fn the_text_of_a_message_reads_back() {
    let message = user_text("look", &vec![image(), image()], 1);
    assert_eq!(user_message_text(&message), "look");
    assert_eq!(message.role(), "user");
}

#[test]
fn only_a_run_that_started_tells_its_end() {
    let failed = |text: &str| Err(AgentLoopError::Message(text.to_owned()));
    assert!(run_emits_agent_end(&Ok(())));
    assert!(run_emits_agent_end(&failed("boom")));
    assert!(!run_emits_agent_end(&failed("agent is already running")));
    assert!(!run_emits_agent_end(&failed("No messages to continue from")));
    assert!(!run_emits_agent_end(&failed("Cannot continue from message role: assistant")));
    assert_eq!(observe_run_agent_end(&Ok(())), EndBarrier::Required);
    assert_eq!(observe_run_agent_end(&failed("boom")), EndBarrier::Bounded);
    assert_eq!(observe_run_agent_end(&failed("agent is already running")), EndBarrier::Skipped);
}

#[test]
fn single_prompt_records_messages() {
    let mut s = make_session();
    let (run, step) = plain_run(&mut s, "hi", to_auth(AuthReply::NoRuntime, "hi"));
    assert_eq!(step, PreflightStep::AskExtensions);
    assert_eq!(run.messages, vec![user_text("hi", &vec![], 1)]);
    let (_, step) = s.prompt_preflight(run, PreflightReply::ExtensionsAnswered(Ok(None)), 1);
    let messages = match step {
        PreflightStep::Finished(Ok(PreflightOutcome::Run(messages))) => messages,
        other => panic!("{other:?}"),
    };
    assert_eq!(messages, vec![user_text("hi", &vec![], 1)]);
    s.agent.transcript = messages;
    answers(&mut s, assistant(StopReason::Stop, None));
    let roles: Vec<String> = s.messages().iter().map(|m| m.role().to_owned()).collect();
    assert_eq!(roles, vec!["user", "assistant"]);
    assert!(preflight_result(&Ok(PreflightOutcome::Queued)));
    assert!(!preflight_result(&Err(failure())));
}

#[test]
fn concurrent_prompt_without_behavior_errors() {
    let mut s = make_session();
    s.mark_agent_run_active();
    let (_, step) = plain_run(
        &mut s,
        "second",
        vec![no_handlers(), PreflightReply::Expanded("second".to_owned())],
    );
    assert_eq!(
        step,
        PreflightStep::Finished(Err(PromptError::Message(
            "Agent is already processing. Specify streamingBehavior ('steer' or 'followUp') to \
             queue the message."
                .to_owned()
        )))
    );
}

#[test]
fn no_model_error() {
    let mut s = session_without_model();
    let replies = vec![
        no_handlers(),
        PreflightReply::Expanded("hi".to_owned()),
        flushed(),
    ];
    let (_, step) = plain_run(&mut s, "hi", replies);
    match step {
        PreflightStep::Finished(Err(PromptError::Message(text))) => {
            assert!(text.contains("No model selected"), "{text}");
        }
        other => panic!("{other:?}"),
    }
}

#[test]
fn missing_credentials_are_said_in_the_words_of_the_host() {
    let fails = |text: &str| {
        PreflightStep::Finished(Err(PromptError::Message(text.to_owned())))
    };
    let mut s = make_session();
    let reply = AuthReply::NoKey("No key for test-provider.".to_owned());
    let (_, step) = plain_run(&mut s, "hi", to_auth(reply, "hi"));
    assert_eq!(step, fails("No key for test-provider."));
    let reply = AuthReply::OauthFailed("Sign in again.".to_owned());
    let (_, step) = plain_run(&mut s, "hi", to_auth(reply, "hi"));
    assert_eq!(step, fails("Sign in again."));
}

#[test]
fn the_last_answer_is_checked_for_compaction_before_a_prompt() {
    let mut s = make_session();
    let last = assistant(StopReason::Stop, None);
    answers(&mut s, last.clone());
    let (run, step) = plain_run(&mut s, "hi", to_auth(AuthReply::Configured, "hi"));
    assert_eq!(step, PreflightStep::CheckCompaction(last));
    assert!(run.messages.is_empty());
    let (run, step) = s.prompt_preflight(run, PreflightReply::CompactionChecked, 1);
    assert_eq!(step, PreflightStep::AskExtensions);
    assert_eq!(run.messages.len(), 1);
}

#[test]
fn queue_steer_and_follow_up() {
    let mut s = make_session();
    assert_eq!(s.steer("a", "a".to_owned(), &vec![], &vec![], 1), Ok(()));
    assert_eq!(s.pending_message_count(), 1);
    assert_eq!(s.follow_up("b", "b".to_owned(), &vec![], &vec![], 1), Ok(()));
    assert_eq!(s.pending_message_count(), 2);
    assert_eq!(s.pending_messages(), (vec!["a".to_owned()], vec!["b".to_owned()]));
    assert_eq!(s.agent.steering_queue, vec![user_text("a", &vec![], 1)]);
    assert_eq!(s.agent.follow_up_queue, vec![user_text("b", &vec![], 1)]);
    s.clear_queue();
    assert_eq!(s.pending_message_count(), 0);
    let updates = s
        .outbox
        .iter()
        .filter(|e| matches!(e, Effect::Emit(AgentSessionEvent::QueueUpdate { .. })))
        .count();
    assert_eq!(updates, 3);
}

#[test]
fn steer_extension_command_rejected() {
    let mut s = make_session();
    let commands = vec!["testcmd".to_owned()];
    let refused = s.steer("/testcmd x", "x".to_owned(), &vec![], &commands, 1);
    assert_eq!(
        refused,
        Err(PromptError::Message(
            "Extension command \"/testcmd\" cannot be queued. Use prompt() or execute the command \
             when not streaming."
                .to_owned()
        ))
    );
    assert!(s.follow_up("/testcmd", "x".to_owned(), &vec![], &commands, 1).is_err());
    assert_eq!(s.pending_message_count(), 0);
    assert!(s.agent.steering_queue.is_empty() && s.outbox.is_empty());
}

#[test]
fn extension_command_dispatched_idle() {
    let mut s = make_session();
    let commands = vec!["testcmd".to_owned()];
    let (run, step) = s.prompt("/testcmd hello world", PromptOptions::new(), &commands);
    assert_eq!(
        step,
        PreflightStep::ExecuteCommand {
            name: "testcmd".to_owned(),
            args: "hello world".to_owned()
        }
    );
    let handled = PreflightReply::CommandExecuted { name: "testcmd".to_owned(), result: Ok(true) };
    let (_, step) = s.prompt_preflight(run, handled, 1);
    assert_eq!(step, PreflightStep::Finished(Ok(PreflightOutcome::Handled)));
    assert!(s.messages().is_empty());
}

#[test]
fn null_runner_command_passes_through() {
    let s = make_session();
    let (_, step) = s.prompt("/nonexistent hello", PromptOptions::new(), &vec![]);
    assert_eq!(
        step,
        PreflightStep::TransformInput { source: "interactive".to_owned(), streaming: None }
    );
    let options = PromptOptions { expand_prompt_templates: false, ..PromptOptions::default() };
    let (_, step) = s.prompt("/deploy", options, &vec!["deploy".to_owned()]);
    assert!(matches!(step, PreflightStep::TransformInput { .. }));
}

#[test]
fn a_command_that_fails_is_told_to_the_runner() {
    let mut s = make_session();
    let (run, _) = s.prompt("/deploy", PromptOptions::new(), &vec!["deploy".to_owned()]);
    let failed = PreflightReply::CommandExecuted {
        name: "deploy".to_owned(),
        result: Err(ExtensionRunnerError::Failed("boom".to_owned())),
    };
    let (_, step) = s.prompt_preflight(run, failed, 1);
    assert_eq!(step, PreflightStep::Finished(Ok(PreflightOutcome::Handled)));
    assert_eq!(
        s.outbox,
        vec![Effect::RunnerError("command:deploy: extension error: boom".to_owned())]
    );
}

#[test]
fn extensions_may_change_or_take_an_input() {
    let mut s = make_session();
    let (run, _) = s.prompt("hi", PromptOptions::new(), &vec![]);
    let answer = InputReply::Answered {
        result: InputTransformResult {
            handled: false,
            text: Some("changed".to_owned()),
            images: None,
        },
        images: Some(vec![image()]),
    };
    let (run, step) = s.transform_input(run, answer, 1);
    assert_eq!(step, PreflightStep::Expand);
    assert_eq!(run.text, "changed");
    let (run, _) = s.prompt_expanded(run, "expanded".to_owned(), 1);
    assert_eq!(run.text, "expanded");

    let (run, _) = s.prompt("hi", PromptOptions::new(), &vec![]);
    let taken = InputReply::Answered {
        result: InputTransformResult { handled: true, text: None, images: None },
        images: None,
    };
    let (_, step) = s.transform_input(run, taken, 1);
    assert_eq!(step, PreflightStep::Finished(Ok(PreflightOutcome::Handled)));

    let (run, _) = s.prompt("hi", PromptOptions::new(), &vec![]);
    let (_, step) =
        s.transform_input(run, InputReply::Failed(ExtensionRunnerError::Invalidated), 1);
    assert_eq!(
        step,
        PreflightStep::Finished(Err(PromptError::Message(
            "extension context invalidated".to_owned()
        )))
    );
}

#[test]
fn a_prompt_waits_while_a_run_is_active() {
    let mut s = make_session();
    s.mark_agent_run_active();
    let options = PromptOptions {
        streaming_behavior: Some(StreamingBehavior::FollowUp),
        images: vec![image()],
        ..PromptOptions::default()
    };
    let (run, step) = s.prompt("later", options, &vec![]);
    assert_eq!(
        step,
        PreflightStep::TransformInput {
            source: "interactive".to_owned(),
            streaming: Some(StreamingBehavior::FollowUp),
        }
    );
    assert_eq!(StreamingBehavior::FollowUp.as_str(), "followUp");
    let (run, _) = s.prompt_preflight(run, no_handlers(), 1);
    let (_, step) = s.prompt_preflight(run, PreflightReply::Expanded("later".to_owned()), 1);
    assert_eq!(step, PreflightStep::Finished(Ok(PreflightOutcome::Queued)));
    assert_eq!(s.agent.follow_up_queue, vec![user_text("later", &vec![image()], 1)]);
    assert_eq!(s.pending_messages().1, vec!["later".to_owned()]);
}

#[test]
fn prompt_preflight_flushes_bash_before_validation() {
    let mut s = session_without_model();
    s.agent.is_streaming = true;
    let pending = bash_result("pending");
    let options = ExecuteBashOptions::default();
    assert!(s.record_bash_result("printf pending", pending, &options, 1).is_none());
    s.agent.is_streaming = false;
    assert!(s.has_pending_bash_messages());
    let (run, step) = plain_run(
        &mut s,
        "x",
        vec![no_handlers(), PreflightReply::Expanded("x".to_owned())],
    );
    assert_eq!(step, PreflightStep::FlushBash, "the model is looked at afterwards");
    flush_all(&mut s);
    let (_, step) = s.prompt_preflight(run, flushed(), 1);
    assert!(matches!(step, PreflightStep::Finished(Err(PromptError::Message(_)))));
    assert!(!s.has_pending_bash_messages());
}

#[test]
fn prompt_flush_failure_retains_bash_message_for_retry() {
    let mut s = session_without_model();
    s.agent.is_streaming = true;
    let options = ExecuteBashOptions::default();
    for (command, timestamp) in [("printf first", 1), ("printf second", 2)] {
        assert!(s.record_bash_result(command, bash_result(command), &options, timestamp).is_none());
    }
    s.agent.is_streaming = false;
    let error = || SessionError::Other("disk".to_owned());
    let flushed = match s.next_pending_bash() {
        Some((record, message)) => {
            s.flush_pending_bash_messages(&record, message, Err(error()))
        }
        None => panic!("two wait"),
    };
    assert_eq!(flushed, Err(BashExecError::Session(error())));
    let step = s.prompt_flushed(flushed, "No model selected.".to_owned());
    assert_eq!(step, PreflightStep::Finished(Err(PromptError::Session(error()))));
    assert_eq!(s.pending_bash_messages.len(), 2);
    flush_all(&mut s);
    assert!(!s.has_pending_bash_messages());
    let commands: Vec<Json> = s
        .messages()
        .iter()
        .map(|message| match message {
            AgentMessage::Custom(custom) => custom.payload[0].1.clone(),
            other => panic!("{other:?}"),
        })
        .collect();
    assert_eq!(
        commands,
        vec![Json::Text("printf first".to_owned()), Json::Text("printf second".to_owned())],
        "retried bash messages must preserve queue order"
    );
    assert!(s.messages().iter().all(|message| message.role() == "bashExecution"));
}

#[test]
fn next_turn_custom_message_waits_for_next_user_prompt() {
    let mut s = make_session();
    let carried = CustomMessageInput {
        custom_type: "next-user-prompt".to_owned(),
        ..custom("carry next prompt")
    };
    let content = || Json::Text("carry next prompt".to_owned());
    s.mark_agent_run_active();
    let delivery =
        s.send_custom_message(&carried, content(), false, Some(DeliverAs::NextTurn), 1);
    assert_eq!(delivery, CustomDelivery::Waits);
    assert!(s.agent.steering_queue.is_empty() && s.agent.follow_up_queue.is_empty());
    let message = build_custom_agent_message(&carried, content(), 1);
    assert_eq!(s.pending_next_turn_messages, vec![message.clone()]);
    s.emit_agent_settled();
    let text = "next user prompt";
    let (run, _) = plain_run(&mut s, text, to_auth(AuthReply::NoRuntime, text));
    assert_eq!(run.messages, vec![user_text(text, &vec![], 1), message]);
    assert!(s.pending_next_turn_messages.is_empty());
}

#[test]
fn custom_messages_go_where_the_session_is() {
    let mut s = make_session();
    let content = || Json::Text("x".to_owned());
    assert_eq!(
        s.send_custom_message(&custom("x"), content(), true, None, 1),
        CustomDelivery::Run(vec![custom_message("x")])
    );
    assert_eq!(
        s.send_custom_message(&custom("x"), content(), false, None, 1),
        CustomDelivery::Store(custom_message("x"))
    );
    s.mark_agent_run_active();
    for deliver_as in [None, Some(DeliverAs::Steer), Some(DeliverAs::FollowUp)] {
        assert_eq!(
            s.send_custom_message(&custom("x"), content(), true, deliver_as, 1),
            CustomDelivery::Waits
        );
    }
    assert_eq!(s.agent.steering_queue.len(), 2);
    assert_eq!(s.agent.follow_up_queue.len(), 1);
}

#[test]
fn idle_custom_message_append_failure_publishes_nothing() {
    let mut s = make_session();
    let delivery = s.send_custom_message(
        &custom("hello"),
        Json::Text("hello".to_owned()),
        false,
        None,
        1,
    );
    let message = match delivery {
        CustomDelivery::Store(message) => message,
        other => panic!("{other:?}"),
    };
    assert_eq!(message, custom_message("hello"));
    assert!(s.outbox.is_empty() && s.messages().is_empty(), "nothing before it is stored");
    let failed =
        s.custom_message_stored(message.clone(), Err(SessionError::Other("disk".to_owned())));
    assert_eq!(
        failed,
        Err(PromptError::Session(SessionError::Other("disk".to_owned())))
    );
    assert!(s.outbox.is_empty() && s.messages().is_empty());
    assert_eq!(s.custom_message_stored(message.clone(), Ok(())), Ok(()));
    assert_eq!(s.messages(), vec![message.clone()]);
    assert_eq!(
        s.outbox,
        vec![
            Effect::Emit(AgentSessionEvent::MessageStart { message: message.clone() }),
            Effect::Emit(AgentSessionEvent::MessageEnd { message }),
        ]
    );
}

#[test]
fn a_message_of_an_extension_is_prompted_as_it_is() {
    let options = send_user_message(vec![image()], Some(DeliverAs::NextTurn));
    assert_eq!(options.streaming_behavior, Some(StreamingBehavior::Steer));
    assert_eq!(options.source, Some("extension".to_owned()));
    assert!(!options.expand_prompt_templates);
    assert_eq!(options.images.len(), 1);
    assert_eq!(send_user_message(vec![], None).streaming_behavior, None);
}

#[test]
fn extensions_add_messages_and_a_prompt_before_a_run() {
    let mut s = make_session();
    s.pending_next_turn_messages = vec![custom_message("second")];
    let added = BeforeAgentStartResult {
        messages: vec![custom_message("first")],
        system_prompt: Some("for this turn".to_owned()),
    };
    let user = || user_text("hi", &vec![], 1);
    let step = s.apply_before_agent_start(vec![user()], Ok(Some(added)));
    let messages = match step {
        PreflightStep::Finished(Ok(PreflightOutcome::Run(messages))) => messages,
        other => panic!("{other:?}"),
    };
    assert_eq!(messages, vec![custom_message("first"), user()]);
    assert_eq!(s.agent.system_prompt, "for this turn");
    assert_eq!(s.hooks.effective_system_prompt(), "for this turn");
    let (_, step) = s.run_agent_prompt(messages);
    assert_eq!(
        step,
        RunStep::Prompt(vec![custom_message("first"), user(), custom_message("second")])
    );
    assert_eq!(s.finish_run(Ok(()), Ok(())), Ok(()));
    assert_eq!(s.hooks.effective_system_prompt(), "");
}

fn skill() -> Skill {
    Skill {
        name: "lint".to_owned(),
        description: "d".to_owned(),
        file_path: "/skills/lint/SKILL.md".to_owned(),
        base_dir: "/skills/lint".to_owned(),
        source_info: SourceInfo {
            path: "/skills/lint/SKILL.md".to_owned(),
            source: "local".to_owned(),
            scope: None,
            origin: None,
            base_dir: None,
        },
    }
}

#[test]
fn a_skill_stands_in_place_of_its_command() {
    let mut s = make_session();
    s.skills = vec![skill()];
    let block = "<skill name=\"lint\" location=\"/skills/lint/SKILL.md\">\nReferences are \
                 relative to /skills/lint.\n\nRun it.\n</skill>";
    assert_eq!(s.expand_skill_command("/skill:lint", Some("\nRun it.\n")), block);
    assert_eq!(
        s.expand_skill_command("/skill:lint   src  ", Some("Run it.")),
        format!("{block}\n\nsrc")
    );
    assert_eq!(s.expand_skill_command("/skill:other", Some("x")), "/skill:other");
    assert_eq!(s.expand_skill_command("/skill:lint", None), "/skill:lint");
    assert_eq!(s.expand_skill_command("plain", Some("x")), "plain");
    let found = s.find_skill_command("/skill:lint a");
    assert_eq!(found.map(|f| (f.index, f.args)), Some((0, "a".to_owned())));
}

#[test]
fn single_settled_after_prompt() {
    let mut s = make_session();
    let (progress, _) = s.run_agent_prompt(vec![user_text("hi", &vec![], 1)]);
    assert!(!s.is_idle());
    let answer = assistant(StopReason::Stop, None);
    answers(&mut s, answer.clone());
    let (progress, step) = s.run_ended(progress, Ok(()), true, CancelToken(1));
    assert_eq!(step, RunStep::CheckCompaction(answer));
    let (_, step) = s.run_compaction_checked(progress, false);
    assert_eq!(step, RunStep::Finish(Ok(())));
    assert_eq!(s.finish_run(Ok(()), Ok(())), Ok(()));
    s.emit_agent_settled();
    let settled = s
        .outbox
        .iter()
        .filter(|e| matches!(e, Effect::Emit(AgentSessionEvent::AgentSettled)))
        .count();
    assert_eq!(settled, 1);
    assert!(s.is_idle());
}

#[test]
fn retry_transient_then_success() {
    let mut s = make_session();
    let (progress, _) = s.run_agent_prompt(vec![user_text("test", &vec![], 1)]);
    let failed = assistant(StopReason::Error, Some("overloaded_error"));
    answers(&mut s, failed.clone());
    let ended = AgentMessage::Llm(Message::Assistant(failed.clone()));
    assert_eq!(s.on_message_end(&ended, Ok(None)), Ok(()));
    let (progress, step) = s.run_ended(progress, Ok(()), true, CancelToken(5));
    assert_eq!(step, RunStep::WaitRetry { message: failed.clone(), delay_ms: 1_000 });
    assert_eq!(s.assistant_count(), 0, "the failed answer leaves the transcript");
    assert!(s.outbox.iter().any(|e| matches!(
        e,
        Effect::Emit(AgentSessionEvent::AutoRetryStart {
            attempt: 1,
            max_attempts: 3,
            delay_ms: 1_000,
            ..
        })
    )));
    let (progress, step) = s.retry_waited(progress, failed, false);
    assert_eq!(step, RunStep::Continue, "one failure + one recovery stream");
    let recovered = assistant(StopReason::Stop, None);
    answers(&mut s, recovered.clone());
    let ended = AgentMessage::Llm(Message::Assistant(recovered));
    assert_eq!(s.on_message_end(&ended, Ok(None)), Ok(()));
    let (progress, step) = s.run_ended(progress, Ok(()), true, CancelToken(6));
    assert!(matches!(step, RunStep::CheckCompaction(_)));
    let (_, step) = s.run_compaction_checked(progress, false);
    assert_eq!(step, RunStep::Finish(Ok(())));
    assert_eq!(s.finish_run(Ok(()), Ok(())), Ok(()));
    s.emit_agent_settled();
    assert_eq!(retry_lifecycle(&s), vec!["start:1", "end:true", "settled"]);
    assert_eq!(s.retry_attempt(), 0);
    assert!(!s.agent.is_streaming);
}

#[test]
fn a_retry_that_is_cancelled_ends_retrying() {
    let mut s = make_session();
    let (progress, _) = s.run_agent_prompt(vec![]);
    let failed = assistant(StopReason::Error, Some("overloaded"));
    answers(&mut s, failed.clone());
    let (progress, _) = s.run_ended(progress, Ok(()), true, CancelToken(5));
    let (_, step) = s.retry_waited(progress, failed.clone(), true);
    assert_eq!(step, RunStep::CheckCompaction(failed));
    assert_eq!(s.retry_attempt(), 0);
    assert!(s.outbox.iter().any(|e| matches!(
        e,
        Effect::Emit(AgentSessionEvent::AutoRetryEnd { success: false, attempt: 1, final_error })
            if final_error.as_deref() == Some("Retry cancelled")
    )));
}

#[test]
fn non_retryable_error_no_retry() {
    let mut s = make_session();
    let (progress, _) = s.run_agent_prompt(vec![user_text("test", &vec![], 1)]);
    let failed = assistant(StopReason::Error, Some("invalid_api_key"));
    answers(&mut s, failed.clone());
    let (progress, step) = s.run_ended(progress, Ok(()), true, CancelToken(5));
    assert_eq!(step, RunStep::CheckCompaction(failed), "the provider is not asked again");
    assert!(s.outbox.is_empty(), "auth error must not emit auto_retry events");
    let (_, step) = s.run_compaction_checked(progress, false);
    assert_eq!(step, RunStep::Finish(Ok(())));
    assert_eq!(s.finish_run(Ok(()), Ok(())), Ok(()));
    s.emit_agent_settled();
    assert_eq!(retry_lifecycle(&s), vec!["settled"]);
    assert_eq!(s.retry_attempt(), 0);
}

#[test]
fn what_waits_in_the_agent_goes_on_with_the_run() {
    let mut s = make_session();
    let (progress, _) = s.run_agent_prompt(vec![]);
    answers(&mut s, assistant(StopReason::Stop, None));
    assert!(s.steer("more", "more".to_owned(), &vec![], &vec![], 1).is_ok());
    let (progress, step) = s.run_compaction_checked(progress, false);
    assert_eq!(step, RunStep::Continue);
    assert_eq!(progress.processed_count, 1);
    s.agent.steering_queue.clear();
    assert_eq!(s.run_compaction_checked(progress, false).1, RunStep::Finish(Ok(())));
    assert_eq!(s.run_compaction_checked(progress, true).1, RunStep::Continue);
}

#[test]
fn disconnect_cancels_agent_end_barrier() {
    let mut s = make_session();
    let (progress, _) = s.run_agent_prompt(vec![]);
    let (_, step) = s.run_ended(progress, Ok(()), false, CancelToken(1));
    assert_eq!(
        step,
        RunStep::Finish(Err(PromptError::Message(
            "Agent event pump disconnected before agent_end".to_owned()
        )))
    );
}

#[test]
fn message_end_disk_failure_returns_typed_prompt_error() {
    let mut s = make_session();
    let (progress, _) = s.run_agent_prompt(vec![]);
    s.record_session_error(SessionError::Other("disk".to_owned()));
    let failed = Err(AgentLoopError::Message("aborted".to_owned()));
    let (_, step) = s.run_ended(progress, failed, true, CancelToken(1));
    assert_eq!(
        step,
        RunStep::Finish(Err(PromptError::Session(SessionError::Other("disk".to_owned()))))
    );
    let (progress, _) = s.run_agent_prompt(vec![]);
    let failed = Err(AgentLoopError::Message("boom".to_owned()));
    let (_, step) = s.run_ended(progress, failed, true, CancelToken(1));
    assert_eq!(
        step,
        RunStep::Finish(Err(PromptError::Agent(AgentLoopError::Message("boom".to_owned()))))
    );
}

#[test]
fn failures_at_the_end_of_a_run_have_their_order() {
    let disk = || SessionError::Other("disk".to_owned());
    let flush = || BashExecError::Session(SessionError::Other("flush".to_owned()));
    let mut s = make_session();
    s.record_session_error(disk());
    assert_eq!(
        s.finish_run(Err(failure()), Err(flush())),
        Err(PromptError::Session(disk()))
    );
    assert_eq!(
        s.finish_run(Err(failure()), Err(flush())),
        Err(PromptError::Session(SessionError::Other("flush".to_owned())))
    );
    assert_eq!(s.finish_run(Err(failure()), Ok(())), Err(failure()));
}
