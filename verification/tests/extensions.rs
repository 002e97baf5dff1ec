//! Extensions: binding, resources, commands and reloads.

use agent_session::bridge::{reload_accepted, BridgeResponse};
use agent_session::bridge_types::{
    BridgeRequestId, CommandCatalogEntry, ExtensionHostError, SessionState, SlashCommandSource,
    ToolInfo,
};
use agent_session::events::{AgentSessionEvent, SessionShutdownReason, SessionStartEvent, SessionStartReason};
use agent_session::extension::{
    append_system_prompt, state_changed_by, ExtensionBindError, ExtensionBindings, ExtensionMode,
    ExtensionUiContext, ResourceReply, ResourceSnapshot, ResourceStep,
};
use agent_session::extension_runner::ExtensionRunnerError;
use agent_session::messages::{Model, ModelThinkingLevel};
use agent_session::reload::{
    direct_reload_result, PendingOperation, ReloadOrigin, ReloadPlan, ReloadPostAcceptError,
    ReloadPreAcceptError, ReloadReply, ReloadStep, ReloadTransactionError,
};
use agent_session::resources::{PromptTemplate, Skill, SourceInfo};
use agent_session::session::{
    AgentSession, AgentSessionConfig, Effect, ResolvedCompactionSettings, RetrySettings,
    SessionSettings,
};

fn settings() -> SessionSettings {
    SessionSettings {
        retry: RetrySettings { enabled: true, max_retries: 3, base_delay_ms: 1_000 },
        compaction: ResolvedCompactionSettings {
            enabled: true,
            reserve_tokens: 1_000,
            keep_recent_tokens: 1_000,
        },
        default_thinking_level: None,
        default_provider: None,
        default_model: None,
        shell_command_prefix: None,
        shell_path: None,
    }
}

fn test_model() -> Model {
    Model {
        id: "m".to_owned(),
        name: "m".to_owned(),
        api: "test-api".to_owned(),
        provider: "test-provider".to_owned(),
        base_url: String::new(),
        reasoning: false,
        thinking_level_map: None,
        context_window: 8_192,
        max_tokens: 1_024,
    }
}

fn make_session() -> AgentSession {
    let config = match AgentSessionConfig::test_config("stub".to_owned(), test_model(), settings())
    {
        Ok(config) => config,
        Err(error) => panic!("{error:?}"),
    };
    match AgentSession::new(config) {
        Ok(session) => session,
        Err(error) => panic!("{error:?}"),
    }
}

fn source(path: &str) -> SourceInfo {
    SourceInfo {
        path: path.to_owned(),
        source: "package".to_owned(),
        scope: Some("project".to_owned()),
        origin: Some("package".to_owned()),
        base_dir: None,
    }
}

fn skill(name: &str) -> Skill {
    Skill {
        name: name.to_owned(),
        description: "d".to_owned(),
        file_path: "/skills/x/SKILL.md".to_owned(),
        base_dir: "/skills/x".to_owned(),
        source_info: source("/skills/x/SKILL.md"),
    }
}

fn template(name: &str) -> PromptTemplate {
    PromptTemplate {
        name: name.to_owned(),
        description: "t".to_owned(),
        content: "c".to_owned(),
        source_info: source("/prompts/t.md"),
    }
}

fn snapshot(skills: Vec<Skill>) -> ResourceSnapshot {
    ResourceSnapshot { skills, prompt_templates: vec![], system_prompt: "fresh".to_owned() }
}

fn started(reason: SessionStartReason) -> Effect {
    Effect::ToExtensions(AgentSessionEvent::SessionStart { reason, previous_session_file: None })
}

fn shut_down() -> Effect {
    Effect::ToExtensions(AgentSessionEvent::SessionShutdown {
        reason: SessionShutdownReason::Reload,
        target_session_file: None,
    })
}

fn listening() -> AgentSession {
    let mut session = make_session();
    session.bind_extensions(ExtensionBindings {
        has_error_listener: true,
        ..ExtensionBindings::default()
    });
    session
}

#[test]
fn session_state_default_is_idle() {
    let state = SessionState::default();
    assert!(state.is_idle);
    assert!(!state.has_pending_messages);
    assert_eq!(state.thinking_level, ModelThinkingLevel::Off);
}

#[test]
fn get_extension_source_label_strips_extension() {
    assert_eq!(
        AgentSession::get_extension_source_label("/foo/bar/myext.ts"),
        "extension:myext"
    );
    assert_eq!(AgentSession::get_extension_source_label("<inline>"), "extension:inline");
}

#[test]
fn labels_follow_the_file_name() {
    let label = AgentSession::get_extension_source_label;
    assert_eq!(label("/a/.hidden"), "extension:.hidden");
    assert_eq!(label("/a/x.tar.gz"), "extension:x.tar");
    assert_eq!(label("/a/dir/"), "extension:dir");
    assert_eq!(label("plain"), "extension:plain");
}

#[test]
fn create_replaced_session_context_carries_session_id() {
    let mut context = make_session().create_replaced_session_context("new-session".to_owned());
    assert_eq!(context.session_id, "new-session");
    context.send_custom_message("hi".to_owned());
    context.send_user_message("yo".to_owned());
    assert_eq!(context.sent_custom_messages, vec!["hi"]);
    assert_eq!(context.sent_user_messages, vec!["yo"]);
}

#[test]
fn extension_error_listener_receives_exact_message_and_is_isolated() {
    let mut s = make_session();
    s.report_extension_error("lost".to_owned());
    assert!(s.outbox.is_empty(), "nobody listens");
    let mut s = listening();
    s.report_extension_error("host crashed".to_owned());
    assert_eq!(s.outbox, vec![Effect::ReportError("host crashed".to_owned())]);
    s.report_extension_error("boom".to_owned());
    assert_eq!(s.outbox.last(), Some(&Effect::ReportError("boom".to_owned())));
}

#[test]
fn invoke_extension_shutdown_handler_calls_bound_closure() {
    let mut s = make_session();
    s.invoke_extension_shutdown_handler();
    assert!(s.outbox.is_empty());
    s.bind_extensions(ExtensionBindings {
        has_shutdown_handler: true,
        ..ExtensionBindings::default()
    });
    s.invoke_extension_shutdown_handler();
    assert_eq!(s.outbox, vec![Effect::CallShutdownHandler]);
}

#[test]
fn slash_commands_includes_host_catalog_entries() {
    let mut s = make_session();
    s.prompt_templates = vec![template("fix")];
    s.skills = vec![skill("lint")];
    let catalog = vec![CommandCatalogEntry {
        name: "extHello".to_owned(),
        description: "says hello".to_owned(),
        source: Some("/ext/main.ts".to_owned()),
        source_info: Some(source("/ext/main.ts")),
    }];
    let registered =
        vec!["extHello".to_owned(), "other".to_owned(), "other".to_owned()];
    let commands = s.slash_commands(&catalog, &registered);
    let entry = match commands.iter().find(|command| command.name == "extHello") {
        Some(entry) => entry,
        None => panic!("{commands:?}"),
    };
    assert_eq!(entry.description.as_deref(), Some("says hello"));
    assert_eq!(entry.source_info.path, "/ext/main.ts");
    let names: Vec<&str> = commands.iter().map(|c| c.name.as_str()).collect();
    assert_eq!(names, vec!["extHello", "other", "fix", "skill:lint"]);
    let sources: Vec<SlashCommandSource> = commands.iter().map(|c| c.source).collect();
    assert_eq!(
        sources,
        vec![
            SlashCommandSource::Extension,
            SlashCommandSource::Extension,
            SlashCommandSource::Prompt,
            SlashCommandSource::Skill,
        ]
    );
}

#[test]
fn bind_extensions_records_bindings() {
    let mut s = make_session();
    s.bind_extensions(ExtensionBindings {
        mode: Some(ExtensionMode::Rpc),
        ui_context: Some(ExtensionUiContext { tag: Some("ui".to_owned()) }),
        ..ExtensionBindings::default()
    });
    assert_eq!(s.extension_mode(), Some(ExtensionMode::Rpc));
    assert_eq!(s.bindings.ui_tag, Some("ui".to_owned()));
    assert_eq!(
        [ExtensionMode::Tui, ExtensionMode::Print, ExtensionMode::Json, ExtensionMode::Rpc]
            .map(ExtensionMode::as_str),
        ["tui", "print", "json", "rpc"]
    );
}

#[test]
fn a_later_bind_does_not_tell_the_start_again() {
    let mut s = make_session();
    s.pending_session_start = Some(SessionStartEvent {
        reason: SessionStartReason::Reload,
        previous_session_file: None,
    });
    assert_eq!(s.tell_session_start(), SessionStartReason::Reload);
    assert_eq!(s.outbox, vec![started(SessionStartReason::Reload)]);
    s.bind_extensions(ExtensionBindings::default());
    assert_eq!(s.tell_session_start(), SessionStartReason::Startup);
    assert_eq!(s.outbox.len(), 1, "a later bind does not tell the start again");
}

#[test]
fn extension_resources_refresh_session_skills_and_system_prompt() {
    let mut s = make_session();
    let startup = SessionStartReason::Startup;
    assert_eq!(s.extend_resources_from_extensions(startup, true), ResourceStep::AskHandlers);
    assert_eq!(
        s.advance_resources(startup, true, ResourceReply::Handlers(true)),
        ResourceStep::Discover
    );
    assert_eq!(
        s.advance_resources(startup, true, ResourceReply::Discovered(Ok(()))),
        ResourceStep::ExtendLoader
    );
    let reply = ResourceReply::LoaderExtended(snapshot(vec![skill("lint")]));
    assert_eq!(s.advance_resources(startup, true, reply), ResourceStep::Finished(Ok(())));
    assert_eq!(s.skills.len(), 1);
    assert_eq!(s.agent.system_prompt, "fresh");
    assert_eq!(s.hooks.effective_system_prompt(), "fresh");
    assert_eq!(
        s.extend_resources_from_extensions(startup, true),
        ResourceStep::Finished(Ok(())),
        "the start is discovered once"
    );
    assert_eq!(
        s.extend_resources_from_extensions(SessionStartReason::Reload, true),
        ResourceStep::ReloadLoader
    );
}

#[test]
fn failures_of_resources_are_told_apart() {
    let mut s = make_session();
    let reload = SessionStartReason::Reload;
    let step = s.advance_resources(
        reload,
        true,
        ResourceReply::LoaderReloaded(Err("broken".to_owned())),
    );
    let error = ExtensionBindError::ResourceReload("broken".to_owned());
    assert_eq!(error.message(), "resource reload failed: broken");
    assert_eq!(step, ResourceStep::Finished(Err(error)));
    let step = s.advance_resources(
        reload,
        true,
        ResourceReply::Discovered(Err(ExtensionRunnerError::Failed("boom".to_owned()))),
    );
    let error =
        ExtensionBindError::ResourceDiscover(ExtensionRunnerError::Failed("boom".to_owned()));
    assert_eq!(error.message(), "extension resource discovery failed: extension error: boom");
    assert_eq!(step, ResourceStep::Finished(Err(error)));
    let step = s.advance_resources(reload, false, ResourceReply::Discovered(Ok(())));
    assert_eq!(step, ResourceStep::Finished(Ok(())));
    assert!(!s.lifecycle.initial_resources_discovered, "only a start counts");
}

#[test]
fn a_reload_without_a_host_tells_the_end_before_the_start() {
    let mut s = make_session();
    assert_eq!(s.reload(Ok(()), true, true), ReloadPlan::ExtendResources);
    assert_eq!(s.outbox, vec![shut_down(), started(SessionStartReason::Reload)]);
}

#[test]
fn a_host_without_a_model_runtime_is_taken_off() {
    let mut s = make_session();
    s.set_host_extension_runner(true);
    assert_eq!(
        s.reload(Ok(()), false, false),
        ReloadPlan::Refused(ExtensionBindError::HostRestart(
            "extension runtime is not reloadable".to_owned()
        ))
    );
    assert!(s.host_extension_runner() && s.outbox.is_empty());
    assert_eq!(s.reload(Ok(()), false, true), ReloadPlan::ExtendResources);
    assert!(!s.host_extension_runner());
    assert_eq!(
        s.outbox,
        vec![
            shut_down(),
            Effect::ShutDownHost,
            Effect::DetachRunner,
            started(SessionStartReason::Reload),
        ]
    );
}

#[test]
fn settings_that_cannot_be_read_refuse_a_reload() {
    let mut s = make_session();
    let plan = s.reload(Err("bad json".to_owned()), true, true);
    let error = ExtensionBindError::SettingsReload("bad json".to_owned());
    assert_eq!(error.message(), "settings reload failed: bad json");
    assert_eq!(plan, ReloadPlan::Refused(error));
    assert!(s.outbox.is_empty());
}

fn run_reload(
    s: &mut AgentSession,
    origin: ReloadOrigin,
    replies: Vec<ReloadReply>,
) -> agent_session::reload::ReloadTransaction {
    let mut t = AgentSession::reload_host_transaction(origin, false, true);
    for reply in replies {
        t = s.advance_reload(t, reply);
    }
    t
}

fn given_up() -> Effect {
    Effect::AbortPending("token".to_owned())
}

fn installed() -> Vec<ReloadReply> {
    vec![ReloadReply::Prepared(Ok(())), ReloadReply::Installed(Some("token".to_owned()))]
}

fn direct_ready() -> Vec<ReloadReply> {
    let mut replies = installed();
    replies.push(ReloadReply::ReadyCompleted(true));
    replies
}

fn to_the_end() -> Vec<ReloadReply> {
    vec![
        ReloadReply::Ready(true),
        ReloadReply::Taken(PendingOperation::Reload),
        ReloadReply::Committed { committed: true, diagnostics: vec!["note".to_owned()] },
        ReloadReply::ToolsRefreshed(None),
        ReloadReply::Hydrated,
        ReloadReply::ResourcesExtended(Ok(())),
    ]
}

#[test]
fn reload_emits_shutdown_start_discovery_in_order() {
    let mut s = make_session();
    s.set_host_extension_runner(true);
    assert_eq!(s.reload(Ok(()), true, true), ReloadPlan::Transaction);
    let mut replies = vec![
        ReloadReply::Prepared(Ok(())),
        ReloadReply::Installed(Some("token".to_owned())),
        ReloadReply::ReadyCompleted(true),
    ];
    replies.extend(to_the_end());
    let t = run_reload(&mut s, ReloadOrigin::Direct, replies);
    assert_eq!(t.token, Some("token".to_owned()));
    assert_eq!(
        s.outbox,
        vec![shut_down(), started(SessionStartReason::Reload), given_up()]
    );
    assert_eq!(direct_reload_result(t), Ok(vec!["note".to_owned()]));

    let mut s = make_session();
    assert_eq!(s.reload(Ok(()), false, false), ReloadPlan::ExtendResources);
    assert_eq!(s.outbox, vec![shut_down(), started(SessionStartReason::Reload)]);
    let reload = SessionStartReason::Reload;
    assert_eq!(s.extend_resources_from_extensions(reload, false), ResourceStep::AskHandlers);
    assert_eq!(
        s.advance_resources(reload, false, ResourceReply::Handlers(true)),
        ResourceStep::Discover,
        "reload must emit shutdown, then start, then rediscover"
    );
}

#[test]
fn a_reload_of_the_host_shuts_down_once_it_is_ready() {
    let mut s = make_session();
    let origin = ReloadOrigin::Bridge { id: BridgeRequestId(7) };
    let t = run_reload(&mut s, origin, installed());
    assert_eq!(t.step, ReloadStep::Respond);
    assert_eq!(
        reload_accepted(&t),
        Some((BridgeRequestId(7), BridgeResponse::Reload(Ok(Some("token".to_owned())))))
    );
    assert!(s.outbox.is_empty());
    let mut replies = installed();
    replies.push(ReloadReply::Responded(Ok(())));
    replies.extend(to_the_end());
    let t = run_reload(
        &mut s,
        ReloadOrigin::Bridge { id: BridgeRequestId(7) },
        replies,
    );
    assert_eq!(t.step, ReloadStep::Finished(Ok(())));
    assert_eq!(
        s.outbox,
        vec![shut_down(), started(SessionStartReason::Reload), given_up()]
    );
    assert_eq!(reload_accepted(&t), None);
}

#[test]
fn bridge_reload_response_failure_rolls_back_pending_generation() {
    let mut s = make_session();
    let mut replies = installed();
    replies.push(ReloadReply::Responded(Err(ExtensionHostError::NotRunning)));
    let t = run_reload(&mut s, ReloadOrigin::Bridge { id: BridgeRequestId(7) }, replies);
    assert_eq!(
        t.step,
        ReloadStep::Finished(Err(ReloadTransactionError::Pre(ReloadPreAcceptError::Response(
            ExtensionHostError::NotRunning
        ))))
    );
    assert_eq!(s.outbox, vec![given_up()], "neither generation is told anything");
}

#[test]
fn a_reply_to_another_step_of_a_reload_changes_nothing() {
    let mut s = make_session();
    let t = run_reload(&mut s, ReloadOrigin::Direct, vec![ReloadReply::Hydrated]);
    assert_eq!(t.step, ReloadStep::Prepare);
    assert!(s.outbox.is_empty());
}

#[test]
fn reload_refreshes_selected_model_against_post_reload_registry() {
    let mut s = make_session();
    s.agent.model.provider = "reload-provider".to_owned();
    s.agent.model.id = "reload-model".to_owned();
    s.agent.model.base_url = "https://old.example/v1".to_owned();
    s.agent.model.context_window = 4096;
    let mut updated = s.model();
    updated.base_url = "https://new.example/v1".to_owned();
    updated.context_window = 8192;
    let mut replies = direct_ready();
    replies.extend(vec![
        ReloadReply::Ready(true),
        ReloadReply::Taken(PendingOperation::Reload),
        ReloadReply::Committed { committed: true, diagnostics: vec![] },
        ReloadReply::ToolsRefreshed(Some(updated)),
    ]);
    let t = run_reload(&mut s, ReloadOrigin::Direct, replies);
    assert_eq!(t.step, ReloadStep::Hydrate);
    let after = s.model();
    assert_eq!(after.provider, "reload-provider");
    assert_eq!(after.id, "reload-model");
    assert_eq!(after.context_window, 8192);
    assert_eq!(after.base_url, "https://new.example/v1");
    assert_eq!(s.outbox, vec![shut_down()], "no change is stored and no selection is told");
}

#[test]
fn every_failure_of_a_reload_has_its_text() {
    let text = |t| match direct_reload_result(t) {
        Err(error) => error.message(),
        Ok(diagnostics) => panic!("{diagnostics:?}"),
    };
    let start = |busy, can| {
        AgentSession::reload_host_transaction(ReloadOrigin::Direct, busy, can)
    };
    assert_eq!(
        text(start(true, true)),
        "extension host restart failed: session replacement in progress"
    );
    assert_eq!(
        text(start(false, false)),
        "extension host restart failed: extension runtime is not reloadable"
    );
    let after = |mut replies: Vec<ReloadReply>, last| {
        let mut s = make_session();
        replies.push(last);
        run_reload(&mut s, ReloadOrigin::Direct, replies)
    };
    let ready = || {
        let mut replies = direct_ready();
        replies.push(ReloadReply::Ready(true));
        replies
    };
    let busy = "extension host restart failed: session replacement in progress";
    let invalidated =
        "extension host restart failed: extension runtime was invalidated during reload";
    let failed = after(vec![], ReloadReply::Prepared(Err("no bun".to_owned())));
    assert_eq!(text(failed), "extension host restart failed: no bun");
    let conflict =
        after(vec![ReloadReply::Prepared(Ok(()))], ReloadReply::Installed(None));
    assert_eq!(text(conflict), busy);
    assert_eq!(text(after(installed(), ReloadReply::ReadyCompleted(false))), invalidated);
    assert_eq!(text(after(direct_ready(), ReloadReply::Ready(false))), invalidated);
    let lost = after(ready(), ReloadReply::Taken(PendingOperation::Lost));
    assert_eq!(
        lost.step,
        ReloadStep::Finished(Err(ReloadTransactionError::Post(ReloadPostAcceptError::StateLost)))
    );
    assert_eq!(text(lost), invalidated);
    let mut replies = direct_ready();
    replies.extend(to_the_end());
    replies.pop();
    let resources = ExtensionBindError::ResourceReload("x".to_owned());
    let failed = after(replies, ReloadReply::ResourcesExtended(Err(resources)));
    assert_eq!(text(failed), "resource reload failed: x");
}

#[test]
fn session_state_shows_the_session() {
    let mut s = make_session();
    s.mirror_steering_push("wait".to_owned());
    let state = s.session_state(
        Some("name".to_owned()),
        vec![ToolInfo { name: "bash".to_owned(), description: "runs".to_owned() }],
        &vec![],
        &vec![],
        None,
    );
    assert_eq!(state.session_name, Some("name".to_owned()));
    assert_eq!(state.model, Some(test_model()));
    assert_eq!(state.all_tools.len(), 1);
    assert!(state.is_idle && state.has_pending_messages);
    s.mark_agent_run_active();
    assert!(!s.session_state(None, vec![], &vec![], &vec![], None).is_idle);
}

#[test]
fn some_events_change_the_state() {
    assert!(state_changed_by(&AgentSessionEvent::AgentSettled));
    assert!(state_changed_by(&AgentSessionEvent::AgentStart));
    assert!(!state_changed_by(&AgentSessionEvent::TurnStart));
}

#[test]
fn parts_of_a_prompt_are_set_apart() {
    assert_eq!(append_system_prompt(&vec![]), None);
    assert_eq!(append_system_prompt(&vec!["a"]), Some("a".to_owned()));
    assert_eq!(append_system_prompt(&vec!["a", "b"]), Some("a\n\nb".to_owned()));
}

#[test]
fn only_some_failures_of_the_host_may_be_tried_again() {
    let m = || "m".to_owned();
    assert!(ExtensionHostError::Timeout { message: m() }.retryable());
    assert!(ExtensionHostError::Spawn { message: m() }.retryable());
    let others = vec![
        ExtensionHostError::Handshake { message: m() },
        ExtensionHostError::Cancelled { message: m() },
        ExtensionHostError::Closed { message: m(), stderr: String::new() },
        ExtensionHostError::Protocol { message: m(), stderr: String::new() },
        ExtensionHostError::Payload { message: m() },
    ];
    for error in others {
        assert!(!error.retryable());
        assert_eq!(error.message(), "m");
    }
    let remote = ExtensionHostError::Remote { code: "E".to_owned(), message: m() };
    assert!(!remote.retryable());
    assert_eq!(remote.message(), "E: m");
    assert_eq!(ExtensionHostError::NotRunning.message(), "host not running");
}
