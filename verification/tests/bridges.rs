//! Requests of the extension host.

use agent_session::bridge::{
    answer_unclaimed_bridge_event, compact_response, dispatch_session_bridge_route,
    finish_bridge_reload, handle_bridge_reload, handle_bridge_setup_entries, pending_operation,
    pending_replacement, set_model_response, PendingReadyOp, PreparedReplacement,
    BridgeDispatch, BridgeFailure, BridgeReplacement, BridgeReport, BridgeResponse, BridgeTask,
    NavigationReply, NavigationStep, PrepareOutcome, ReplacementReply, ReplacementRequest,
    ReplacementStep, ReplacementTask, SessionBridgeEvent, SessionBridgeRoute,
};
use agent_session::bridge_types::{
    BridgeMethod, BridgeRequestId, CompactRequest, ExtensionHostError, ForkPosition, ForkRequest,
    NavigateTreeOptions, NavigateTreeRequest, NewSessionRequest, SessionCommand,
    SessionCommandEnvelope, SetModelRequest, SetupEntriesRequest, SwitchSessionRequest,
};
use agent_session::compaction::CompactionError;
use agent_session::events::SessionShutdownReason;
use agent_session::extension::{ExtensionBindError, ExtensionBindings};
use agent_session::json::Json;
use agent_session::messages::Model;
use agent_session::reload::{PendingOperation, ReloadOrigin, ReloadReply};
use agent_session::session::{
    AgentSession, AgentSessionConfig, Effect, ResolvedCompactionSettings, RetrySettings,
    SessionSettings,
};

fn settings() -> SessionSettings {
    SessionSettings {
        retry: RetrySettings { enabled: true, max_retries: 3, base_delay_ms: 1_000 },
        compaction: ResolvedCompactionSettings {
            enabled: true,
            reserve_tokens: 1_000,
            keep_recent_tokens: 1_000,
        },
        default_thinking_level: None,
        default_provider: None,
        default_model: None,
        shell_command_prefix: None,
        shell_path: None,
    }
}

fn test_model() -> Model {
    Model {
        id: "m".to_owned(),
        name: "m".to_owned(),
        api: "test-api".to_owned(),
        provider: "test-provider".to_owned(),
        base_url: String::new(),
        reasoning: false,
        thinking_level_map: None,
        context_window: 8_192,
        max_tokens: 1_024,
    }
}

fn make_session() -> AgentSession {
    let config = match AgentSessionConfig::test_config("stub".to_owned(), test_model(), settings())
    {
        Ok(config) => config,
        Err(error) => panic!("{error:?}"),
    };
    match AgentSession::new(config) {
        Ok(session) => session,
        Err(error) => panic!("{error:?}"),
    }
}

const ID: BridgeRequestId = BridgeRequestId(9);

fn listening() -> AgentSession {
    let mut session = make_session();
    session.bind_extensions(ExtensionBindings {
        has_error_listener: true,
        ..ExtensionBindings::default()
    });
    session
}

fn command() -> SessionBridgeEvent {
    SessionBridgeEvent::Command {
        envelope: SessionCommandEnvelope {
            replacement_token: None,
            command: SessionCommand::Abort,
        },
    }
}

fn session_name(name: &str, token: Option<&str>) -> SessionBridgeEvent {
    SessionBridgeEvent::Command {
        envelope: SessionCommandEnvelope {
            replacement_token: token.map(str::to_owned),
            command: SessionCommand::SetSessionName { name: name.to_owned() },
        },
    }
}

fn ready() -> SessionBridgeEvent {
    SessionBridgeEvent::ReplacementReady { token: "t".to_owned() }
}

fn navigate(summarize: bool) -> NavigateTreeRequest {
    NavigateTreeRequest {
        target_id: "e".to_owned(),
        options: NavigateTreeOptions { summarize, custom_instructions: None, label: None },
    }
}

fn new_session() -> ReplacementRequest {
    ReplacementRequest::NewSession(NewSessionRequest { parent_session: None })
}

fn run(request: ReplacementRequest, replies: Vec<ReplacementReply>) -> BridgeReplacement {
    let mut replacement = BridgeReplacement::begin(ID, request, false, true);
    for reply in replies {
        replacement = replacement.advance(reply);
    }
    replacement
}

fn prepared() -> ReplacementReply {
    ReplacementReply::Prepared(PrepareOutcome::Prepared { selected_text: None })
}

fn installed() -> ReplacementReply {
    ReplacementReply::Installed(Some("token".to_owned()))
}

fn accepted() -> Vec<ReplacementReply> {
    vec![prepared(), installed(), ReplacementReply::Responded(Ok(()))]
}

fn then(mut replies: Vec<ReplacementReply>, more: Vec<ReplacementReply>) -> Vec<ReplacementReply> {
    replies.extend(more);
    replies
}

#[test]
fn answer_unclaimed_bridge_event_answers_correlated_requests() {
    assert_eq!(answer_unclaimed_bridge_event(&command()), None);
    assert_eq!(answer_unclaimed_bridge_event(&ready()), None);
    let abort = SessionBridgeEvent::ReplacementAbort { token: "t".to_owned(), origin: None };
    assert_eq!(answer_unclaimed_bridge_event(&abort), None);
    let none = BridgeFailure::NoActiveSession;
    assert_eq!(none.message(), "no active session");
    let asked = vec![
        (
            SessionBridgeEvent::SetModel { id: ID, request: SetModelRequest { model: Json::Null } },
            BridgeResponse::SetModel(false),
        ),
        (
            SessionBridgeEvent::Compact { id: ID, request: CompactRequest::default() },
            BridgeResponse::Compact(Err(BridgeFailure::NoActiveSession)),
        ),
        (
            SessionBridgeEvent::NewSession { id: ID, request: NewSessionRequest::default() },
            BridgeResponse::Failed { method: BridgeMethod::NewSession, failure: none },
        ),
        (
            SessionBridgeEvent::Fork {
                id: ID,
                request: ForkRequest { entry_id: "e".to_owned(), position: None },
            },
            BridgeResponse::Failed {
                method: BridgeMethod::Fork,
                failure: BridgeFailure::NoActiveSession,
            },
        ),
        (
            SessionBridgeEvent::SwitchSession {
                id: ID,
                request: SwitchSessionRequest { session_path: "p".to_owned() },
            },
            BridgeResponse::Failed {
                method: BridgeMethod::SwitchSession,
                failure: BridgeFailure::NoActiveSession,
            },
        ),
        (
            SessionBridgeEvent::NavigateTree { id: ID, request: navigate(false) },
            BridgeResponse::NavigateTree(Err(BridgeFailure::NoActiveSession)),
        ),
        (
            SessionBridgeEvent::Reload { id: ID },
            BridgeResponse::Reload(Err(BridgeFailure::NoActiveSession)),
        ),
        (
            SessionBridgeEvent::SetupEntries {
                id: ID,
                request: SetupEntriesRequest { replacement_token: "t".to_owned() },
            },
            BridgeResponse::SetupEntries(Err(BridgeFailure::NoActiveSession)),
        ),
    ];
    for (event, answer) in asked {
        assert_eq!(answer_unclaimed_bridge_event(&event), Some((ID, answer)));
    }
}

#[test]
fn events_go_where_they_are_routed() {
    assert_eq!(
        dispatch_session_bridge_route(SessionBridgeRoute::Active, command()),
        BridgeDispatch::Apply { event: command(), send_state: true }
    );
    assert_eq!(
        dispatch_session_bridge_route(SessionBridgeRoute::Operation, ready()),
        BridgeDispatch::CompleteReady { token: "t".to_owned() }
    );
    let abort =
        SessionBridgeEvent::ReplacementAbort { token: "t".to_owned(), origin: Some(4) };
    assert_eq!(
        dispatch_session_bridge_route(SessionBridgeRoute::Operation, abort),
        BridgeDispatch::AbortWaitingReady { token: "t".to_owned(), origin: Some(4) }
    );
    assert_eq!(
        dispatch_session_bridge_route(
            SessionBridgeRoute::Rejected,
            SessionBridgeEvent::Reload { id: ID }
        ),
        BridgeDispatch::Answer {
            id: ID,
            response: BridgeResponse::Reload(Err(BridgeFailure::NoActiveSession)),
        }
    );
    assert_eq!(
        dispatch_session_bridge_route(SessionBridgeRoute::Rejected, command()),
        BridgeDispatch::Nothing
    );
}

#[test]
fn candidate_command_does_not_publish_global_session_state() {
    let event = || session_name("candidate-name", Some("token"));
    assert_eq!(
        dispatch_session_bridge_route(SessionBridgeRoute::Candidate, event()),
        BridgeDispatch::Apply { event: event(), send_state: false },
        "a candidate command must not publish the candidate mirror"
    );
    let mut candidate = make_session();
    assert_eq!(
        candidate.apply_session_bridge_event(event(), false, true),
        BridgeTask::Command(SessionCommand::SetSessionName { name: "candidate-name".to_owned() })
    );
}

#[test]
fn unexpected_operation_route_reports_and_continues() {
    assert_eq!(
        dispatch_session_bridge_route(
            SessionBridgeRoute::Operation,
            session_name("ignored", None)
        ),
        BridgeDispatch::Report(BridgeReport::MisroutedEvent)
    );
    assert_eq!(
        BridgeReport::MisroutedEvent.message(),
        "non-replacement event unexpectedly routed as a bridge operation"
    );
    let event = || session_name("still-running", None);
    assert_eq!(
        dispatch_session_bridge_route(SessionBridgeRoute::Active, event()),
        BridgeDispatch::Apply { event: event(), send_state: true }
    );
}

#[test]
fn unexpected_replacement_control_at_session_route_reports_and_continues() {
    let mut s = listening();
    let unexpected =
        || SessionBridgeEvent::ReplacementReady { token: "unexpected".to_owned() };
    assert_eq!(
        dispatch_session_bridge_route(SessionBridgeRoute::Active, unexpected()),
        BridgeDispatch::Apply { event: unexpected(), send_state: true }
    );
    assert_eq!(s.apply_session_bridge_event(unexpected(), false, true), BridgeTask::Nothing);
    assert_eq!(
        s.outbox,
        vec![Effect::ReportError(
            "replacement control unexpectedly reached session bridge dispatch".to_owned()
        )]
    );
    assert_eq!(
        s.apply_session_bridge_event(session_name("still-running", None), false, true),
        BridgeTask::Command(SessionCommand::SetSessionName { name: "still-running".to_owned() })
    );
}

#[test]
fn stale_setup_entries_token_fails_closed() {
    assert_eq!(
        handle_bridge_setup_entries(None),
        BridgeResponse::SetupEntries(Err(BridgeFailure::StaleToken))
    );
    assert_eq!(BridgeFailure::StaleToken.message(), "stale replacement token");
    assert_eq!(
        handle_bridge_setup_entries(Some(Ok(vec![Json::Null]))),
        BridgeResponse::SetupEntries(Ok(vec![Json::Null]))
    );
    let failure = BridgeFailure::SerializeEntries("x".to_owned());
    assert_eq!(failure.message(), "serialize session entries: x");
    assert_eq!(
        handle_bridge_setup_entries(Some(Err("x".to_owned()))),
        BridgeResponse::SetupEntries(Err(failure))
    );
}

#[test]
fn a_replacement_goes_from_its_preparation_to_the_new_session() {
    let replacement = run(new_session(), vec![prepared(), installed()]);
    assert_eq!(replacement.token, Some("token".to_owned()));
    assert_eq!(
        replacement.step,
        ReplacementStep::Respond(BridgeResponse::Replacement {
            method: BridgeMethod::NewSession,
            cancelled: false,
            selected_text: None,
            token: Some("token".to_owned()),
        })
    );
    let replies = then(
        accepted(),
        vec![
            ReplacementReply::Ready(true),
            ReplacementReply::Taken { operation: PendingOperation::Replacement, consumed: false },
            ReplacementReply::Finalized(true),
        ],
    );
    let replacement = run(new_session(), replies);
    assert_eq!(replacement.step, ReplacementStep::BindMirror);
    assert_eq!(
        replacement.advance(ReplacementReply::MirrorBound).step,
        ReplacementStep::Done
    );
}

#[test]
fn a_fork_cuts_before_the_entry_and_gives_its_text() {
    let request = |position| {
        ReplacementRequest::Fork(ForkRequest { entry_id: "e".to_owned(), position })
    };
    assert_eq!(
        run(request(None), vec![]).step,
        ReplacementStep::Prepare(ReplacementTask::Fork {
            entry_id: "e".to_owned(),
            position: ForkPosition::Before,
        })
    );
    let outcome = PrepareOutcome::Prepared { selected_text: Some("text".to_owned()) };
    let replacement =
        run(request(Some(ForkPosition::At)), vec![ReplacementReply::Prepared(outcome), installed()]);
    assert_eq!(
        replacement.step,
        ReplacementStep::Respond(BridgeResponse::Replacement {
            method: BridgeMethod::Fork,
            cancelled: false,
            selected_text: Some("text".to_owned()),
            token: Some("token".to_owned()),
        })
    );
}

#[test]
fn a_replacement_is_answered_at_once_where_it_cannot_begin() {
    let s = make_session();
    let request = || SwitchSessionRequest { session_path: "p".to_owned() };
    let method = BridgeMethod::SwitchSession;
    assert_eq!(
        s.handle_bridge_switch_session(ID, request(), true, false).step,
        ReplacementStep::Respond(BridgeResponse::Busy(method))
    );
    assert_eq!(
        s.handle_bridge_switch_session(ID, request(), false, false).step,
        ReplacementStep::Respond(BridgeResponse::Failed {
            method,
            failure: BridgeFailure::RuntimeUnavailable,
        })
    );
    assert_eq!(BridgeFailure::RuntimeUnavailable.message(), "session runtime is unavailable");
}

#[test]
fn a_preparation_that_does_not_succeed_is_answered() {
    let respond = |outcome| run(new_session(), vec![ReplacementReply::Prepared(outcome)]).step;
    let method = BridgeMethod::NewSession;
    assert_eq!(
        respond(PrepareOutcome::Cancelled),
        ReplacementStep::Respond(BridgeResponse::Replacement {
            method,
            cancelled: true,
            selected_text: None,
            token: None,
        })
    );
    assert_eq!(
        respond(PrepareOutcome::Busy),
        ReplacementStep::Respond(BridgeResponse::Busy(method))
    );
    assert_eq!(
        respond(PrepareOutcome::Failed("no".to_owned())),
        ReplacementStep::Respond(BridgeResponse::Failed {
            method,
            failure: BridgeFailure::Other("no".to_owned()),
        })
    );
    let conflict = run(new_session(), vec![prepared(), ReplacementReply::Installed(None)]);
    assert_eq!(conflict.step, ReplacementStep::AbortPrepared);
    assert_eq!(
        conflict.advance(ReplacementReply::PreparedAborted).step,
        ReplacementStep::Respond(BridgeResponse::Busy(method))
    );
}

#[test]
fn a_replacement_that_goes_wrong_is_reported() {
    let method = BridgeMethod::NewSession;
    let taken = |operation, consumed| {
        run(
            new_session(),
            then(
                accepted(),
                vec![
                    ReplacementReply::Ready(true),
                    ReplacementReply::Taken { operation, consumed },
                ],
            ),
        )
        .step
    };
    assert_eq!(
        taken(PendingOperation::Lost, false),
        ReplacementStep::Report(BridgeReport::ReadyStateLost(method))
    );
    assert_eq!(
        taken(PendingOperation::Reload, false),
        ReplacementStep::FinishFinalize(BridgeReport::WrongOperation(method))
    );
    assert_eq!(
        taken(PendingOperation::Replacement, true),
        ReplacementStep::FinishFinalize(BridgeReport::AlreadyConsumed(method))
    );
    let waiting = run(new_session(), then(accepted(), vec![ReplacementReply::Ready(false)]));
    assert_eq!(
        waiting.step,
        ReplacementStep::AbortPending(BridgeReport::ReadyWaitEnded(method))
    );
    let unsent = run(
        new_session(),
        vec![
            prepared(),
            installed(),
            ReplacementReply::Responded(Err(ExtensionHostError::NotRunning)),
        ],
    );
    assert_eq!(
        unsent.step,
        ReplacementStep::AbortPending(BridgeReport::ResponseFailed {
            method,
            error: ExtensionHostError::NotRunning,
        })
    );
    let busy = BridgeReplacement::begin(ID, new_session(), true, true)
        .advance(ReplacementReply::Responded(Err(ExtensionHostError::NotRunning)));
    assert_eq!(
        busy.step,
        ReplacementStep::Report(BridgeReport::BusyResponseFailed {
            method,
            error: ExtensionHostError::NotRunning,
        })
    );
}

#[test]
fn reports_name_what_they_are_about() {
    let method = BridgeMethod::NewSession;
    let error = || ExtensionHostError::NotRunning;
    let name = method.operation_name();
    let label = method.as_str();
    assert_eq!(
        BridgeReport::ResponseFailed { method, error: error() }.message(),
        format!("{name} response: host not running")
    );
    assert_eq!(
        BridgeReport::BusyResponseFailed { method, error: error() }.message(),
        format!("{label} busy response: host not running")
    );
    assert_eq!(
        BridgeReport::ErrorResponseFailed { method, error: error() }.message(),
        format!("{label} error response: host not running")
    );
    assert_eq!(
        BridgeReport::TargetChanged(method).message(),
        format!("{name}: replacement target changed before commit")
    );
    assert_eq!(
        BridgeReport::InvalidModel("x".to_owned()).message(),
        "setModel: invalid model: x"
    );
}

#[test]
fn a_reply_to_another_step_changes_nothing() {
    let replacement = run(new_session(), vec![ReplacementReply::Ready(true)]);
    assert_eq!(replacement, run(new_session(), vec![]));
}

#[test]
fn a_disposed_session_does_not_navigate() {
    let mut s = make_session();
    s.dispose();
    assert_eq!(
        s.handle_bridge_navigate_tree(ID, navigate(false)).step,
        NavigationStep::Respond {
            outcome: Err(BridgeFailure::SessionReplaced),
            tell: false,
        }
    );
}

#[test]
fn a_navigation_is_answered_with_its_result() {
    let s = make_session();
    let navigation = s.handle_bridge_navigate_tree(ID, navigate(true));
    assert_eq!(navigation.step, NavigationStep::ResolveInputs(navigate(true)));
    let navigation = navigation.advance(NavigationReply::InputsResolved(Ok(())));
    assert_eq!(navigation.step, NavigationStep::Navigate(navigate(true)));
    let navigation = navigation.advance(NavigationReply::Navigated(Ok(Json::Bool(true))));
    assert_eq!(
        navigation.step,
        NavigationStep::Respond { outcome: Ok(Json::Bool(true)), tell: true }
    );
    let navigation =
        navigation.advance(NavigationReply::Responded(Err(ExtensionHostError::NotRunning)));
    assert_eq!(
        navigation.step,
        NavigationStep::Report(BridgeReport::ResponseFailed {
            method: BridgeMethod::NavigateTree,
            error: ExtensionHostError::NotRunning,
        })
    );
    assert_eq!(navigation.advance(NavigationReply::Reported).step, NavigationStep::Done);
    let refused = s
        .handle_bridge_navigate_tree(ID, navigate(true))
        .advance(NavigationReply::InputsResolved(Err("no key".to_owned())));
    assert_eq!(
        refused.step,
        NavigationStep::Respond {
            outcome: Err(BridgeFailure::Other("no key".to_owned())),
            tell: false,
        }
    );
}

#[test]
fn a_reload_that_cannot_begin_is_answered() {
    let method = BridgeMethod::Reload;
    assert_eq!(handle_bridge_reload(true, &Ok(()), true), Some(BridgeResponse::Busy(method)));
    assert_eq!(
        handle_bridge_reload(
            false,
            &Err(ExtensionBindError::SettingsReload("x".to_owned())),
            true
        ),
        Some(BridgeResponse::Failed {
            method,
            failure: BridgeFailure::Other("settings reload failed: x".to_owned()),
        })
    );
    assert_eq!(
        handle_bridge_reload(false, &Ok(()), false),
        Some(BridgeResponse::Failed {
            method,
            failure: BridgeFailure::ModelRuntimeUnavailable,
        })
    );
    assert_eq!(handle_bridge_reload(false, &Ok(()), true), None);
}

#[test]
fn bridge_reload_owner_loss_reports_without_second_response() {
    let mut s = make_session();
    let mut t =
        AgentSession::reload_host_transaction(ReloadOrigin::Bridge { id: ID }, false, true);
    let replies = vec![
        ReloadReply::Prepared(Ok(())),
        installed_reload(),
        ReloadReply::Responded(Ok(())),
        ReloadReply::Ready(false),
    ];
    for reply in replies {
        t = s.advance_reload(t, reply);
    }
    assert_eq!(
        finish_bridge_reload(t),
        (None, vec![BridgeReport::ReadyWaitEnded(BridgeMethod::Reload)])
    );
    assert_eq!(
        BridgeReport::ReadyWaitEnded(BridgeMethod::Reload).message(),
        "reload: replacement ready wait ended before completion"
    );
}

fn installed_reload() -> ReloadReply {
    ReloadReply::Installed(Some("token".to_owned()))
}

#[test]
fn a_refused_reload_of_the_host_is_answered() {
    let start = |busy, can| {
        AgentSession::reload_host_transaction(ReloadOrigin::Bridge { id: ID }, busy, can)
    };
    let method = BridgeMethod::Reload;
    assert_eq!(
        finish_bridge_reload(start(true, true)),
        (Some(BridgeResponse::Busy(method)), vec![])
    );
    assert_eq!(
        finish_bridge_reload(start(false, false)),
        (
            Some(BridgeResponse::Failed { method, failure: BridgeFailure::NotReloadable }),
            vec![]
        )
    );
    let mut s = make_session();
    let failed =
        s.advance_reload(start(false, true), ReloadReply::Prepared(Err("no".to_owned())));
    assert_eq!(
        finish_bridge_reload(failed),
        (
            Some(BridgeResponse::Failed {
                method,
                failure: BridgeFailure::Other("no".to_owned()),
            }),
            vec![]
        )
    );
}

#[test]
fn the_diagnostics_of_a_reload_are_told() {
    let mut s = make_session();
    let mut t =
        AgentSession::reload_host_transaction(ReloadOrigin::Bridge { id: ID }, false, true);
    let resources = ExtensionBindError::ResourceReload("x".to_owned());
    let replies = vec![
        ReloadReply::Prepared(Ok(())),
        installed_reload(),
        ReloadReply::Responded(Ok(())),
        ReloadReply::Ready(true),
        ReloadReply::Taken(PendingOperation::Reload),
        ReloadReply::Committed { committed: true, diagnostics: vec!["note".to_owned()] },
        ReloadReply::ToolsRefreshed(None),
        ReloadReply::Hydrated,
        ReloadReply::ResourcesExtended(Err(resources)),
    ];
    for reply in replies {
        t = s.advance_reload(t, reply);
    }
    let (answer, reports) = finish_bridge_reload(t);
    assert_eq!(answer, None);
    let texts: Vec<String> = reports.iter().map(BridgeReport::message).collect();
    assert_eq!(texts, vec!["note", "reload resources: resource reload failed: x"]);
}

#[test]
fn models_and_compactions_are_answered() {
    assert_eq!(set_model_response(Ok(()), Ok(())), (BridgeResponse::SetModel(true), None));
    assert_eq!(
        set_model_response(Err("bad".to_owned()), Ok(())),
        (
            BridgeResponse::SetModel(false),
            Some(BridgeReport::InvalidModel("bad".to_owned()))
        )
    );
    assert_eq!(
        set_model_response(Ok(()), Err("no key".to_owned())),
        (
            BridgeResponse::SetModel(false),
            Some(BridgeReport::SetModelFailed("no key".to_owned()))
        )
    );
    assert_eq!(
        compact_response(Ok(Ok(Json::Null))),
        BridgeResponse::Compact(Ok(Json::Null))
    );
    let failure = BridgeFailure::EncodeCompaction("x".to_owned());
    assert_eq!(failure.message(), "encode compaction result: x");
    assert_eq!(
        compact_response(Ok(Err("x".to_owned()))),
        BridgeResponse::Compact(Err(failure))
    );
    assert_eq!(
        compact_response(Err(CompactionError::Cancelled)),
        BridgeResponse::Compact(Err(BridgeFailure::Other(CompactionError::Cancelled.message())))
    );
}

#[test]
fn a_pending_replacement_is_told_from_a_reload() {
    let replacement = PendingReadyOp::Replacement {
        result: 7,
        reason: SessionShutdownReason::Fork,
        target_session_file: Some("next.jsonl".to_owned()),
    };
    let reload = || PendingReadyOp::Reload { prepared: 3, model_runtime: 4 };
    assert_eq!(pending_replacement(reload()), Err(reload()));
    assert_eq!(pending_operation(&Some(reload())), PendingOperation::Reload);
    assert_eq!(pending_operation(&None), PendingOperation::Lost);
    let found = Some(replacement);
    assert_eq!(pending_operation(&found), PendingOperation::Replacement);
    assert_eq!(
        found.map(pending_replacement),
        Some(Ok(PreparedReplacement {
            result: Some(7),
            reason: SessionShutdownReason::Fork,
            target_session_file: Some("next.jsonl".to_owned()),
        }))
    );
}
