//! Requests of the extension host to a session: where they go, and how each is answered.
//!
//! What takes time is done in steps: [`BridgeReplacement`] replaces a session by another one,
//! [`BridgeNavigation`] goes to another entry of the tree. Every request that waits for an answer
//! gets one, whatever comes of it.

use crate::bridge_types::{
    BridgeMethod, BridgeRequestId, CompactRequest, ExtensionHostError, ForkPosition, ForkRequest,
    NavigateTreeRequest, NewSessionRequest, SessionCommand, SessionCommandEnvelope,
    SetModelRequest, SetupEntriesRequest, SwitchSessionRequest,
};
use crate::events::SessionShutdownReason;
use crate::extension::ExtensionBindError;
use crate::compaction::CompactionError;
use crate::json::Json;
use crate::messages::clone_text;
use crate::reload;
use crate::reload::{
    PendingOperation, ReloadOrigin, ReloadPostAcceptError, ReloadPreAcceptError, ReloadReply,
    ReloadStep, ReloadTransaction, ReloadTransactionError,
};
use crate::session::{AgentSession, Effect, SessionModel};
use crate::text;
use vstd::prelude::*;

verus! {

/// What the extension host sends a session.
#[allow(inconsistent_fields)]
#[derive(Debug, PartialEq)]
pub enum SessionBridgeEvent {
    /// A command that is not answered.
    Command { envelope: SessionCommandEnvelope },
    SetModel { id: BridgeRequestId, request: SetModelRequest },
    Compact { id: BridgeRequestId, request: CompactRequest },
    NewSession { id: BridgeRequestId, request: NewSessionRequest },
    Fork { id: BridgeRequestId, request: ForkRequest },
    NavigateTree { id: BridgeRequestId, request: NavigateTreeRequest },
    SwitchSession { id: BridgeRequestId, request: SwitchSessionRequest },
    Reload { id: BridgeRequestId },
    SetupEntries { id: BridgeRequestId, request: SetupEntriesRequest },
    /// The replacement with this token is ready.
    ReplacementReady { token: String },
    /// The replacement with this token is given up, by the host endpoint `origin`.
    ReplacementAbort { token: String, origin: Option<u64> },
}

/// The id and the method of a request that waits for an answer.
pub open spec fn correlated(event: SessionBridgeEvent) -> Option<(BridgeRequestId, BridgeMethod)> {
    match event {
        SessionBridgeEvent::SetModel { id, .. } => Some((id, BridgeMethod::SetModel)),
        SessionBridgeEvent::Compact { id, .. } => Some((id, BridgeMethod::Compact)),
        SessionBridgeEvent::NewSession { id, .. } => Some((id, BridgeMethod::NewSession)),
        SessionBridgeEvent::Fork { id, .. } => Some((id, BridgeMethod::Fork)),
        SessionBridgeEvent::NavigateTree { id, .. } => Some((id, BridgeMethod::NavigateTree)),
        SessionBridgeEvent::SwitchSession { id, .. } => Some((id, BridgeMethod::SwitchSession)),
        SessionBridgeEvent::Reload { id } => Some((id, BridgeMethod::Reload)),
        SessionBridgeEvent::SetupEntries { id, .. } => Some((id, BridgeMethod::SetupEntries)),
        _ => None,
    }
}

/// Why a request fails.
#[derive(Debug, PartialEq)]
pub enum BridgeFailure {
    /// No session is there for the request.
    NoActiveSession,
    /// The session has no runtime that could replace it.
    RuntimeUnavailable,
    /// The session has no model runtime.
    ModelRuntimeUnavailable,
    /// The extension runtime cannot be reloaded.
    NotReloadable,
    /// The session was replaced.
    SessionReplaced,
    /// The token is not that of the pending replacement.
    StaleToken,
    /// The entries of a session could not be written.
    SerializeEntries(String),
    /// The result of a compaction could not be written.
    EncodeCompaction(String),
    /// Anything else, in the words of what failed.
    Other(String),
}

impl BridgeFailure {
    /// The text of the failure.
    pub open spec fn text(self) -> Seq<char> {
        match self {
            BridgeFailure::NoActiveSession => "no active session"@,
            BridgeFailure::RuntimeUnavailable => "session runtime is unavailable"@,
            BridgeFailure::ModelRuntimeUnavailable => "model runtime is unavailable"@,
            BridgeFailure::NotReloadable => "extension runtime is not reloadable"@,
            BridgeFailure::SessionReplaced => "session replaced"@,
            BridgeFailure::StaleToken => "stale replacement token"@,
            BridgeFailure::SerializeEntries(e) => "serialize session entries: "@ + e@,
            BridgeFailure::EncodeCompaction(e) => "encode compaction result: "@ + e@,
            BridgeFailure::Other(m) => m@,
        }
    }

    /// The text of the failure.
    pub fn message(&self) -> (r: String)
        ensures
            r@ == self.text(),
    {
        match self {
            BridgeFailure::NoActiveSession => "no active session".to_owned(),
            BridgeFailure::RuntimeUnavailable => "session runtime is unavailable".to_owned(),
            BridgeFailure::ModelRuntimeUnavailable => "model runtime is unavailable".to_owned(),
            BridgeFailure::NotReloadable => "extension runtime is not reloadable".to_owned(),
            BridgeFailure::SessionReplaced => "session replaced".to_owned(),
            BridgeFailure::StaleToken => "stale replacement token".to_owned(),
            BridgeFailure::SerializeEntries(e) => text::concat2(
                "serialize session entries: ",
                e.as_str(),
            ),
            BridgeFailure::EncodeCompaction(e) => text::concat2(
                "encode compaction result: ",
                e.as_str(),
            ),
            BridgeFailure::Other(m) => m.clone(),
        }
    }
}

/// An answer to a request.
#[allow(inconsistent_fields)]
#[derive(Debug, PartialEq)]
pub enum BridgeResponse {
    /// Whether the model was selected.
    SetModel(bool),
    /// The result of a compaction.
    Compact(Result<Json, BridgeFailure>),
    /// A replacement was cancelled, or is installed under a token. A fork also gives the text of the
    /// message that was selected.
    Replacement {
        method: BridgeMethod,
        cancelled: bool,
        selected_text: Option<String>,
        token: Option<String>,
    },
    /// Another replacement is in progress.
    Busy(BridgeMethod),
    /// The request failed.
    Failed { method: BridgeMethod, failure: BridgeFailure },
    /// The result of going to another entry.
    NavigateTree(Result<Json, BridgeFailure>),
    /// The reload is installed under a token, or failed.
    Reload(Result<Option<String>, BridgeFailure>),
    /// The entries of the pending replacement.
    SetupEntries(Result<Vec<Json>, BridgeFailure>),
}

/// The method that an answer is to.
pub open spec fn response_method(response: BridgeResponse) -> BridgeMethod {
    match response {
        BridgeResponse::SetModel(_) => BridgeMethod::SetModel,
        BridgeResponse::Compact(_) => BridgeMethod::Compact,
        BridgeResponse::Replacement { method, .. } => method,
        BridgeResponse::Busy(method) => method,
        BridgeResponse::Failed { method, .. } => method,
        BridgeResponse::NavigateTree(_) => BridgeMethod::NavigateTree,
        BridgeResponse::Reload(_) => BridgeMethod::Reload,
        BridgeResponse::SetupEntries(_) => BridgeMethod::SetupEntries,
    }
}

/// Something that the error listener is told.
#[allow(inconsistent_fields)]
#[derive(Debug, PartialEq)]
pub enum BridgeReport {
    /// An answer could not be sent.
    ResponseFailed { method: BridgeMethod, error: ExtensionHostError },
    /// The answer that another replacement is in progress could not be sent.
    BusyResponseFailed { method: BridgeMethod, error: ExtensionHostError },
    /// The answer that a request failed could not be sent.
    ErrorResponseFailed { method: BridgeMethod, error: ExtensionHostError },
    /// A replacement was given up before it was ready.
    ReadyWaitEnded(BridgeMethod),
    /// A replacement that was ready is no longer there.
    ReadyStateLost(BridgeMethod),
    /// Under the token of a replacement there is a reload.
    WrongOperation(BridgeMethod),
    /// A replacement was used before.
    AlreadyConsumed(BridgeMethod),
    /// The session to replace was replaced by another one meanwhile.
    TargetChanged(BridgeMethod),
    /// The state of a reload is no longer there.
    ReloadStateLost,
    /// The extension runtime was invalidated before a reload was committed.
    ReloadInvalidated,
    /// The resources could not be taken after a reload.
    ReloadResources(ExtensionBindError),
    /// A diagnostic of a reload.
    Diagnostic(String),
    /// The model of a request could not be read.
    InvalidModel(String),
    /// The model of a request could not be selected.
    SetModelFailed(String),
    /// A replacement control came where a request of a session belongs.
    UnexpectedControl,
    /// A request of a session came where a replacement control belongs.
    MisroutedEvent,
}

impl BridgeReport {
    /// The text of the report.
    pub open spec fn text(self) -> Seq<char> {
        match self {
            BridgeReport::ResponseFailed { method, error } => method.operation() + " response: "@
                + error.text(),
            BridgeReport::BusyResponseFailed { method, error } => method.label()
                + " busy response: "@ + error.text(),
            BridgeReport::ErrorResponseFailed { method, error } => method.label()
                + " error response: "@ + error.text(),
            BridgeReport::ReadyWaitEnded(method) => method.operation()
                + ": replacement ready wait ended before completion"@,
            BridgeReport::ReadyStateLost(method) => method.operation()
                + ": replacement ready state was lost"@,
            BridgeReport::WrongOperation(method) => method.operation()
                + ": replacement ready state had the wrong operation"@,
            BridgeReport::AlreadyConsumed(method) => method.operation()
                + ": prepared replacement was already consumed"@,
            BridgeReport::TargetChanged(method) => method.operation()
                + ": replacement target changed before commit"@,
            BridgeReport::ReloadStateLost => "reload: replacement state was lost"@,
            BridgeReport::ReloadInvalidated =>
                "reload: extension runtime was invalidated before commit"@,
            BridgeReport::ReloadResources(error) => "reload resources: "@ + error.text(),
            BridgeReport::Diagnostic(m) => m@,
            BridgeReport::InvalidModel(e) => "setModel: invalid model: "@ + e@,
            BridgeReport::SetModelFailed(e) => "setModel: "@ + e@,
            BridgeReport::UnexpectedControl =>
                "replacement control unexpectedly reached session bridge dispatch"@,
            BridgeReport::MisroutedEvent =>
                "non-replacement event unexpectedly routed as a bridge operation"@,
        }
    }

    /// The text of the report.
    pub fn message(&self) -> (r: String)
        ensures
            r@ == self.text(),
    {
        match self {
            BridgeReport::ResponseFailed { method, error } => text::concat3(
                method.operation_name(),
                " response: ",
                error.message().as_str(),
            ),
            BridgeReport::BusyResponseFailed { method, error } => text::concat3(
                method.as_str(),
                " busy response: ",
                error.message().as_str(),
            ),
            BridgeReport::ErrorResponseFailed { method, error } => text::concat3(
                method.as_str(),
                " error response: ",
                error.message().as_str(),
            ),
            BridgeReport::ReadyWaitEnded(method) => text::concat2(
                method.operation_name(),
                ": replacement ready wait ended before completion",
            ),
            BridgeReport::ReadyStateLost(method) => text::concat2(
                method.operation_name(),
                ": replacement ready state was lost",
            ),
            BridgeReport::WrongOperation(method) => text::concat2(
                method.operation_name(),
                ": replacement ready state had the wrong operation",
            ),
            BridgeReport::AlreadyConsumed(method) => text::concat2(
                method.operation_name(),
                ": prepared replacement was already consumed",
            ),
            BridgeReport::TargetChanged(method) => text::concat2(
                method.operation_name(),
                ": replacement target changed before commit",
            ),
            BridgeReport::ReloadStateLost => "reload: replacement state was lost".to_owned(),
            BridgeReport::ReloadInvalidated =>
                "reload: extension runtime was invalidated before commit".to_owned(),
            BridgeReport::ReloadResources(error) => text::concat2(
                "reload resources: ",
                error.message().as_str(),
            ),
            BridgeReport::Diagnostic(m) => m.clone(),
            BridgeReport::InvalidModel(e) => text::concat2("setModel: invalid model: ", e.as_str()),
            BridgeReport::SetModelFailed(e) => text::concat2("setModel: ", e.as_str()),
            BridgeReport::UnexpectedControl =>
                "replacement control unexpectedly reached session bridge dispatch".to_owned(),
            BridgeReport::MisroutedEvent =>
                "non-replacement event unexpectedly routed as a bridge operation".to_owned(),
        }
    }
}

/// `t` is the session `s` after its error listener, where there is one, was told `text`.
pub open spec fn told(s: SessionModel, t: SessionModel, text: Seq<char>) -> bool {
    if s.bindings.has_error_listener {
        &&& t == (SessionModel { outbox: t.outbox, ..s })
        &&& t.outbox.len() == s.outbox.len() + 1
        &&& t.outbox.drop_last() == s.outbox
        &&& t.outbox.last() matches Effect::ReportError(m) && m@ == text
    } else {
        t == s
    }
}

impl AgentSession {
    /// Tells the error listener, where there is one.
    pub fn report_bridge(&mut self, report: &BridgeReport)
        ensures
            told(old(self)@, final(self)@, report.text()),
    {
        let ghost before = self@;
        let message = report.message();
        self.report_extension_error(message);
        assert(before.bindings.has_error_listener ==> self@.outbox.drop_last() =~= before.outbox);
    }
}

/// The answer to a request for which no session is there. Commands and replacement controls get
/// none, and change nothing.
pub open spec fn unclaimed_answer(event: SessionBridgeEvent) -> Option<
    (BridgeRequestId, BridgeResponse),
> {
    match correlated(event) {
        None => None,
        Some((id, method)) => Some(
            (
                id,
                match method {
                    BridgeMethod::SetModel => BridgeResponse::SetModel(false),
                    BridgeMethod::Compact => BridgeResponse::Compact(
                        Err(BridgeFailure::NoActiveSession),
                    ),
                    BridgeMethod::NavigateTree => BridgeResponse::NavigateTree(
                        Err(BridgeFailure::NoActiveSession),
                    ),
                    BridgeMethod::Reload => BridgeResponse::Reload(
                        Err(BridgeFailure::NoActiveSession),
                    ),
                    BridgeMethod::SetupEntries => BridgeResponse::SetupEntries(
                        Err(BridgeFailure::NoActiveSession),
                    ),
                    _ => BridgeResponse::Failed { method, failure: BridgeFailure::NoActiveSession },
                },
            ),
        ),
    }
}

/// The answer to a request for which no session is there.
pub fn answer_unclaimed_bridge_event(event: &SessionBridgeEvent) -> (r: Option<
    (BridgeRequestId, BridgeResponse),
>)
    ensures
        r == unclaimed_answer(*event),
{
    match event {
        SessionBridgeEvent::Command { .. }
        | SessionBridgeEvent::ReplacementReady { .. }
        | SessionBridgeEvent::ReplacementAbort { .. } => None,
        SessionBridgeEvent::SetModel { id, .. } => Some((*id, BridgeResponse::SetModel(false))),
        SessionBridgeEvent::Compact { id, .. } => Some(
            (*id, BridgeResponse::Compact(Err(BridgeFailure::NoActiveSession))),
        ),
        SessionBridgeEvent::NewSession { id, .. } => Some(
            (*id, no_session(BridgeMethod::NewSession)),
        ),
        SessionBridgeEvent::Fork { id, .. } => Some((*id, no_session(BridgeMethod::Fork))),
        SessionBridgeEvent::NavigateTree { id, .. } => Some(
            (*id, BridgeResponse::NavigateTree(Err(BridgeFailure::NoActiveSession))),
        ),
        SessionBridgeEvent::SwitchSession { id, .. } => Some(
            (*id, no_session(BridgeMethod::SwitchSession)),
        ),
        SessionBridgeEvent::Reload { id } => Some(
            (*id, BridgeResponse::Reload(Err(BridgeFailure::NoActiveSession))),
        ),
        SessionBridgeEvent::SetupEntries { id, .. } => Some(
            (*id, BridgeResponse::SetupEntries(Err(BridgeFailure::NoActiveSession))),
        ),
    }
}

fn no_session(method: BridgeMethod) -> (r: BridgeResponse)
    ensures
        r == (BridgeResponse::Failed { method, failure: BridgeFailure::NoActiveSession }),
{
    BridgeResponse::Failed { method, failure: BridgeFailure::NoActiveSession }
}

/// Without a session every request that waits for an answer still gets one, to its own id and
/// method, and nothing else is answered.
pub proof fn law_no_request_is_left_waiting(event: SessionBridgeEvent)
    ensures
        unclaimed_answer(event) is Some <==> correlated(event) is Some,
        (unclaimed_answer(event), correlated(event)) matches (Some(answer), Some(asked)) ==> answer.0
            == asked.0 && response_method(answer.1) == asked.1,
{
}

/// Where an event of the host goes.
#[derive(Clone, Copy, Debug, PartialEq, Eq, Structural)]
pub enum SessionBridgeRoute {
    /// To the active session.
    Active,
    /// To a session that is to replace it.
    Candidate,
    /// To the replacement in progress.
    Operation,
    /// Nowhere.
    Rejected,
}

/// What is done with an event of the host.
#[derive(Debug, PartialEq)]
pub enum BridgeDispatch {
    /// The session applies it; the active one then sends its state, where it is still the active
    /// one.
    Apply { event: SessionBridgeEvent, send_state: bool },
    /// The replacement is declared ready.
    CompleteReady { token: String },
    /// The replacement is given up, where it waits.
    AbortWaitingReady { token: String, origin: Option<u64> },
    /// The error listener is told.
    Report(BridgeReport),
    /// The request is answered.
    Answer { id: BridgeRequestId, response: BridgeResponse },
    /// Nothing.
    Nothing,
}

/// What is done with an event on a route.
pub open spec fn dispatched(route: SessionBridgeRoute, event: SessionBridgeEvent) -> BridgeDispatch {
    match route {
        SessionBridgeRoute::Active => BridgeDispatch::Apply { event, send_state: true },
        SessionBridgeRoute::Candidate => BridgeDispatch::Apply { event, send_state: false },
        SessionBridgeRoute::Operation => match event {
            SessionBridgeEvent::ReplacementReady { token } => BridgeDispatch::CompleteReady {
                token,
            },
            SessionBridgeEvent::ReplacementAbort { token, origin } =>
                BridgeDispatch::AbortWaitingReady { token, origin },
            _ => BridgeDispatch::Report(BridgeReport::MisroutedEvent),
        },
        SessionBridgeRoute::Rejected => match unclaimed_answer(event) {
            Some((id, response)) => BridgeDispatch::Answer { id, response },
            None => BridgeDispatch::Nothing,
        },
    }
}

/// Decides what is done with an event on a route.
pub fn dispatch_session_bridge_route(route: SessionBridgeRoute, event: SessionBridgeEvent) -> (r:
    BridgeDispatch)
    ensures
        r == dispatched(route, event),
{
    match route {
        SessionBridgeRoute::Active => BridgeDispatch::Apply { event, send_state: true },
        SessionBridgeRoute::Candidate => BridgeDispatch::Apply { event, send_state: false },
        SessionBridgeRoute::Operation => match event {
            SessionBridgeEvent::ReplacementReady { token } => BridgeDispatch::CompleteReady {
                token,
            },
            SessionBridgeEvent::ReplacementAbort { token, origin } =>
                BridgeDispatch::AbortWaitingReady { token, origin },
            _ => BridgeDispatch::Report(BridgeReport::MisroutedEvent),
        },
        SessionBridgeRoute::Rejected => match answer_unclaimed_bridge_event(&event) {
            Some((id, response)) => BridgeDispatch::Answer { id, response },
            None => BridgeDispatch::Nothing,
        },
    }
}

/// What a session is to be replaced by.
#[allow(inconsistent_fields)]
#[derive(Debug, PartialEq)]
pub enum ReplacementRequest {
    NewSession(NewSessionRequest),
    Fork(ForkRequest),
    SwitchSession(SwitchSessionRequest),
}

/// The method of a request for a replacement.
pub open spec fn replacement_method(request: ReplacementRequest) -> BridgeMethod {
    match request {
        ReplacementRequest::NewSession(_) => BridgeMethod::NewSession,
        ReplacementRequest::Fork(_) => BridgeMethod::Fork,
        ReplacementRequest::SwitchSession(_) => BridgeMethod::SwitchSession,
    }
}

/// What the runtime is asked to prepare.
#[derive(Debug, PartialEq)]
pub enum ReplacementTask {
    NewSession { parent_session: Option<String> },
    Fork { entry_id: String, position: ForkPosition },
    SwitchSession { session_path: String },
}

/// What the runtime is asked to prepare for a request. A fork cuts before its entry where nothing
/// else is said.
pub open spec fn replacement_task(request: ReplacementRequest) -> ReplacementTask {
    match request {
        ReplacementRequest::NewSession(r) => ReplacementTask::NewSession {
            parent_session: r.parent_session,
        },
        ReplacementRequest::Fork(r) => ReplacementTask::Fork {
            entry_id: r.entry_id,
            position: match r.position {
                Some(p) => p,
                None => ForkPosition::Before,
            },
        },
        ReplacementRequest::SwitchSession(r) => ReplacementTask::SwitchSession {
            session_path: r.session_path,
        },
    }
}

/// What is to be done next for a replacement.
#[derive(Debug, PartialEq)]
pub enum ReplacementStep {
    /// The runtime prepares the replacement, under its replacement lock.
    Prepare(ReplacementTask),
    /// The prepared replacement is installed under a new token, still under the lock.
    Install { selected_text: Option<String> },
    /// The prepared replacement is given up.
    AbortPrepared,
    /// The request is answered.
    Respond(BridgeResponse),
    /// The replacement is waited for to be ready.
    AwaitReady,
    /// The installed replacement is taken back.
    TakeFinalizing,
    /// The replacement becomes the target of the bridge, the runtime finalizes it, and the host
    /// commits it.
    Finalize,
    /// The state of the new session is sent to extensions from now on.
    BindMirror,
    /// The installed replacement is given up, and then the report is told.
    AbortPending(BridgeReport),
    /// The token is given back, and then the report is told.
    FinishFinalize(BridgeReport),
    /// The error listener is told.
    Report(BridgeReport),
    /// Nothing.
    Done,
}

/// How a preparation ended.
#[derive(Debug, PartialEq)]
pub enum PrepareOutcome {
    /// An extension cancelled it.
    Cancelled,
    /// It is prepared; a fork has the text of the selected message.
    Prepared { selected_text: Option<String> },
    /// Another replacement is in progress.
    Busy,
    /// It failed.
    Failed(String),
}

/// What is pending under a token until the host is ready. What the host prepared for it is known by
/// its handle.
#[derive(Debug, PartialEq)]
pub enum PendingReadyOp {
    /// Another session, that takes the place of this one.
    Replacement {
        result: u64,
        reason: SessionShutdownReason,
        target_session_file: Option<String>,
    },
    /// New extensions, and the models that they are prepared with.
    Reload { prepared: u64, model_runtime: u64 },
}

/// Another session that was prepared; without a result where it was used.
#[derive(Debug, PartialEq)]
pub struct PreparedReplacement {
    pub result: Option<u64>,
    pub reason: SessionShutdownReason,
    pub target_session_file: Option<String>,
}

/// Tells the replacement of a session from a reload: the session that was prepared, or the reload
/// with all it holds.
pub fn pending_replacement(op: PendingReadyOp) -> (r: Result<PreparedReplacement, PendingReadyOp>)
    ensures
        match op {
            PendingReadyOp::Replacement { result, reason, target_session_file } => r == Ok::<
                PreparedReplacement,
                PendingReadyOp,
            >(PreparedReplacement { result: Some(result), reason, target_session_file }),
            PendingReadyOp::Reload { .. } => r == Err::<PreparedReplacement, PendingReadyOp>(op),
        },
{
    match op {
        PendingReadyOp::Replacement { result, reason, target_session_file } => Ok(
            PreparedReplacement { result: Some(result), reason, target_session_file },
        ),
        reload => Err(reload),
    }
}

/// What was found under a token.
pub fn pending_operation(op: &Option<PendingReadyOp>) -> (r: PendingOperation)
    ensures
        r == match *op {
            None => PendingOperation::Lost,
            Some(PendingReadyOp::Replacement { .. }) => PendingOperation::Replacement,
            Some(PendingReadyOp::Reload { .. }) => PendingOperation::Reload,
        },
{
    match op {
        None => PendingOperation::Lost,
        Some(PendingReadyOp::Replacement { .. }) => PendingOperation::Replacement,
        Some(PendingReadyOp::Reload { .. }) => PendingOperation::Reload,
    }
}

/// What came of a step.
#[derive(Debug, PartialEq)]
pub enum ReplacementReply {
    Prepared(PrepareOutcome),
    /// The token, none where another replacement was installed before.
    Installed(Option<String>),
    PreparedAborted,
    Responded(Result<(), ExtensionHostError>),
    Ready(bool),
    /// What was found under the token, and whether a replacement among it was used before.
    Taken { operation: PendingOperation, consumed: bool },
    /// Whether the host committed the replacement.
    Finalized(bool),
    MirrorBound,
    PendingAborted,
    FinalizeFinished,
    Reported,
}

/// A replacement in progress.
#[derive(Debug, PartialEq)]
pub struct BridgeReplacement {
    pub id: BridgeRequestId,
    pub method: BridgeMethod,
    /// The token of the installed replacement.
    pub token: Option<String>,
    pub step: ReplacementStep,
}

/// The first step: the request is answered at once while another replacement is in progress, and
/// where there is no runtime.
pub open spec fn replacement_start(
    request: ReplacementRequest,
    busy: bool,
    has_runtime: bool,
) -> ReplacementStep {
    let method = replacement_method(request);
    if busy {
        ReplacementStep::Respond(BridgeResponse::Busy(method))
    } else if !has_runtime {
        ReplacementStep::Respond(
            BridgeResponse::Failed { method, failure: BridgeFailure::RuntimeUnavailable },
        )
    } else {
        ReplacementStep::Prepare(replacement_task(request))
    }
}

/// What the listener is told where an answer could not be sent.
pub open spec fn unsent(response: BridgeResponse, error: ExtensionHostError) -> BridgeReport {
    match response {
        BridgeResponse::Busy(method) => BridgeReport::BusyResponseFailed { method, error },
        BridgeResponse::Failed { method, .. } => BridgeReport::ErrorResponseFailed {
            method,
            error,
        },
        _ => BridgeReport::ResponseFailed { method: response_method(response), error },
    }
}

/// Whether an answer says that a replacement is installed.
pub open spec fn accepts(response: BridgeResponse) -> bool {
    response matches BridgeResponse::Replacement { cancelled, .. } && !cancelled
}

/// The step that follows. A reply that is not one to the step changes nothing.
pub open spec fn replacement_step(
    method: BridgeMethod,
    step: ReplacementStep,
    reply: ReplacementReply,
) -> ReplacementStep {
    match (step, reply) {
        (ReplacementStep::Prepare(_), ReplacementReply::Prepared(outcome)) => match outcome {
            PrepareOutcome::Cancelled => ReplacementStep::Respond(
                BridgeResponse::Replacement {
                    method,
                    cancelled: true,
                    selected_text: None,
                    token: None,
                },
            ),
            PrepareOutcome::Prepared { selected_text } => ReplacementStep::Install {
                selected_text,
            },
            PrepareOutcome::Busy => ReplacementStep::Respond(BridgeResponse::Busy(method)),
            PrepareOutcome::Failed(m) => ReplacementStep::Respond(
                BridgeResponse::Failed { method, failure: BridgeFailure::Other(m) },
            ),
        },
        (ReplacementStep::Install { selected_text }, ReplacementReply::Installed(installed)) =>
            match installed {
            Some(token) => ReplacementStep::Respond(
                BridgeResponse::Replacement {
                    method,
                    cancelled: false,
                    selected_text,
                    token: Some(token),
                },
            ),
            None => ReplacementStep::AbortPrepared,
        },
        (ReplacementStep::AbortPrepared, ReplacementReply::PreparedAborted) =>
            ReplacementStep::Respond(BridgeResponse::Busy(method)),
        (ReplacementStep::Respond(response), ReplacementReply::Responded(sent)) => match sent {
            Ok(_) => if accepts(response) {
                ReplacementStep::AwaitReady
            } else {
                ReplacementStep::Done
            },
            Err(error) => if accepts(response) {
                ReplacementStep::AbortPending(unsent(response, error))
            } else {
                ReplacementStep::Report(unsent(response, error))
            },
        },
        (ReplacementStep::AwaitReady, ReplacementReply::Ready(ready)) => if ready {
            ReplacementStep::TakeFinalizing
        } else {
            ReplacementStep::AbortPending(BridgeReport::ReadyWaitEnded(method))
        },
        (ReplacementStep::TakeFinalizing, ReplacementReply::Taken { operation, consumed }) =>
            match operation {
            PendingOperation::Lost => ReplacementStep::Report(BridgeReport::ReadyStateLost(method)),
            PendingOperation::Reload => ReplacementStep::FinishFinalize(
                BridgeReport::WrongOperation(method),
            ),
            PendingOperation::Replacement => if consumed {
                ReplacementStep::FinishFinalize(BridgeReport::AlreadyConsumed(method))
            } else {
                ReplacementStep::Finalize
            },
        },
        (ReplacementStep::Finalize, ReplacementReply::Finalized(committed)) => if committed {
            ReplacementStep::BindMirror
        } else {
            ReplacementStep::Report(BridgeReport::TargetChanged(method))
        },
        (ReplacementStep::BindMirror, ReplacementReply::MirrorBound) => ReplacementStep::Done,
        (ReplacementStep::AbortPending(report), ReplacementReply::PendingAborted) =>
            ReplacementStep::Report(report),
        (ReplacementStep::FinishFinalize(report), ReplacementReply::FinalizeFinished) =>
            ReplacementStep::Report(report),
        (ReplacementStep::Report(_), ReplacementReply::Reported) => ReplacementStep::Done,
        (step, _) => step,
    }
}

/// A replacement after a reply.
pub open spec fn replacement_next(r: BridgeReplacement, reply: ReplacementReply) -> BridgeReplacement {
    BridgeReplacement {
        id: r.id,
        method: r.method,
        token: match (r.step, reply) {
            (ReplacementStep::Install { .. }, ReplacementReply::Installed(Some(token))) => Some(
                token,
            ),
            _ => r.token,
        },
        step: replacement_step(r.method, r.step, reply),
    }
}

impl BridgeReplacement {
    /// Begins with a request for a replacement. `busy` says whether another replacement is in
    /// progress, `has_runtime` whether there is a runtime that can replace the session.
    pub fn begin(
        id: BridgeRequestId,
        request: ReplacementRequest,
        busy: bool,
        has_runtime: bool,
    ) -> (r: Self)
        ensures
            r.id == id,
            r.method == replacement_method(request),
            r.token is None,
            r.step == replacement_start(request, busy, has_runtime),
    {
        let method = match &request {
            ReplacementRequest::NewSession(_) => BridgeMethod::NewSession,
            ReplacementRequest::Fork(_) => BridgeMethod::Fork,
            ReplacementRequest::SwitchSession(_) => BridgeMethod::SwitchSession,
        };
        let step = if busy {
            ReplacementStep::Respond(BridgeResponse::Busy(method))
        } else if !has_runtime {
            ReplacementStep::Respond(
                BridgeResponse::Failed { method, failure: BridgeFailure::RuntimeUnavailable },
            )
        } else {
            ReplacementStep::Prepare(
                match request {
                    ReplacementRequest::NewSession(r) => ReplacementTask::NewSession {
                        parent_session: r.parent_session,
                    },
                    ReplacementRequest::Fork(r) => ReplacementTask::Fork {
                        entry_id: r.entry_id,
                        position: match r.position {
                            Some(p) => p,
                            None => ForkPosition::Before,
                        },
                    },
                    ReplacementRequest::SwitchSession(r) => ReplacementTask::SwitchSession {
                        session_path: r.session_path,
                    },
                },
            )
        };
        BridgeReplacement { id, method, token: None, step }
    }

    /// Goes on after a step.
    pub fn advance(self, reply: ReplacementReply) -> (r: Self)
        ensures
            r == replacement_next(self, reply),
    {
        let BridgeReplacement { id, method, token, step } = self;
        match (step, reply) {
            (
                ReplacementStep::Install { selected_text },
                ReplacementReply::Installed(Some(token)),
            ) => {
                let step = ReplacementStep::Respond(
                    BridgeResponse::Replacement {
                        method,
                        cancelled: false,
                        selected_text,
                        token: Some(token.clone()),
                    },
                );
                BridgeReplacement { id, method, token: Some(token), step }
            },
            (step, reply) => {
                let step = advance_replacement(method, step, reply);
                BridgeReplacement { id, method, token, step }
            },
        }
    }
}

/// What the listener is told where an answer could not be sent.
pub fn unsent_report(response: BridgeResponse, error: ExtensionHostError) -> (r: BridgeReport)
    ensures
        r == unsent(response, error),
{
    match response {
        BridgeResponse::Busy(method) => BridgeReport::BusyResponseFailed { method, error },
        BridgeResponse::Failed { method, .. } => BridgeReport::ErrorResponseFailed {
            method,
            error,
        },
        BridgeResponse::Replacement { method, .. } => BridgeReport::ResponseFailed {
            method,
            error,
        },
        BridgeResponse::SetModel(_) => BridgeReport::ResponseFailed {
            method: BridgeMethod::SetModel,
            error,
        },
        BridgeResponse::Compact(_) => BridgeReport::ResponseFailed {
            method: BridgeMethod::Compact,
            error,
        },
        BridgeResponse::NavigateTree(_) => BridgeReport::ResponseFailed {
            method: BridgeMethod::NavigateTree,
            error,
        },
        BridgeResponse::Reload(_) => BridgeReport::ResponseFailed {
            method: BridgeMethod::Reload,
            error,
        },
        BridgeResponse::SetupEntries(_) => BridgeReport::ResponseFailed {
            method: BridgeMethod::SetupEntries,
            error,
        },
    }
}

fn prepared_step(method: BridgeMethod, outcome: PrepareOutcome) -> (r: ReplacementStep)
    ensures
        forall|task: ReplacementTask|
            r == #[trigger] replacement_step(
                method,
                ReplacementStep::Prepare(task),
                ReplacementReply::Prepared(outcome),
            ),
{
    match outcome {
        PrepareOutcome::Cancelled => ReplacementStep::Respond(
            BridgeResponse::Replacement {
                method,
                cancelled: true,
                selected_text: None,
                token: None,
            },
        ),
        PrepareOutcome::Prepared { selected_text } => ReplacementStep::Install { selected_text },
        PrepareOutcome::Busy => ReplacementStep::Respond(BridgeResponse::Busy(method)),
        PrepareOutcome::Failed(m) => ReplacementStep::Respond(
            BridgeResponse::Failed { method, failure: BridgeFailure::Other(m) },
        ),
    }
}

fn responded_step(
    method: BridgeMethod,
    response: BridgeResponse,
    sent: Result<(), ExtensionHostError>,
) -> (r: ReplacementStep)
    ensures
        r == replacement_step(
            method,
            ReplacementStep::Respond(response),
            ReplacementReply::Responded(sent),
        ),
{
    let accepted = match &response {
        BridgeResponse::Replacement { cancelled, .. } => !*cancelled,
        _ => false,
    };
    match sent {
        Ok(_) => if accepted {
            ReplacementStep::AwaitReady
        } else {
            ReplacementStep::Done
        },
        Err(error) => if accepted {
            ReplacementStep::AbortPending(unsent_report(response, error))
        } else {
            ReplacementStep::Report(unsent_report(response, error))
        },
    }
}

/// The step that follows, for all but an installed replacement.
fn advance_replacement(method: BridgeMethod, step: ReplacementStep, reply: ReplacementReply) -> (r:
    ReplacementStep)
    requires
        !(step is Install && reply matches ReplacementReply::Installed(Some(_))),
    ensures
        r == replacement_step(method, step, reply),
{
    match (step, reply) {
        (ReplacementStep::Prepare(_), ReplacementReply::Prepared(outcome)) => prepared_step(
            method,
            outcome,
        ),
        (ReplacementStep::Install { .. }, ReplacementReply::Installed(None)) =>
            ReplacementStep::AbortPrepared,
        (ReplacementStep::AbortPrepared, ReplacementReply::PreparedAborted) =>
            ReplacementStep::Respond(BridgeResponse::Busy(method)),
        (ReplacementStep::Respond(response), ReplacementReply::Responded(sent)) => responded_step(
            method,
            response,
            sent,
        ),
        (ReplacementStep::AwaitReady, ReplacementReply::Ready(true)) =>
            ReplacementStep::TakeFinalizing,
        (ReplacementStep::AwaitReady, ReplacementReply::Ready(false)) =>
            ReplacementStep::AbortPending(BridgeReport::ReadyWaitEnded(method)),
        (ReplacementStep::TakeFinalizing, ReplacementReply::Taken { operation, consumed }) =>
            match operation {
            PendingOperation::Lost => ReplacementStep::Report(BridgeReport::ReadyStateLost(method)),
            PendingOperation::Reload => ReplacementStep::FinishFinalize(
                BridgeReport::WrongOperation(method),
            ),
            PendingOperation::Replacement => if consumed {
                ReplacementStep::FinishFinalize(BridgeReport::AlreadyConsumed(method))
            } else {
                ReplacementStep::Finalize
            },
        },
        (ReplacementStep::Finalize, ReplacementReply::Finalized(true)) =>
            ReplacementStep::BindMirror,
        (ReplacementStep::Finalize, ReplacementReply::Finalized(false)) => ReplacementStep::Report(
            BridgeReport::TargetChanged(method),
        ),
        (ReplacementStep::BindMirror, ReplacementReply::MirrorBound) => ReplacementStep::Done,
        (ReplacementStep::AbortPending(report), ReplacementReply::PendingAborted) =>
            ReplacementStep::Report(report),
        (ReplacementStep::FinishFinalize(report), ReplacementReply::FinalizeFinished) =>
            ReplacementStep::Report(report),
        (ReplacementStep::Report(_), ReplacementReply::Reported) => ReplacementStep::Done,
        (step, _) => step,
    }
}

/// How many steps may follow.
pub open spec fn replacement_steps_left(step: ReplacementStep) -> nat {
    match step {
        ReplacementStep::Prepare(_) => 10,
        ReplacementStep::Install { .. } => 9,
        ReplacementStep::AbortPrepared => 8,
        ReplacementStep::Respond(_) => 7,
        ReplacementStep::AwaitReady => 6,
        ReplacementStep::TakeFinalizing => 5,
        ReplacementStep::Finalize => 4,
        ReplacementStep::BindMirror => 3,
        ReplacementStep::AbortPending(_) => 2,
        ReplacementStep::FinishFinalize(_) => 2,
        ReplacementStep::Report(_) => 1,
        ReplacementStep::Done => 0,
    }
}

/// Whether the request still waits for its answer.
pub open spec fn unanswered(step: ReplacementStep) -> bool {
    replacement_steps_left(step) >= 7
}

/// Every reply leads on or changes nothing: a replacement comes to an end.
pub proof fn law_replacement_moves_forward(r: BridgeReplacement, reply: ReplacementReply)
    ensures
        replacement_next(r, reply).step == r.step || replacement_steps_left(
            replacement_next(r, reply).step,
        ) < replacement_steps_left(r.step),
{
}

/// A replacement after replies.
pub open spec fn replacement_run(
    r: BridgeReplacement,
    replies: Seq<ReplacementReply>,
) -> BridgeReplacement
    decreases replies.len(),
{
    if replies.len() == 0 {
        r
    } else {
        replacement_next(replacement_run(r, replies.drop_last()), replies.last())
    }
}

/// How often an answer was sent.
pub open spec fn answers_sent(r: BridgeReplacement, replies: Seq<ReplacementReply>) -> nat
    decreases replies.len(),
{
    if replies.len() == 0 {
        0
    } else {
        answers_sent(r, replies.drop_last()) + if replacement_run(
            r,
            replies.drop_last(),
        ).step is Respond && replies.last() is Responded {
            1nat
        } else {
            0nat
        }
    }
}

/// A request for a replacement is answered once, whatever comes of it: until then it waits, and from
/// then on no further answer is sent.
pub proof fn law_replacement_is_answered_once(
    r: BridgeReplacement,
    replies: Seq<ReplacementReply>,
)
    requires
        unanswered(r.step),
    ensures
        answers_sent(r, replies) == if unanswered(replacement_run(r, replies).step) {
            0nat
        } else {
            1nat
        },
        replacement_run(r, replies).id == r.id,
        replacement_run(r, replies).method == r.method,
    decreases replies.len(),
{
    if replies.len() > 0 {
        law_replacement_is_answered_once(r, replies.drop_last());
    }
}

/// A request for a replacement begins unanswered.
pub proof fn law_replacement_begins_unanswered(
    request: ReplacementRequest,
    busy: bool,
    has_runtime: bool,
)
    ensures
        unanswered(replacement_start(request, busy, has_runtime)),
{
}

/// What the host is answered, where a reload does not even begin: another replacement is in progress,
/// the settings could not be read again, or there is no model runtime.
pub open spec fn reload_refusal(
    busy: bool,
    settings: Result<(), ExtensionBindError>,
    has_model_runtime: bool,
    r: Option<BridgeResponse>,
) -> bool {
    if busy {
        r == Some(BridgeResponse::Busy(BridgeMethod::Reload))
    } else if let Err(error) = settings {
        r matches Some(
            BridgeResponse::Failed {
                method: BridgeMethod::Reload,
                failure: BridgeFailure::Other(m),
            },
        ) && m@ == error.text()
    } else if !has_model_runtime {
        r == Some(
            BridgeResponse::Failed {
                method: BridgeMethod::Reload,
                failure: BridgeFailure::ModelRuntimeUnavailable,
            },
        )
    } else {
        r is None
    }
}

/// What the host is answered, where a reload that it asked for does not even begin. While another
/// replacement is in progress the settings are not read, and `settings` says nothing.
pub fn handle_bridge_reload(
    busy: bool,
    settings: &Result<(), ExtensionBindError>,
    has_model_runtime: bool,
) -> (r: Option<BridgeResponse>)
    ensures
        reload_refusal(busy, *settings, has_model_runtime, r),
{
    if busy {
        return Some(BridgeResponse::Busy(BridgeMethod::Reload));
    }
    if let Err(error) = settings {
        return Some(
            BridgeResponse::Failed {
                method: BridgeMethod::Reload,
                failure: BridgeFailure::Other(error.message()),
            },
        );
    }
    if !has_model_runtime {
        return Some(
            BridgeResponse::Failed {
                method: BridgeMethod::Reload,
                failure: BridgeFailure::ModelRuntimeUnavailable,
            },
        );
    }
    None
}

/// What the host is answered after a reload that it asked for and that was not accepted.
pub open spec fn reload_answer(result: Result<(), ReloadTransactionError>) -> Option<
    BridgeResponse,
> {
    match result {
        Err(ReloadTransactionError::Pre(error)) => match error {
            ReloadPreAcceptError::Busy => Some(BridgeResponse::Busy(BridgeMethod::Reload)),
            ReloadPreAcceptError::InstallConflict => Some(
                BridgeResponse::Busy(BridgeMethod::Reload),
            ),
            ReloadPreAcceptError::Unreloadable => Some(
                BridgeResponse::Failed {
                    method: BridgeMethod::Reload,
                    failure: BridgeFailure::NotReloadable,
                },
            ),
            ReloadPreAcceptError::Prepare(m) => Some(
                BridgeResponse::Failed {
                    method: BridgeMethod::Reload,
                    failure: BridgeFailure::Other(m),
                },
            ),
            ReloadPreAcceptError::Response(_) => None,
        },
        _ => None,
    }
}

/// What the listener is told of the end of a reload that the host asked for, after its diagnostics.
pub open spec fn reload_report(result: Result<(), ReloadTransactionError>) -> Option<BridgeReport> {
    match result {
        Ok(_) => None,
        Err(ReloadTransactionError::Pre(ReloadPreAcceptError::Response(error))) => Some(
            BridgeReport::ResponseFailed { method: BridgeMethod::Reload, error },
        ),
        Err(ReloadTransactionError::Pre(_)) => None,
        Err(ReloadTransactionError::Post(error)) => Some(
            match error {
                ReloadPostAcceptError::ReadyLost => BridgeReport::ReadyWaitEnded(
                    BridgeMethod::Reload,
                ),
                ReloadPostAcceptError::StateLost => BridgeReport::ReloadStateLost,
                ReloadPostAcceptError::Invalidated => BridgeReport::ReloadInvalidated,
                ReloadPostAcceptError::Resources(e) => BridgeReport::ReloadResources(e),
            },
        ),
    }
}

/// Whether the diagnostics of a reload are told: those of one that was committed.
pub open spec fn tells_diagnostics(result: Result<(), ReloadTransactionError>) -> bool {
    match result {
        Ok(_) => true,
        Err(ReloadTransactionError::Post(ReloadPostAcceptError::Resources(_))) => true,
        _ => false,
    }
}

/// Diagnostics as reports.
pub open spec fn diagnostic_reports(diagnostics: Seq<String>) -> Seq<BridgeReport> {
    diagnostics.map_values(|d: String| BridgeReport::Diagnostic(d))
}

/// The end of a reload that the host asked for: what it is answered, where it was not answered
/// before, and what the listener is told.
pub fn finish_bridge_reload(transaction: ReloadTransaction) -> (r: (
    Option<BridgeResponse>,
    Vec<BridgeReport>,
))
    requires
        transaction.step is Finished,
    ensures
        transaction.step matches ReloadStep::Finished(result) && r.0 == reload_answer(result) && ({
            let diagnostics = if tells_diagnostics(result) {
                diagnostic_reports(transaction.diagnostics@)
            } else {
                seq![]
            };
            r.1@ == match reload_report(result) {
                Some(report) => diagnostics.push(report),
                None => diagnostics,
            }
        }),
{
    let mut reports: Vec<BridgeReport> = Vec::new();
    let result = match transaction.step {
        ReloadStep::Finished(result) => result,
        _ => return (None, reports),
    };
    let committed = match &result {
        Ok(_) => true,
        Err(ReloadTransactionError::Post(ReloadPostAcceptError::Resources(_))) => true,
        _ => false,
    };
    if committed {
        push_diagnostics(&mut reports, &transaction.diagnostics);
    }
    let response = match result {
        Ok(_) => None,
        Err(ReloadTransactionError::Pre(error)) => match error {
            ReloadPreAcceptError::Busy | ReloadPreAcceptError::InstallConflict => Some(
                BridgeResponse::Busy(BridgeMethod::Reload),
            ),
            ReloadPreAcceptError::Unreloadable => Some(
                BridgeResponse::Failed {
                    method: BridgeMethod::Reload,
                    failure: BridgeFailure::NotReloadable,
                },
            ),
            ReloadPreAcceptError::Prepare(m) => Some(
                BridgeResponse::Failed {
                    method: BridgeMethod::Reload,
                    failure: BridgeFailure::Other(m),
                },
            ),
            ReloadPreAcceptError::Response(error) => {
                reports.push(
                    BridgeReport::ResponseFailed { method: BridgeMethod::Reload, error },
                );
                None
            },
        },
        Err(ReloadTransactionError::Post(error)) => {
            let report = match error {
                ReloadPostAcceptError::ReadyLost => BridgeReport::ReadyWaitEnded(
                    BridgeMethod::Reload,
                ),
                ReloadPostAcceptError::StateLost => BridgeReport::ReloadStateLost,
                ReloadPostAcceptError::Invalidated => BridgeReport::ReloadInvalidated,
                ReloadPostAcceptError::Resources(error) => BridgeReport::ReloadResources(error),
            };
            reports.push(report);
            None
        },
    };
    (response, reports)
}

fn push_diagnostics(reports: &mut Vec<BridgeReport>, diagnostics: &Vec<String>)
    ensures
        final(reports)@ == old(reports)@ + diagnostic_reports(diagnostics@),
{
    let ghost before = reports@;
    let ghost all = diagnostic_reports(diagnostics@);
    let n: usize = diagnostics.len();
    let mut i: usize = 0;
    assert(before + all.take(0) =~= before);
    while i < n
        invariant
            n == diagnostics@.len(),
            i <= n,
            all == diagnostic_reports(diagnostics@),
            reports@ == before + all.take(i as int),
        decreases n - i,
    {
        reports.push(BridgeReport::Diagnostic(diagnostics[i].clone()));
        assert(before + all.take(i + 1) =~= (before + all.take(i as int)).push(
            BridgeReport::Diagnostic(diagnostics@[i as int]),
        ));
        i += 1;
    }
    assert(all.take(n as int) =~= all);
}

/// What the host is answered while a reload runs that it asked for: the token of the replacement
/// that is installed.
pub fn reload_accepted(transaction: &ReloadTransaction) -> (r: Option<
    (BridgeRequestId, BridgeResponse),
>)
    ensures
        r == match (transaction.step, transaction.origin) {
            (ReloadStep::Respond, ReloadOrigin::Bridge { id }) => Some(
                (id, BridgeResponse::Reload(Ok(transaction.token))),
            ),
            _ => None,
        },
{
    match (&transaction.step, transaction.origin) {
        (ReloadStep::Respond, ReloadOrigin::Bridge { id }) => Some(
            (id, BridgeResponse::Reload(Ok(clone_text(&transaction.token)))),
        ),
        _ => None,
    }
}

/// How often a reload answered the host while it ran.
pub open spec fn reload_answers(
    s: SessionModel,
    t: ReloadTransaction,
    replies: Seq<ReloadReply>,
) -> nat
    decreases replies.len(),
{
    if replies.len() == 0 {
        0
    } else {
        let before = reload::reload_run(s, t, replies.drop_last()).1;
        reload_answers(s, t, replies.drop_last()) + if replies.last() is Responded
            && before.step is Respond {
            1nat
        } else {
            0nat
        }
    }
}

/// A reload that the host asked for is answered once: while it runs, or at its end where it was not
/// accepted.
pub proof fn law_reload_is_answered_once(
    s: SessionModel,
    t: ReloadTransaction,
    replies: Seq<ReloadReply>,
)
    requires
        t.step == ReloadStep::Prepare,
        t.origin is Bridge,
    ensures
        ({
            let after = reload::reload_run(s, t, replies).1;
            reload_answers(s, t, replies) == match after.step {
                ReloadStep::Finished(result) => if reload_answer(result) is Some {
                    0nat
                } else {
                    1nat
                },
                ReloadStep::Prepare | ReloadStep::Install | ReloadStep::Respond => 0nat,
                _ => 1nat,
            }
        }),
        reload::reload_run(s, t, replies).1.origin == t.origin,
        reload::reload_run(s, t, replies).1.step !is CompleteReady,
    decreases replies.len(),
{
    if replies.len() > 0 {
        law_reload_is_answered_once(s, t, replies.drop_last());
    }
}

/// What is to be done next to go to another entry of the tree.
#[derive(Debug, PartialEq)]
pub enum NavigationStep {
    /// The summarizer for the branch that is left is looked for.
    ResolveInputs(NavigateTreeRequest),
    /// The session goes to the entry.
    Navigate(NavigateTreeRequest),
    /// The request is answered; a failure to do so is told only where `tell` says so.
    Respond { outcome: Result<Json, BridgeFailure>, tell: bool },
    /// The error listener is told.
    Report(BridgeReport),
    /// Nothing.
    Done,
}

/// What came of a step.
#[derive(Debug, PartialEq)]
pub enum NavigationReply {
    InputsResolved(Result<(), String>),
    Navigated(Result<Json, String>),
    Responded(Result<(), ExtensionHostError>),
    Reported,
}

/// The way to another entry of the tree.
#[derive(Debug, PartialEq)]
pub struct BridgeNavigation {
    pub id: BridgeRequestId,
    pub step: NavigationStep,
}

/// The first step: a session that was replaced goes nowhere; a summary needs a summarizer.
pub open spec fn navigation_start(disposed: bool, request: NavigateTreeRequest) -> NavigationStep {
    if disposed {
        NavigationStep::Respond { outcome: Err(BridgeFailure::SessionReplaced), tell: false }
    } else if request.options.summarize {
        NavigationStep::ResolveInputs(request)
    } else {
        NavigationStep::Navigate(request)
    }
}

/// The step that follows. A reply that is not one to the step changes nothing.
pub open spec fn navigation_next(step: NavigationStep, reply: NavigationReply) -> NavigationStep {
    match (step, reply) {
        (NavigationStep::ResolveInputs(request), NavigationReply::InputsResolved(found)) =>
            match found {
            Ok(_) => NavigationStep::Navigate(request),
            Err(m) => NavigationStep::Respond {
                outcome: Err(BridgeFailure::Other(m)),
                tell: false,
            },
        },
        (NavigationStep::Navigate(_), NavigationReply::Navigated(result)) =>
            NavigationStep::Respond {
            outcome: match result {
                Ok(value) => Ok(value),
                Err(m) => Err(BridgeFailure::Other(m)),
            },
            tell: true,
        },
        (NavigationStep::Respond { outcome, tell }, NavigationReply::Responded(sent)) => match sent {
            Ok(_) => NavigationStep::Done,
            Err(error) => if tell {
                NavigationStep::Report(
                    BridgeReport::ResponseFailed { method: BridgeMethod::NavigateTree, error },
                )
            } else {
                NavigationStep::Done
            },
        },
        (NavigationStep::Report(_), NavigationReply::Reported) => NavigationStep::Done,
        (step, _) => step,
    }
}

impl BridgeNavigation {
    /// Begins with a request to go to another entry of the tree.
    pub fn begin(id: BridgeRequestId, disposed: bool, request: NavigateTreeRequest) -> (r: Self)
        ensures
            r.id == id,
            r.step == navigation_start(disposed, request),
    {
        let step = if disposed {
            NavigationStep::Respond { outcome: Err(BridgeFailure::SessionReplaced), tell: false }
        } else if request.options.summarize {
            NavigationStep::ResolveInputs(request)
        } else {
            NavigationStep::Navigate(request)
        };
        BridgeNavigation { id, step }
    }

    /// Goes on after a step.
    pub fn advance(self, reply: NavigationReply) -> (r: Self)
        ensures
            r.id == self.id,
            r.step == navigation_next(self.step, reply),
    {
        let BridgeNavigation { id, step } = self;
        let step = match (step, reply) {
            (NavigationStep::ResolveInputs(request), NavigationReply::InputsResolved(Ok(_))) =>
                NavigationStep::Navigate(request),
            (NavigationStep::ResolveInputs(_), NavigationReply::InputsResolved(Err(message))) =>
                NavigationStep::Respond {
                outcome: Err(BridgeFailure::Other(message)),
                tell: false,
            },
            (NavigationStep::Navigate(_), NavigationReply::Navigated(Ok(value))) =>
                NavigationStep::Respond { outcome: Ok(value), tell: true },
            (NavigationStep::Navigate(_), NavigationReply::Navigated(Err(message))) =>
                NavigationStep::Respond { outcome: Err(BridgeFailure::Other(message)), tell: true },
            (NavigationStep::Respond { .. }, NavigationReply::Responded(Ok(_))) =>
                NavigationStep::Done,
            (NavigationStep::Respond { outcome: _, tell }, NavigationReply::Responded(Err(error)))
            => if tell {
                NavigationStep::Report(
                    BridgeReport::ResponseFailed { method: BridgeMethod::NavigateTree, error },
                )
            } else {
                NavigationStep::Done
            },
            (NavigationStep::Report(_), NavigationReply::Reported) => NavigationStep::Done,
            (step, _) => step,
        };
        BridgeNavigation { id, step }
    }
}

/// Whether the request to go to another entry still waits for its answer.
pub open spec fn navigation_waits(step: NavigationStep) -> bool {
    step is ResolveInputs || step is Navigate || step is Respond
}

/// The steps after replies.
pub open spec fn navigation_run(step: NavigationStep, replies: Seq<NavigationReply>) -> NavigationStep
    decreases replies.len(),
{
    if replies.len() == 0 {
        step
    } else {
        navigation_next(navigation_run(step, replies.drop_last()), replies.last())
    }
}

/// How often an answer was sent.
pub open spec fn navigation_answers(step: NavigationStep, replies: Seq<NavigationReply>) -> nat
    decreases replies.len(),
{
    if replies.len() == 0 {
        0
    } else {
        navigation_answers(step, replies.drop_last()) + if navigation_run(
            step,
            replies.drop_last(),
        ) is Respond && replies.last() is Responded {
            1nat
        } else {
            0nat
        }
    }
}

/// A request to go to another entry is answered once, whatever comes of it.
pub proof fn law_navigation_is_answered_once(
    disposed: bool,
    request: NavigateTreeRequest,
    replies: Seq<NavigationReply>,
)
    ensures
        ({
            let start = navigation_start(disposed, request);
            navigation_answers(start, replies) == if navigation_waits(
                navigation_run(start, replies),
            ) {
                0nat
            } else {
                1nat
            }
        }),
    decreases replies.len(),
{
    if replies.len() > 0 {
        law_navigation_is_answered_once(disposed, request, replies.drop_last());
    }
}

/// The answer to a request for the entries of a pending replacement: all of them, or none where the
/// token is not that of the replacement or an entry could not be written.
pub fn handle_bridge_setup_entries(found: Option<Result<Vec<Json>, String>>) -> (r: BridgeResponse)
    ensures
        r == BridgeResponse::SetupEntries(
            match found {
                None => Err(BridgeFailure::StaleToken),
                Some(Ok(entries)) => Ok(entries),
                Some(Err(e)) => Err(BridgeFailure::SerializeEntries(e)),
            },
        ),
{
    BridgeResponse::SetupEntries(
        match found {
            None => Err(BridgeFailure::StaleToken),
            Some(Ok(entries)) => Ok(entries),
            Some(Err(error)) => Err(BridgeFailure::SerializeEntries(error)),
        },
    )
}

/// The answer to a request for another model, and what the listener is told. `decoded` is the model
/// of the request, or why it could not be read; `selected` what came of selecting it.
pub fn set_model_response(decoded: Result<(), String>, selected: Result<(), String>) -> (r: (
    BridgeResponse,
    Option<BridgeReport>,
))
    ensures
        r == match (decoded, selected) {
            (Err(e), _) => (BridgeResponse::SetModel(false), Some(BridgeReport::InvalidModel(e))),
            (Ok(_), Err(e)) => (
                BridgeResponse::SetModel(false),
                Some(BridgeReport::SetModelFailed(e)),
            ),
            (Ok(_), Ok(_)) => (BridgeResponse::SetModel(true), None),
        },
{
    match decoded {
        Err(error) => (BridgeResponse::SetModel(false), Some(BridgeReport::InvalidModel(error))),
        Ok(_) => match selected {
            Err(error) => (
                BridgeResponse::SetModel(false),
                Some(BridgeReport::SetModelFailed(error)),
            ),
            Ok(_) => (BridgeResponse::SetModel(true), None),
        },
    }
}

/// The answer to a request for a compaction. `result` is what came of it, and where it succeeded how
/// it is written, or why it could not be.
pub fn compact_response(result: Result<Result<Json, String>, CompactionError>) -> (r:
    BridgeResponse)
    ensures
        match result {
            Ok(Ok(value)) => r == BridgeResponse::Compact(Ok(value)),
            Ok(Err(e)) => r == BridgeResponse::Compact(Err(BridgeFailure::EncodeCompaction(e))),
            Err(error) => r matches BridgeResponse::Compact(Err(BridgeFailure::Other(m))) && m@
                == error.text(),
        },
{
    BridgeResponse::Compact(
        match result {
            Ok(Ok(value)) => Ok(value),
            Ok(Err(error)) => Err(BridgeFailure::EncodeCompaction(error)),
            Err(error) => Err(BridgeFailure::Other(error.message())),
        },
    )
}

/// What a session does with an event of the host.
#[allow(inconsistent_fields)]
#[derive(Debug, PartialEq)]
pub enum BridgeTask {
    /// The command is applied, by [`AgentSession::apply_session_command`].
    Command(SessionCommand),
    /// The model is read and selected, and [`set_model_response`] is the answer.
    SetModel { id: BridgeRequestId, request: SetModelRequest },
    /// The session is compacted, and [`compact_response`] is the answer. Other events do not wait for
    /// it, and neither for what follows.
    Compact { id: BridgeRequestId, request: CompactRequest },
    /// The session is replaced.
    Replace(BridgeReplacement),
    /// The session goes to another entry.
    Navigate(BridgeNavigation),
    /// The extensions are reloaded, from [`handle_bridge_reload`] on.
    Reload { id: BridgeRequestId },
    /// The entries of the pending replacement are read, and [`handle_bridge_setup_entries`] is the
    /// answer.
    SetupEntries { id: BridgeRequestId, request: SetupEntriesRequest },
    /// Nothing.
    Nothing,
}

/// A replacement at its beginning.
pub open spec fn replacement_begun(
    r: BridgeReplacement,
    id: BridgeRequestId,
    request: ReplacementRequest,
    busy: bool,
    has_runtime: bool,
) -> bool {
    r == BridgeReplacement {
        id,
        method: replacement_method(request),
        token: None,
        step: replacement_start(request, busy, has_runtime),
    }
}

/// What a session does with an event. Replacement controls do not belong here: the listener is told.
pub open spec fn event_applied(
    s: SessionModel,
    t: SessionModel,
    event: SessionBridgeEvent,
    busy: bool,
    has_runtime: bool,
    task: BridgeTask,
) -> bool {
    match event {
        SessionBridgeEvent::Command { envelope } => t == s && task == BridgeTask::Command(
            envelope.command,
        ),
        SessionBridgeEvent::SetModel { id, request } => t == s && task == (BridgeTask::SetModel {
            id,
            request,
        }),
        SessionBridgeEvent::Compact { id, request } => t == s && task == (BridgeTask::Compact {
            id,
            request,
        }),
        SessionBridgeEvent::NewSession { id, request } => {
            &&& t == s
            &&& task matches BridgeTask::Replace(r)
            &&& replacement_begun(
                r,
                id,
                ReplacementRequest::NewSession(request),
                busy,
                has_runtime,
            )
        },
        SessionBridgeEvent::Fork { id, request } => {
            &&& t == s
            &&& task matches BridgeTask::Replace(r)
            &&& replacement_begun(r, id, ReplacementRequest::Fork(request), busy, has_runtime)
        },
        SessionBridgeEvent::SwitchSession { id, request } => {
            &&& t == s
            &&& task matches BridgeTask::Replace(r)
            &&& replacement_begun(
                r,
                id,
                ReplacementRequest::SwitchSession(request),
                busy,
                has_runtime,
            )
        },
        SessionBridgeEvent::NavigateTree { id, request } => t == s && task == BridgeTask::Navigate(
            BridgeNavigation { id, step: navigation_start(s.lifecycle.disposed, request) },
        ),
        SessionBridgeEvent::Reload { id } => t == s && task == (BridgeTask::Reload { id }),
        SessionBridgeEvent::SetupEntries { id, request } => t == s && task
            == (BridgeTask::SetupEntries { id, request }),
        SessionBridgeEvent::ReplacementReady { .. } => task == BridgeTask::Nothing && told(
            s,
            t,
            BridgeReport::UnexpectedControl.text(),
        ),
        SessionBridgeEvent::ReplacementAbort { .. } => task == BridgeTask::Nothing && told(
            s,
            t,
            BridgeReport::UnexpectedControl.text(),
        ),
    }
}

impl AgentSession {
    /// Takes an event of the host. `busy` says whether another replacement is in progress,
    /// `has_runtime` whether there is a runtime that can replace the session.
    pub fn apply_session_bridge_event(
        &mut self,
        event: SessionBridgeEvent,
        busy: bool,
        has_runtime: bool,
    ) -> (r: BridgeTask)
        ensures
            event_applied(old(self)@, final(self)@, event, busy, has_runtime, r),
    {
        match event {
            SessionBridgeEvent::Command { envelope } => BridgeTask::Command(envelope.command),
            SessionBridgeEvent::SetModel { id, request } => BridgeTask::SetModel { id, request },
            SessionBridgeEvent::Compact { id, request } => BridgeTask::Compact { id, request },
            SessionBridgeEvent::NewSession { id, request } => BridgeTask::Replace(
                self.handle_bridge_new_session(id, request, busy, has_runtime),
            ),
            SessionBridgeEvent::Fork { id, request } => BridgeTask::Replace(
                self.handle_bridge_fork(id, request, busy, has_runtime),
            ),
            SessionBridgeEvent::SwitchSession { id, request } => BridgeTask::Replace(
                self.handle_bridge_switch_session(id, request, busy, has_runtime),
            ),
            SessionBridgeEvent::NavigateTree { id, request } => BridgeTask::Navigate(
                self.handle_bridge_navigate_tree(id, request),
            ),
            SessionBridgeEvent::Reload { id } => BridgeTask::Reload { id },
            SessionBridgeEvent::SetupEntries { id, request } => BridgeTask::SetupEntries {
                id,
                request,
            },
            SessionBridgeEvent::ReplacementReady { .. }
            | SessionBridgeEvent::ReplacementAbort { .. } => {
                self.report_bridge(&BridgeReport::UnexpectedControl);
                BridgeTask::Nothing
            },
        }
    }

    /// Begins with a request for a new session.
    pub fn handle_bridge_new_session(
        &self,
        id: BridgeRequestId,
        request: NewSessionRequest,
        busy: bool,
        has_runtime: bool,
    ) -> (r: BridgeReplacement)
        ensures
            replacement_begun(r, id, ReplacementRequest::NewSession(request), busy, has_runtime),
    {
        BridgeReplacement::begin(id, ReplacementRequest::NewSession(request), busy, has_runtime)
    }

    /// Begins with a request for a fork.
    pub fn handle_bridge_fork(
        &self,
        id: BridgeRequestId,
        request: ForkRequest,
        busy: bool,
        has_runtime: bool,
    ) -> (r: BridgeReplacement)
        ensures
            replacement_begun(r, id, ReplacementRequest::Fork(request), busy, has_runtime),
    {
        BridgeReplacement::begin(id, ReplacementRequest::Fork(request), busy, has_runtime)
    }

    /// Begins with a request for another session.
    pub fn handle_bridge_switch_session(
        &self,
        id: BridgeRequestId,
        request: SwitchSessionRequest,
        busy: bool,
        has_runtime: bool,
    ) -> (r: BridgeReplacement)
        ensures
            replacement_begun(r, id, ReplacementRequest::SwitchSession(request), busy, has_runtime),
    {
        BridgeReplacement::begin(id, ReplacementRequest::SwitchSession(request), busy, has_runtime)
    }

    /// Begins with a request to go to another entry of the tree.
    pub fn handle_bridge_navigate_tree(&self, id: BridgeRequestId, request: NavigateTreeRequest) -> (r:
        BridgeNavigation)
        ensures
            r == (BridgeNavigation { id, step: navigation_start(self@.lifecycle.disposed, request) }),
    {
        BridgeNavigation::begin(id, self.lifecycle.disposed, request)
    }
}

// ---------------------------------------------------------------------------
// What the operations promise
// ---------------------------------------------------------------------------

/// Without a session each request that waits is answered under its own id, in the form of its method:
/// that no session is there. What does not wait is not answered.
pub proof fn law_requests_without_a_session_are_answered(
    event: &SessionBridgeEvent,
    r: Option<(BridgeRequestId, BridgeResponse)>,
)
    requires
        call_ensures(answer_unclaimed_bridge_event, (event,), r),
    ensures
        *event matches SessionBridgeEvent::SetModel { id, request } ==> (r matches Some((to, resp)) && to == id && resp == BridgeResponse::SetModel(false)),
        *event matches SessionBridgeEvent::Compact { id, request } ==> (r matches Some((to, resp)) && to == id && (resp matches BridgeResponse::Compact(Err(BridgeFailure::NoActiveSession)))),
        *event matches SessionBridgeEvent::NewSession { id, request } ==> (r matches Some((to, resp)) && to == id && resp == (BridgeResponse::Failed { method: BridgeMethod::NewSession, failure: BridgeFailure::NoActiveSession })),
        *event matches SessionBridgeEvent::Fork { id, request } ==> (r matches Some((to, resp)) && to == id && resp == (BridgeResponse::Failed { method: BridgeMethod::Fork, failure: BridgeFailure::NoActiveSession })),
        *event matches SessionBridgeEvent::NavigateTree { id, request } ==> (r matches Some((to, resp)) && to == id && (resp matches BridgeResponse::NavigateTree(Err(BridgeFailure::NoActiveSession)))),
        *event matches SessionBridgeEvent::SwitchSession { id, request } ==> (r matches Some((to, resp)) && to == id && resp == (BridgeResponse::Failed { method: BridgeMethod::SwitchSession, failure: BridgeFailure::NoActiveSession })),
        *event matches SessionBridgeEvent::Reload { id } ==> (r matches Some((to, resp)) && to == id && (resp matches BridgeResponse::Reload(Err(BridgeFailure::NoActiveSession)))),
        *event matches SessionBridgeEvent::SetupEntries { id, request } ==> (r matches Some((to, resp)) && to == id && (resp matches BridgeResponse::SetupEntries(Err(BridgeFailure::NoActiveSession)))),
        *event is Command || *event is ReplacementReady || *event is ReplacementAbort ==> r is None,
{
}

/// An event goes to the session on its route, and only the active one sends its state; the controls
/// of a replacement go to the operation, and nothing else does; what is rejected is answered as
/// without a session.
pub proof fn law_events_take_their_route(
    route: SessionBridgeRoute,
    event: SessionBridgeEvent,
    answer: Option<(BridgeRequestId, BridgeResponse)>,
    r: BridgeDispatch,
)
    requires
        call_ensures(dispatch_session_bridge_route, (route, event), r),
        call_ensures(answer_unclaimed_bridge_event, (&event,), answer),
    ensures
        route == SessionBridgeRoute::Active ==> (r matches BridgeDispatch::Apply {
            event: e,
            send_state,
        } && e == event && send_state),
        route == SessionBridgeRoute::Candidate ==> (r matches BridgeDispatch::Apply {
            event: e,
            send_state,
        } && e == event && !send_state),
        route == SessionBridgeRoute::Operation ==> {
            &&& event matches SessionBridgeEvent::ReplacementReady { token: a } ==> (r
                matches BridgeDispatch::CompleteReady { token } && token == a)
            &&& event matches SessionBridgeEvent::ReplacementAbort { token: a, origin: b } ==> (r
                matches BridgeDispatch::AbortWaitingReady { token, origin } && token == a && origin
                == b)
            &&& !(event is ReplacementReady) && !(event is ReplacementAbort) ==> r
                == BridgeDispatch::Report(BridgeReport::MisroutedEvent)
        },
        route == SessionBridgeRoute::Rejected ==> {
            &&& answer matches Some((i, p)) ==> (r matches BridgeDispatch::Answer { id, response }
                && id == i && response == p)
            &&& answer is None ==> r is Nothing
        },
{
}

/// A report is told the listener where there is one, in its words, and changes nothing else.
pub proof fn law_reports_reach_the_listener(
    session: &mut AgentSession,
    report: &BridgeReport,
    words: String,
    done: (),
)
    requires
        call_ensures(AgentSession::report_bridge, (session, report), done),
        call_ensures(BridgeReport::message, (report,), words),
    ensures
        !old(session)@.bindings.has_error_listener ==> final(session)@ == old(session)@,
        old(session)@.bindings.has_error_listener ==> final(session)@.outbox.len() == old(session)@.outbox.len() + 1 && final(session)@.outbox.drop_last() == old(session)@.outbox && (
        final(session)@.outbox.last() matches Effect::ReportError(m) && m@ == words@)
            && final(session)@.agent == old(session)@.agent,
{
}

/// The words of a failure.
pub proof fn law_failures_of_requests_are_named(failure: &BridgeFailure, words: String)
    requires
        call_ensures(BridgeFailure::message, (failure,), words),
    ensures
        *failure is NoActiveSession ==> words@ == "no active session"@,
        *failure is RuntimeUnavailable ==> words@ == "session runtime is unavailable"@,
        *failure is ModelRuntimeUnavailable ==> words@ == "model runtime is unavailable"@,
        *failure is NotReloadable ==> words@ == "extension runtime is not reloadable"@,
        *failure is SessionReplaced ==> words@ == "session replaced"@,
        *failure is StaleToken ==> words@ == "stale replacement token"@,
        *failure matches BridgeFailure::SerializeEntries(e) ==> words@
            == "serialize session entries: "@ + e@,
        *failure matches BridgeFailure::EncodeCompaction(e) ==> words@
            == "encode compaction result: "@ + e@,
        *failure matches BridgeFailure::Other(m) ==> words@ == m@,
{
}

/// The words of a report: it names its method where it has one, and the failure that it is about.
pub proof fn law_reports_are_named(
    report: &BridgeReport,
    method: BridgeMethod,
    error: &ExtensionHostError,
    label: &'static str,
    name: &'static str,
    cause: String,
    words: String,
)
    requires
        call_ensures(BridgeReport::message, (report,), words),
        call_ensures(BridgeMethod::as_str, (method,), label),
        call_ensures(BridgeMethod::operation_name, (method,), name),
        call_ensures(ExtensionHostError::message, (error,), cause),
    ensures
        *report == (BridgeReport::ResponseFailed { method, error: *error }) ==> words@ == name@
            + " response: "@ + cause@,
        *report == (BridgeReport::BusyResponseFailed { method, error: *error }) ==> words@ == label@
            + " busy response: "@ + cause@,
        *report == (BridgeReport::ErrorResponseFailed { method, error: *error }) ==> words@
            == label@ + " error response: "@ + cause@,
        *report == BridgeReport::ReadyWaitEnded(method) ==> words@ == name@
            + ": replacement ready wait ended before completion"@,
        *report == BridgeReport::ReadyStateLost(method) ==> words@ == name@
            + ": replacement ready state was lost"@,
        *report == BridgeReport::WrongOperation(method) ==> words@ == name@
            + ": replacement ready state had the wrong operation"@,
        *report == BridgeReport::AlreadyConsumed(method) ==> words@ == name@
            + ": prepared replacement was already consumed"@,
        *report == BridgeReport::TargetChanged(method) ==> words@ == name@
            + ": replacement target changed before commit"@,
        *report is ReloadStateLost ==> words@ == "reload: replacement state was lost"@,
        *report is ReloadInvalidated ==> words@
            == "reload: extension runtime was invalidated before commit"@,
        *report matches BridgeReport::Diagnostic(m) ==> words@ == m@,
        *report matches BridgeReport::InvalidModel(e) ==> words@ == "setModel: invalid model: "@
            + e@,
        *report matches BridgeReport::SetModelFailed(e) ==> words@ == "setModel: "@ + e@,
        *report is UnexpectedControl ==> words@
            == "replacement control unexpectedly reached session bridge dispatch"@,
        *report is MisroutedEvent ==> words@
            == "non-replacement event unexpectedly routed as a bridge operation"@,
{
}

/// What is pending is told apart: a session that was prepared comes with its handle and why and where
/// to, a reload comes back as it is; and what is found under a token is named by what it is.
pub proof fn law_pending_operations_are_told_apart(
    op: PendingReadyOp,
    found: &Option<PendingReadyOp>,
    r: Result<PreparedReplacement, PendingReadyOp>,
    named: PendingOperation,
)
    requires
        call_ensures(pending_replacement, (op,), r),
        call_ensures(pending_operation, (found,), named),
    ensures
        op matches PendingReadyOp::Replacement { result: a, reason: b, target_session_file: c } ==> (
        r matches Ok(p) && p.result == Some(a) && p.reason == b && p.target_session_file == c),
        op is Reload ==> r == Err::<PreparedReplacement, PendingReadyOp>(op),
        *found is None <==> named == PendingOperation::Lost,
        *found matches Some(PendingReadyOp::Replacement { result, reason, target_session_file })
            ==> named == PendingOperation::Replacement,
        *found matches Some(PendingReadyOp::Reload { prepared, model_runtime }) ==> named
            == PendingOperation::Reload,
{
}

/// A request for a replacement is answered at once while another one is in progress or where there is
/// no runtime; otherwise the runtime prepares what was asked for, a fork before its entry where
/// nothing else was said.
pub proof fn law_a_replacement_begins(
    id: BridgeRequestId,
    request: ReplacementRequest,
    busy: bool,
    runtime: bool,
    r: BridgeReplacement,
)
    requires
        call_ensures(BridgeReplacement::begin, (id, request, busy, runtime), r),
    ensures
        r.id == id,
        r.token is None,
        request is NewSession ==> r.method == BridgeMethod::NewSession,
        request is Fork ==> r.method == BridgeMethod::Fork,
        request is SwitchSession ==> r.method == BridgeMethod::SwitchSession,
        busy ==> r.step == ReplacementStep::Respond(BridgeResponse::Busy(r.method)),
        !busy && !runtime ==> r.step == ReplacementStep::Respond(
            BridgeResponse::Failed {
                method: r.method,
                failure: BridgeFailure::RuntimeUnavailable,
            },
        ),
        !busy && runtime ==> (r.step matches ReplacementStep::Prepare(task) && (request
            matches ReplacementRequest::NewSession(q) ==> (task matches ReplacementTask::NewSession {
            parent_session,
        } && parent_session == q.parent_session)) && (request matches ReplacementRequest::Fork(q)
            ==> (task matches ReplacementTask::Fork { entry_id, position } && entry_id == q.entry_id
            && (q.position is Some ==> position == q.position->0) && (q.position is None ==> position
            == ForkPosition::Before))) && (request matches ReplacementRequest::SwitchSession(q) ==> (
        task matches ReplacementTask::SwitchSession { session_path } && session_path
            == q.session_path))),
{
}

/// The preparation of a replacement: what was prepared is installed and answered with its token; what
/// was cancelled, came too late or failed is answered so, under the request's method.
pub proof fn law_a_prepared_replacement_is_installed_and_answered(
    r: BridgeReplacement,
    reply: ReplacementReply,
    next: BridgeReplacement,
)
    requires
        call_ensures(BridgeReplacement::advance, (r, reply), next),
    ensures
        next.id == r.id && next.method == r.method,
        r.step is Prepare ==> {
            &&& reply == ReplacementReply::Prepared(PrepareOutcome::Cancelled) ==> (next.step
                matches ReplacementStep::Respond(
                BridgeResponse::Replacement { method, cancelled, selected_text, token },
            ) && method == r.method && cancelled && selected_text is None && token is None)
            &&& reply matches ReplacementReply::Prepared(PrepareOutcome::Prepared { selected_text: a })
                ==> (next.step matches ReplacementStep::Install { selected_text } && selected_text
                == a)
            &&& reply == ReplacementReply::Prepared(PrepareOutcome::Busy) ==> next.step
                == ReplacementStep::Respond(BridgeResponse::Busy(r.method))
            &&& reply matches ReplacementReply::Prepared(PrepareOutcome::Failed(m)) ==> next.step
                == ReplacementStep::Respond(
                BridgeResponse::Failed { method: r.method, failure: BridgeFailure::Other(m) },
            )
        },
        r.step matches ReplacementStep::Install { selected_text: a } ==> {
            &&& reply matches ReplacementReply::Installed(Some(t)) ==> next.token == Some(t) && (
            next.step matches ReplacementStep::Respond(
                BridgeResponse::Replacement { method, cancelled, selected_text, token },
            ) && method == r.method && !cancelled && selected_text == a && token == Some(t))
            &&& reply matches ReplacementReply::Installed(None) ==> next.step is AbortPrepared
        },
        r.step is AbortPrepared && reply is PreparedAborted ==> next.step
            == ReplacementStep::Respond(BridgeResponse::Busy(r.method)),
        !(r.step is Install) ==> next.token == r.token,
{
}

/// Behind its answer a replacement that was accepted waits to be ready; any other is over. An answer
/// that could not be sent is reported, and an accepted replacement is given up first.
pub proof fn law_an_answered_replacement_waits_or_is_over(
    r: BridgeReplacement,
    response: BridgeResponse,
    sent: Result<(), ExtensionHostError>,
    next: BridgeReplacement,
)
    requires
        call_ensures(BridgeReplacement::advance, (r, ReplacementReply::Responded(sent)), next),
        r.step == ReplacementStep::Respond(response),
    ensures
        ({
            let accepted = response matches BridgeResponse::Replacement {
                method,
                cancelled,
                selected_text,
                token,
            } && !cancelled;
            &&& sent is Ok && accepted ==> next.step is AwaitReady
            &&& sent is Ok && !accepted ==> next.step is Done
            &&& sent is Err && accepted ==> next.step is AbortPending
            &&& sent is Err && !accepted ==> next.step is Report
            &&& sent matches Err(e) ==> (response matches BridgeResponse::Busy(m) ==> next.step
                == ReplacementStep::Report(
                BridgeReport::BusyResponseFailed { method: m, error: e },
            ))
            &&& sent matches Err(e) ==> (response matches BridgeResponse::Failed { method, failure }
                ==> next.step == ReplacementStep::Report(
                BridgeReport::ErrorResponseFailed { method, error: e },
            ))
            &&& sent matches Err(e) ==> (response matches BridgeResponse::Replacement {
                method,
                cancelled,
                selected_text,
                token,
            } ==> (if cancelled {
                next.step == ReplacementStep::Report(
                    BridgeReport::ResponseFailed { method, error: e },
                )
            } else {
                next.step == ReplacementStep::AbortPending(
                    BridgeReport::ResponseFailed { method, error: e },
                )
            }))
        }),
{
}

/// A replacement that is ready is taken back, and finalized where it is still there, is one and was
/// not used; the new session is followed once the host committed it. Whatever else is found is
/// reported, after what is still pending was given up.
pub proof fn law_a_ready_replacement_is_finalized(
    r: BridgeReplacement,
    reply: ReplacementReply,
    next: BridgeReplacement,
)
    requires
        call_ensures(BridgeReplacement::advance, (r, reply), next),
    ensures
        r.step is AwaitReady ==> {
            &&& reply == ReplacementReply::Ready(true) ==> next.step is TakeFinalizing
            &&& reply == ReplacementReply::Ready(false) ==> next.step
                == ReplacementStep::AbortPending(BridgeReport::ReadyWaitEnded(r.method))
        },
        r.step is TakeFinalizing ==> (reply matches ReplacementReply::Taken { operation, consumed }
            ==> {
            &&& operation == PendingOperation::Lost ==> next.step == ReplacementStep::Report(
                BridgeReport::ReadyStateLost(r.method),
            )
            &&& operation == PendingOperation::Reload ==> next.step
                == ReplacementStep::FinishFinalize(BridgeReport::WrongOperation(r.method))
            &&& operation == PendingOperation::Replacement && consumed ==> next.step
                == ReplacementStep::FinishFinalize(BridgeReport::AlreadyConsumed(r.method))
            &&& operation == PendingOperation::Replacement && !consumed ==> next.step is Finalize
        }),
        r.step is Finalize ==> {
            &&& reply == ReplacementReply::Finalized(true) ==> next.step is BindMirror
            &&& reply == ReplacementReply::Finalized(false) ==> next.step
                == ReplacementStep::Report(BridgeReport::TargetChanged(r.method))
        },
        r.step is BindMirror && reply is MirrorBound ==> next.step is Done,
        r.step matches ReplacementStep::AbortPending(report) ==> (reply is PendingAborted
            ==> next.step == ReplacementStep::Report(report)),
        r.step matches ReplacementStep::FinishFinalize(report) ==> (reply is FinalizeFinished
            ==> next.step == ReplacementStep::Report(report)),
        r.step is Report && reply is Reported ==> next.step is Done,
        r.step is Done ==> next.step is Done,
{
}

/// An answer that could not be sent is reported under the method that it was to.
pub proof fn law_unsent_answers_are_reported(
    response: BridgeResponse,
    error: ExtensionHostError,
    report: BridgeReport,
)
    requires
        call_ensures(unsent_report, (response, error), report),
    ensures
        response matches BridgeResponse::Busy(m) ==> report == (BridgeReport::BusyResponseFailed {
            method: m,
            error,
        }),
        response matches BridgeResponse::Failed { method: m, failure } ==> report
            == (BridgeReport::ErrorResponseFailed { method: m, error }),
        response matches BridgeResponse::Replacement { method: m, cancelled, selected_text, token }
            ==> report == (BridgeReport::ResponseFailed { method: m, error }),
        response is SetModel ==> report == (BridgeReport::ResponseFailed {
            method: BridgeMethod::SetModel,
            error,
        }),
        response is Compact ==> report == (BridgeReport::ResponseFailed {
            method: BridgeMethod::Compact,
            error,
        }),
        response is NavigateTree ==> report == (BridgeReport::ResponseFailed {
            method: BridgeMethod::NavigateTree,
            error,
        }),
        response is Reload ==> report == (BridgeReport::ResponseFailed {
            method: BridgeMethod::Reload,
            error,
        }),
        response is SetupEntries ==> report == (BridgeReport::ResponseFailed {
            method: BridgeMethod::SetupEntries,
            error,
        }),
{
}

/// A reload of the host is refused while another replacement is in progress, where the settings could
/// not be read and where there is no model runtime, in this order; otherwise it begins.
pub proof fn law_a_reload_of_the_host_is_refused(
    busy: bool,
    settings: &Result<(), ExtensionBindError>,
    runtime: bool,
    r: Option<BridgeResponse>,
)
    requires
        call_ensures(handle_bridge_reload, (busy, settings, runtime), r),
    ensures
        r is None <==> !busy && *settings is Ok && runtime,
        busy ==> r == Some(BridgeResponse::Busy(BridgeMethod::Reload)),
        !busy ==> (*settings matches Err(e) ==> (r matches Some(
            BridgeResponse::Failed { method, failure: BridgeFailure::Other(m) },
        ) && method == BridgeMethod::Reload && m@ == e.text())),
        !busy && *settings is Ok && !runtime ==> r == Some(
            BridgeResponse::Failed {
                method: BridgeMethod::Reload,
                failure: BridgeFailure::ModelRuntimeUnavailable,
            },
        ),
{
}

/// At its end a reload of the host answers what was not answered before: why it was not accepted. What
/// failed after it was accepted is reported, behind the diagnostics of a reload that was committed.
pub proof fn law_the_end_of_a_reload_is_answered_or_reported(
    t: ReloadTransaction,
    result: Result<(), ReloadTransactionError>,
    r: (Option<BridgeResponse>, Vec<BridgeReport>),
)
    requires
        call_ensures(finish_bridge_reload, (t,), r),
        t.step == ReloadStep::Finished(result),
    ensures
        result is Ok ==> r.0 is None && r.1@.len() == t.diagnostics@.len(),
        result matches Err(ReloadTransactionError::Pre(e)) ==> {
            &&& e is Busy || e is InstallConflict ==> r.0 == Some(
                BridgeResponse::Busy(BridgeMethod::Reload),
            ) && r.1@.len() == 0
            &&& e is Unreloadable ==> r.0 == Some(
                BridgeResponse::Failed {
                    method: BridgeMethod::Reload,
                    failure: BridgeFailure::NotReloadable,
                },
            ) && r.1@.len() == 0
            &&& e matches ReloadPreAcceptError::Prepare(m) ==> r.0 == Some(
                BridgeResponse::Failed {
                    method: BridgeMethod::Reload,
                    failure: BridgeFailure::Other(m),
                },
            ) && r.1@.len() == 0
            &&& e matches ReloadPreAcceptError::Response(x) ==> r.0 is None && r.1@ == seq![
                BridgeReport::ResponseFailed { method: BridgeMethod::Reload, error: x },
            ]
        },
        result matches Err(ReloadTransactionError::Post(e)) ==> {
            &&& r.0 is None
            &&& e is ReadyLost ==> r.1@ == seq![BridgeReport::ReadyWaitEnded(BridgeMethod::Reload)]
            &&& e is StateLost ==> r.1@ == seq![BridgeReport::ReloadStateLost]
            &&& e is Invalidated ==> r.1@ == seq![BridgeReport::ReloadInvalidated]
            &&& e matches ReloadPostAcceptError::Resources(x) ==> r.1@.len()
                == t.diagnostics@.len() + 1 && r.1@.last() == BridgeReport::ReloadResources(x)
        },
        (result is Ok || (result matches Err(
            ReloadTransactionError::Post(ReloadPostAcceptError::Resources(_)),
        ))) ==> forall|k: int|
            0 <= k < t.diagnostics@.len() ==> #[trigger] r.1@[k] == BridgeReport::Diagnostic(
                t.diagnostics@[k],
            ),
{
    if let Err(ReloadTransactionError::Pre(ReloadPreAcceptError::Response(x))) = result {
        assert(r.1@ =~= seq![
            BridgeReport::ResponseFailed { method: BridgeMethod::Reload, error: x },
        ]);
    }
    if let Err(ReloadTransactionError::Post(e)) = result {
        if e is ReadyLost {
            assert(r.1@ =~= seq![BridgeReport::ReadyWaitEnded(BridgeMethod::Reload)]);
        }
        if e is StateLost {
            assert(r.1@ =~= seq![BridgeReport::ReloadStateLost]);
        }
        if e is Invalidated {
            assert(r.1@ =~= seq![BridgeReport::ReloadInvalidated]);
        }
    }
}

/// While it runs, a reload answers with its token exactly where the host asked for it and it is
/// installed.
pub proof fn law_an_accepted_reload_is_answered_with_its_token(
    t: &ReloadTransaction,
    r: Option<(BridgeRequestId, BridgeResponse)>,
)
    requires
        call_ensures(reload_accepted, (t,), r),
    ensures
        r is Some <==> t.step is Respond && t.origin is Bridge,
        r matches Some((id, response)) ==> t.origin == (ReloadOrigin::Bridge { id }) && response
            == BridgeResponse::Reload(Ok(t.token)),
{
}

/// A session that was replaced goes to no other entry; otherwise it goes there, once there is a
/// summarizer where one is asked for.
pub proof fn law_a_navigation_begins(
    id: BridgeRequestId,
    disposed: bool,
    request: NavigateTreeRequest,
    r: BridgeNavigation,
)
    requires
        call_ensures(BridgeNavigation::begin, (id, disposed, request), r),
    ensures
        r.id == id,
        disposed ==> (r.step matches NavigationStep::Respond {
            outcome: Err(BridgeFailure::SessionReplaced),
            tell,
        } && !tell),
        !disposed && request.options.summarize ==> r.step == NavigationStep::ResolveInputs(request),
        !disposed && !request.options.summarize ==> r.step == NavigationStep::Navigate(request),
{
}

/// The way to another entry: behind the summarizer the session goes there, and what came of it is
/// answered; a missing summarizer is answered too. A failure to answer what came of it is reported.
pub proof fn law_a_navigation_is_answered(
    n: BridgeNavigation,
    reply: NavigationReply,
    r: BridgeNavigation,
)
    requires
        call_ensures(BridgeNavigation::advance, (n, reply), r),
    ensures
        r.id == n.id,
        n.step matches NavigationStep::ResolveInputs(request) ==> {
            &&& reply matches NavigationReply::InputsResolved(Ok(_)) ==> r.step
                == NavigationStep::Navigate(request)
            &&& reply matches NavigationReply::InputsResolved(Err(m)) ==> (r.step
                matches NavigationStep::Respond { outcome, tell } && !tell && outcome == Err::<
                Json,
                BridgeFailure,
            >(BridgeFailure::Other(m)))
        },
        n.step is Navigate ==> {
            &&& reply matches NavigationReply::Navigated(Ok(v)) ==> (r.step
                matches NavigationStep::Respond { outcome, tell } && tell && outcome == Ok::<
                Json,
                BridgeFailure,
            >(v))
            &&& reply matches NavigationReply::Navigated(Err(m)) ==> (r.step
                matches NavigationStep::Respond { outcome, tell } && tell && outcome == Err::<
                Json,
                BridgeFailure,
            >(BridgeFailure::Other(m)))
        },
        n.step matches NavigationStep::Respond { outcome, tell } ==> {
            &&& reply matches NavigationReply::Responded(Ok(_)) ==> r.step is Done
            &&& reply matches NavigationReply::Responded(Err(e)) ==> (if tell {
                r.step == NavigationStep::Report(
                    BridgeReport::ResponseFailed { method: BridgeMethod::NavigateTree, error: e },
                )
            } else {
                r.step is Done
            })
        },
        n.step is Report && reply is Reported ==> r.step is Done,
        n.step is Done ==> r.step is Done,
{
}

/// The entries of a pending replacement are all answered, or why not: the token is another one's, or
/// an entry could not be written.
pub proof fn law_setup_entries_are_answered(
    found: Option<Result<Vec<Json>, String>>,
    r: BridgeResponse,
)
    requires
        call_ensures(handle_bridge_setup_entries, (found,), r),
    ensures
        found is None ==> (r matches BridgeResponse::SetupEntries(Err(BridgeFailure::StaleToken))),
        found matches Some(Ok(entries)) ==> r == BridgeResponse::SetupEntries(Ok(entries)),
        found matches Some(Err(e)) ==> r == BridgeResponse::SetupEntries(
            Err(BridgeFailure::SerializeEntries(e)),
        ),
{
}

/// A model is answered as selected exactly where it could be read and selected; what went wrong is
/// reported, the reading first.
pub proof fn law_a_selected_model_is_answered(
    decoded: Result<(), String>,
    selected: Result<(), String>,
    r: (BridgeResponse, Option<BridgeReport>),
)
    requires
        call_ensures(set_model_response, (decoded, selected), r),
    ensures
        r.0 == BridgeResponse::SetModel(decoded is Ok && selected is Ok),
        r.1 is None <==> decoded is Ok && selected is Ok,
        decoded matches Err(e) ==> r.1 == Some(BridgeReport::InvalidModel(e)),
        decoded is Ok ==> (selected matches Err(e) ==> r.1 == Some(BridgeReport::SetModelFailed(e))),
{
}

/// A compaction is answered with its result, or why it failed or could not be written.
pub proof fn law_a_compaction_is_answered(
    result: Result<Result<Json, String>, CompactionError>,
    r: BridgeResponse,
)
    requires
        call_ensures(compact_response, (result,), r),
    ensures
        result matches Ok(Ok(v)) ==> r == BridgeResponse::Compact(Ok(v)),
        result matches Ok(Err(e)) ==> r == BridgeResponse::Compact(
            Err(BridgeFailure::EncodeCompaction(e)),
        ),
        result matches Err(e) ==> (r matches BridgeResponse::Compact(Err(BridgeFailure::Other(m)))
            && m@ == e.text()),
{
}

/// Each event of the host becomes its own task, with what it holds; the controls of a replacement do
/// not belong to a session, and only they change anything: the listener is told.
pub proof fn law_events_become_their_tasks(
    session: &mut AgentSession,
    before: &AgentSession,
    event: SessionBridgeEvent,
    busy: bool,
    runtime: bool,
    replacement: BridgeReplacement,
    navigation: BridgeNavigation,
    task: BridgeTask,
)
    requires
        call_ensures(
            AgentSession::apply_session_bridge_event,
            (session, event, busy, runtime),
            task,
        ),
        before@ == old(session)@,
        event matches SessionBridgeEvent::NewSession { id, request } ==> call_ensures(
            AgentSession::handle_bridge_new_session,
            (before, id, request, busy, runtime),
            replacement,
        ),
        event matches SessionBridgeEvent::Fork { id, request } ==> call_ensures(
            AgentSession::handle_bridge_fork,
            (before, id, request, busy, runtime),
            replacement,
        ),
        event matches SessionBridgeEvent::SwitchSession { id, request } ==> call_ensures(
            AgentSession::handle_bridge_switch_session,
            (before, id, request, busy, runtime),
            replacement,
        ),
        event matches SessionBridgeEvent::NavigateTree { id, request } ==> call_ensures(
            AgentSession::handle_bridge_navigate_tree,
            (before, id, request),
            navigation,
        ),
    ensures
        event matches SessionBridgeEvent::Command { envelope } ==> task == BridgeTask::Command(
            envelope.command,
        ),
        event matches SessionBridgeEvent::SetModel { id: a, request: b } ==> (task
            matches BridgeTask::SetModel { id, request } && id == a && request == b),
        event matches SessionBridgeEvent::Compact { id: a, request: b } ==> (task
            matches BridgeTask::Compact { id, request } && id == a && request == b),
        event matches SessionBridgeEvent::Reload { id: a } ==> (task matches BridgeTask::Reload { id }
            && id == a),
        event matches SessionBridgeEvent::SetupEntries { id: a, request: b } ==> (task
            matches BridgeTask::SetupEntries { id, request } && id == a && request == b),
        event is NewSession || event is Fork || event is SwitchSession ==> task
            == BridgeTask::Replace(replacement),
        event is NavigateTree ==> task == BridgeTask::Navigate(navigation),
        event is ReplacementReady || event is ReplacementAbort ==> task is Nothing && (
        old(session)@.bindings.has_error_listener ==> final(session)@.outbox.len() == old(session)@.outbox.len() + 1 && final(session)@.outbox.last() is ReportError),
        !(event is ReplacementReady) && !(event is ReplacementAbort) ==> final(session)@
            == old(session)@,
{
}

/// Requests for another session begin as replacements of their kind, and a way to another entry goes
/// nowhere once the session was replaced.
pub proof fn law_requests_begin_as_their_kind(
    session: &AgentSession,
    id: BridgeRequestId,
    new: NewSessionRequest,
    fork: ForkRequest,
    switch: SwitchSessionRequest,
    way: NavigateTreeRequest,
    busy: bool,
    runtime: bool,
    a: BridgeReplacement,
    b: BridgeReplacement,
    c: BridgeReplacement,
    d: BridgeNavigation,
)
    requires
        call_ensures(
            AgentSession::handle_bridge_new_session,
            (session, id, new, busy, runtime),
            a,
        ),
        call_ensures(AgentSession::handle_bridge_fork, (session, id, fork, busy, runtime), b),
        call_ensures(
            AgentSession::handle_bridge_switch_session,
            (session, id, switch, busy, runtime),
            c,
        ),
        call_ensures(AgentSession::handle_bridge_navigate_tree, (session, id, way), d),
    ensures
        a.id == id && b.id == id && c.id == id && d.id == id,
        a.method == BridgeMethod::NewSession,
        b.method == BridgeMethod::Fork,
        c.method == BridgeMethod::SwitchSession,
        busy ==> a.step is Respond && b.step is Respond && c.step is Respond,
        !busy && !runtime ==> a.step is Respond && b.step is Respond && c.step is Respond,
        !busy && runtime ==> a.step == ReplacementStep::Prepare(
            ReplacementTask::NewSession { parent_session: new.parent_session },
        ) && c.step == ReplacementStep::Prepare(
            ReplacementTask::SwitchSession { session_path: switch.session_path },
        ) && (b.step matches ReplacementStep::Prepare(ReplacementTask::Fork { entry_id, position })
            && entry_id == fork.entry_id),
        session@.lifecycle.disposed ==> (d.step matches NavigationStep::Respond {
            outcome: Err(BridgeFailure::SessionReplaced),
            tell,
        }),
        !session@.lifecycle.disposed ==> d.step is ResolveInputs || d.step is Navigate,
{
}

} // verus!
