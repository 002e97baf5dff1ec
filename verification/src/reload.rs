//! The reload of extensions.
//!
//! A reload with an extension host is a transaction: a replacement is prepared and installed under a
//! token, the old extensions are told to shut down, the replacement is committed, and then the new
//! extensions are told of the start. What the host does is asked for by the steps of
//! [`ReloadTransaction`]; whatever a transaction ends with, the caller gives its token back to the
//! host.

use crate::bridge_types::{BridgeRequestId, ExtensionHostError};
use crate::events::{
    AgentSessionEvent, SessionShutdownReason, SessionStartReason,
};
use crate::extension::ExtensionBindError;
use crate::messages::Model;
use crate::model;
use crate::session::{AgentSession, Effect, SessionLifecycle, SessionModel};
use crate::text;
use vstd::prelude::*;

verus! {

/// Who asked for a reload.
#[derive(Clone, Copy, Debug, PartialEq, Eq, Structural)]
pub enum ReloadOrigin {
    /// The session's own caller.
    Direct,
    /// The extension host, which waits for an answer.
    Bridge { id: BridgeRequestId },
}

/// Why a reload failed before it was accepted.
#[derive(Debug, PartialEq)]
pub enum ReloadPreAcceptError {
    /// Another replacement is in progress.
    Busy,
    /// The extension runtime cannot be reloaded.
    Unreloadable,
    /// The replacement could not be prepared.
    Prepare(String),
    /// Another replacement was installed meanwhile.
    InstallConflict,
    /// The host could not be answered.
    Response(ExtensionHostError),
}

/// Why a reload failed after it was accepted.
#[derive(Debug, PartialEq)]
pub enum ReloadPostAcceptError {
    /// The replacement was given up before it was ready.
    ReadyLost,
    /// The installed replacement is no longer there.
    StateLost,
    /// The extension runtime was invalidated.
    Invalidated,
    /// The resources could not be taken.
    Resources(ExtensionBindError),
}

/// Why a reload failed.
#[derive(Debug, PartialEq)]
pub enum ReloadTransactionError {
    Pre(ReloadPreAcceptError),
    Post(ReloadPostAcceptError),
}

/// What is to be done next for a reload.
#[derive(Debug, PartialEq)]
pub enum ReloadStep {
    /// The host prepares a replacement with the present flag values.
    Prepare,
    /// The replacement is installed under a new token, and other reloads may go on.
    Install,
    /// The host is told that the replacement is ready.
    CompleteReady,
    /// The host is answered with the token.
    Respond,
    /// The replacement is waited for to be ready.
    AwaitReady,
    /// The installed replacement is taken back.
    TakeFinalizing,
    /// The replacement is committed.
    Commit,
    /// The tools are collected anew, and the current model is looked up.
    RefreshTools,
    /// The new host is sent the state of the session.
    Hydrate,
    /// The resources of extensions are taken, as after a reload.
    ExtendResources,
    /// The reload is over, and the token is given back.
    Finished(Result<(), ReloadTransactionError>),
}

/// What was found under a token.
#[derive(Clone, Copy, Debug, PartialEq, Eq, Structural)]
pub enum PendingOperation {
    /// Nothing.
    Lost,
    /// The replacement of a session.
    Replacement,
    /// A reload.
    Reload,
}

/// What came of a step.
#[derive(Debug, PartialEq)]
pub enum ReloadReply {
    Prepared(Result<(), String>),
    /// The token, none where another replacement was installed before.
    Installed(Option<String>),
    ReadyCompleted(bool),
    Responded(Result<(), ExtensionHostError>),
    Ready(bool),
    Taken(PendingOperation),
    Committed { committed: bool, diagnostics: Vec<String> },
    /// The current model as the runtime now has it, where it has it and it has changed.
    ToolsRefreshed(Option<Model>),
    Hydrated,
    ResourcesExtended(Result<(), ExtensionBindError>),
}

/// A reload in progress.
#[derive(Debug, PartialEq)]
pub struct ReloadTransaction {
    pub origin: ReloadOrigin,
    /// The token of the installed replacement.
    pub token: Option<String>,
    /// What the commit reported.
    pub diagnostics: Vec<String>,
    pub step: ReloadStep,
}

/// A step that ends a reload before it was accepted.
pub open spec fn refused(error: ReloadPreAcceptError) -> ReloadStep {
    ReloadStep::Finished(Err(ReloadTransactionError::Pre(error)))
}

/// A step that ends a reload after it was accepted.
pub open spec fn failed(error: ReloadPostAcceptError) -> ReloadStep {
    ReloadStep::Finished(Err(ReloadTransactionError::Post(error)))
}

/// The step that follows a reply.
pub open spec fn next_step(origin: ReloadOrigin, reply: ReloadReply) -> ReloadStep {
    match reply {
        ReloadReply::Prepared(Ok(_)) => ReloadStep::Install,
        ReloadReply::Prepared(Err(m)) => refused(ReloadPreAcceptError::Prepare(m)),
        ReloadReply::Installed(Some(_)) => match origin {
            ReloadOrigin::Direct => ReloadStep::CompleteReady,
            ReloadOrigin::Bridge { .. } => ReloadStep::Respond,
        },
        ReloadReply::Installed(None) => refused(ReloadPreAcceptError::InstallConflict),
        ReloadReply::ReadyCompleted(done) => if done {
            ReloadStep::AwaitReady
        } else {
            failed(ReloadPostAcceptError::Invalidated)
        },
        ReloadReply::Responded(Ok(_)) => ReloadStep::AwaitReady,
        ReloadReply::Responded(Err(e)) => refused(ReloadPreAcceptError::Response(e)),
        ReloadReply::Ready(ready) => if ready {
            ReloadStep::TakeFinalizing
        } else {
            failed(ReloadPostAcceptError::ReadyLost)
        },
        ReloadReply::Taken(operation) => if operation == PendingOperation::Reload {
            ReloadStep::Commit
        } else {
            failed(ReloadPostAcceptError::StateLost)
        },
        ReloadReply::Committed { committed, .. } => if committed {
            ReloadStep::RefreshTools
        } else {
            failed(ReloadPostAcceptError::Invalidated)
        },
        ReloadReply::ToolsRefreshed(_) => ReloadStep::Hydrate,
        ReloadReply::Hydrated => ReloadStep::ExtendResources,
        ReloadReply::ResourcesExtended(Ok(_)) => ReloadStep::Finished(Ok(())),
        ReloadReply::ResourcesExtended(Err(e)) => failed(ReloadPostAcceptError::Resources(e)),
    }
}

/// Whether a reply is one to this step.
pub open spec fn answers(step: ReloadStep, reply: ReloadReply) -> bool {
    match reply {
        ReloadReply::Prepared(_) => step is Prepare,
        ReloadReply::Installed(_) => step is Install,
        ReloadReply::ReadyCompleted(_) => step is CompleteReady,
        ReloadReply::Responded(_) => step is Respond,
        ReloadReply::Ready(_) => step is AwaitReady,
        ReloadReply::Taken(_) => step is TakeFinalizing,
        ReloadReply::Committed { .. } => step is Commit,
        ReloadReply::ToolsRefreshed(_) => step is RefreshTools,
        ReloadReply::Hydrated => step is Hydrate,
        ReloadReply::ResourcesExtended(_) => step is ExtendResources,
    }
}

/// A transaction after a reply. A reply that is not one to the step changes nothing.
pub open spec fn reload_next(t: ReloadTransaction, reply: ReloadReply) -> ReloadTransaction {
    if !answers(t.step, reply) {
        t
    } else {
        ReloadTransaction {
            origin: t.origin,
            token: match reply {
                ReloadReply::Installed(Some(token)) => Some(token),
                _ => t.token,
            },
            diagnostics: match reply {
                ReloadReply::Committed { diagnostics, .. } => diagnostics,
                _ => t.diagnostics,
            },
            step: next_step(t.origin, reply),
        }
    }
}

/// The old extensions are told to shut down.
pub open spec fn shutdown_for_reload() -> Effect {
    Effect::ToExtensions(
        AgentSessionEvent::SessionShutdown {
            reason: SessionShutdownReason::Reload,
            target_session_file: None,
        },
    )
}

/// The new extensions are told of the start.
pub open spec fn start_for_reload() -> Effect {
    Effect::ToExtensions(
        AgentSessionEvent::SessionStart {
            reason: SessionStartReason::Reload,
            previous_session_file: None,
        },
    )
}

/// The session after a reply to the step. The old extensions are told once the replacement is
/// installed; where the host asked, once it is ready. The new ones are told once they know the
/// session.
pub open spec fn reload_told(
    s: SessionModel,
    origin: ReloadOrigin,
    reply: ReloadReply,
) -> SessionModel {
    match reply {
        ReloadReply::Installed(Some(_)) => if origin == ReloadOrigin::Direct {
            s.put(shutdown_for_reload())
        } else {
            s
        },
        ReloadReply::Ready(true) => if origin == ReloadOrigin::Direct {
            s
        } else {
            s.put(shutdown_for_reload())
        },
        ReloadReply::ToolsRefreshed(Some(model)) => model::with_model(s, model),
        ReloadReply::Hydrated => s.put(start_for_reload()),
        _ => s,
    }
}

/// The session after a transaction reached a step: at its end the host gives up what is still
/// pending under its token.
pub open spec fn released(s: SessionModel, t: ReloadTransaction) -> SessionModel {
    match (t.step, t.token) {
        (ReloadStep::Finished(_), Some(token)) => s.put(Effect::AbortPending(token)),
        _ => s,
    }
}

/// The session after a reply.
pub open spec fn reload_session(
    s: SessionModel,
    t: ReloadTransaction,
    reply: ReloadReply,
) -> SessionModel {
    if !answers(t.step, reply) {
        s
    } else {
        released(reload_told(s, t.origin, reply), reload_next(t, reply))
    }
}

/// What a reload starts with: it is refused while another replacement is in progress, and where the
/// runtime cannot be reloaded.
pub open spec fn reload_start(busy: bool, can_reload: bool) -> ReloadStep {
    if busy {
        refused(ReloadPreAcceptError::Busy)
    } else if !can_reload {
        refused(ReloadPreAcceptError::Unreloadable)
    } else {
        ReloadStep::Prepare
    }
}

/// How a reload of the session is to be done.
#[derive(Debug, PartialEq)]
pub enum ReloadPlan {
    /// By a transaction with the host.
    Transaction,
    /// Not at all.
    Refused(ExtensionBindError),
    /// The extensions were told; their resources are taken, as after a reload.
    ExtendResources,
}

/// The session after a reload without a transaction: the extensions are told of the end, a host that
/// cannot register its providers again is taken off, and whatever extensions are left are told of
/// the start.
pub open spec fn reloaded_without_runtime(s: SessionModel) -> SessionModel {
    let told = s.put(shutdown_for_reload());
    let detached = if s.lifecycle.host_attached {
        SessionModel {
            lifecycle: SessionLifecycle { host_attached: false, ..s.lifecycle },
            ..told
        }.put(Effect::ShutDownHost).put(Effect::DetachRunner)
    } else {
        told
    };
    detached.put(start_for_reload())
}

/// Whether a plan refuses with this text.
pub open spec fn refuses_restart(plan: ReloadPlan, message: Seq<char>) -> bool {
    plan matches ReloadPlan::Refused(ExtensionBindError::HostRestart(m)) && m@ == message
}

/// What a direct reload comes to.
pub open spec fn direct_text(error: ReloadTransactionError) -> Option<Seq<char>> {
    match error {
        ReloadTransactionError::Pre(ReloadPreAcceptError::Busy) => Some(
            "session replacement in progress"@,
        ),
        ReloadTransactionError::Pre(ReloadPreAcceptError::InstallConflict) => Some(
            "session replacement in progress"@,
        ),
        ReloadTransactionError::Pre(ReloadPreAcceptError::Unreloadable) => Some(
            "extension runtime is not reloadable"@,
        ),
        ReloadTransactionError::Pre(ReloadPreAcceptError::Prepare(m)) => Some(m@),
        ReloadTransactionError::Pre(ReloadPreAcceptError::Response(e)) => Some(e.text()),
        ReloadTransactionError::Post(ReloadPostAcceptError::Resources(_)) => None,
        ReloadTransactionError::Post(_) => Some(
            "extension runtime was invalidated during reload"@,
        ),
    }
}

/// What the caller of a direct reload gets: the diagnostics, or the failure.
pub fn direct_reload_result(t: ReloadTransaction) -> (r: Result<Vec<String>, ExtensionBindError>)
    requires
        t.step is Finished,
    ensures
        match t.step {
            ReloadStep::Finished(Ok(_)) => r == Ok::<Vec<String>, ExtensionBindError>(
                t.diagnostics,
            ),
            ReloadStep::Finished(Err(error)) => match direct_text(error) {
                Some(text) => r matches Err(ExtensionBindError::HostRestart(m)) && m@ == text,
                None => error matches ReloadTransactionError::Post(
                    ReloadPostAcceptError::Resources(e),
                ) && r == Err::<Vec<String>, ExtensionBindError>(e),
            },
            _ => true,
        },
{
    let error = match t.step {
        ReloadStep::Finished(Ok(_)) => return Ok(t.diagnostics),
        ReloadStep::Finished(Err(error)) => error,
        _ => return Ok(t.diagnostics),
    };
    let message = match error {
        ReloadTransactionError::Pre(ReloadPreAcceptError::Busy)
        | ReloadTransactionError::Pre(ReloadPreAcceptError::InstallConflict) =>
            "session replacement in progress".to_owned(),
        ReloadTransactionError::Pre(ReloadPreAcceptError::Unreloadable) =>
            "extension runtime is not reloadable".to_owned(),
        ReloadTransactionError::Pre(ReloadPreAcceptError::Prepare(message)) => message,
        ReloadTransactionError::Pre(ReloadPreAcceptError::Response(error)) => error.message(),
        ReloadTransactionError::Post(ReloadPostAcceptError::Resources(error)) => {
            return Err(error);
        },
        ReloadTransactionError::Post(_) =>
            "extension runtime was invalidated during reload".to_owned(),
    };
    Err(ExtensionBindError::HostRestart(message))
}

impl AgentSession {
    /// Begins a reload for the session's own caller, once the settings were read again. `has_runtime`
    /// says whether there is a model runtime, `can_reload` whether the attached host can be reloaded.
    pub fn reload(
        &mut self,
        settings: Result<(), String>,
        has_runtime: bool,
        can_reload: bool,
    ) -> (r: ReloadPlan)
        ensures
            ({
                let s = old(self)@;
                let t = final(self)@;
                match settings {
                    Err(m) => r == ReloadPlan::Refused(ExtensionBindError::SettingsReload(m))
                        && t == s,
                    Ok(_) => if s.lifecycle.host_attached && has_runtime {
                        r == ReloadPlan::Transaction && t == s
                    } else if s.lifecycle.host_attached && !can_reload {
                        refuses_restart(r, "extension runtime is not reloadable"@) && t == s
                    } else {
                        r == ReloadPlan::ExtendResources && t == reloaded_without_runtime(s)
                    },
                }
            }),
    {
        if let Err(message) = settings {
            return ReloadPlan::Refused(ExtensionBindError::SettingsReload(message));
        }
        if self.lifecycle.host_attached && has_runtime {
            return ReloadPlan::Transaction;
        }
        if self.lifecycle.host_attached && !can_reload {
            return ReloadPlan::Refused(
                ExtensionBindError::HostRestart("extension runtime is not reloadable".to_owned()),
            );
        }
        self.tell_reload_shutdown();
        if self.lifecycle.host_attached {
            self.outbox.push(Effect::ShutDownHost);
            self.lifecycle.host_attached = false;
            self.outbox.push(Effect::DetachRunner);
        }
        self.emit_session_start_reload();
        ReloadPlan::ExtendResources
    }

    fn tell_reload_shutdown(&mut self)
        ensures
            final(self)@ == old(self)@.put(shutdown_for_reload()),
    {
        self.outbox.push(
            Effect::ToExtensions(
                AgentSessionEvent::SessionShutdown {
                    reason: SessionShutdownReason::Reload,
                    target_session_file: None,
                },
            ),
        );
    }

    fn emit_session_start_reload(&mut self)
        ensures
            final(self)@ == old(self)@.put(start_for_reload()),
    {
        self.outbox.push(
            Effect::ToExtensions(
                AgentSessionEvent::SessionStart {
                    reason: SessionStartReason::Reload,
                    previous_session_file: None,
                },
            ),
        );
    }

    /// Begins a reload by a transaction with the host, under the host's reload lock.
    pub fn reload_host_transaction(origin: ReloadOrigin, busy: bool, can_reload: bool) -> (r:
        ReloadTransaction)
        ensures
            r.origin == origin,
            r.token is None,
            r.diagnostics@.len() == 0,
            r.step == reload_start(busy, can_reload),
    {
        let step = if busy {
            ReloadStep::Finished(Err(ReloadTransactionError::Pre(ReloadPreAcceptError::Busy)))
        } else if !can_reload {
            ReloadStep::Finished(
                Err(ReloadTransactionError::Pre(ReloadPreAcceptError::Unreloadable)),
            )
        } else {
            ReloadStep::Prepare
        };
        ReloadTransaction { origin, token: None, diagnostics: Vec::new(), step }
    }

    /// Goes on with a reload after a step.
    pub fn advance_reload(&mut self, transaction: ReloadTransaction, reply: ReloadReply) -> (r:
        ReloadTransaction)
        ensures
            r == reload_next(transaction, reply),
            final(self)@ == reload_session(old(self)@, transaction, reply),
    {
        if !answers_step(&transaction.step, &reply) {
            return transaction;
        }
        let next = self.take_reload_reply(transaction, reply);
        self.release_reload(&next);
        next
    }

    fn take_reload_reply(&mut self, transaction: ReloadTransaction, reply: ReloadReply) -> (r:
        ReloadTransaction)
        requires
            answers(transaction.step, reply),
        ensures
            r == reload_next(transaction, reply),
            final(self)@ == reload_told(old(self)@, transaction.origin, reply),
    {
        let ReloadTransaction { origin, token, diagnostics, step: _ } = transaction;
        match reply {
            ReloadReply::Installed(Some(token)) => {
                let step = self.dispatch_reload_origin(origin);
                ReloadTransaction { origin, token: Some(token), diagnostics, step }
            },
            ReloadReply::Committed { committed, diagnostics } => {
                let step = if committed {
                    ReloadStep::RefreshTools
                } else {
                    ReloadStep::Finished(
                        Err(ReloadTransactionError::Post(ReloadPostAcceptError::Invalidated)),
                    )
                };
                ReloadTransaction { origin, token, diagnostics, step }
            },
            ReloadReply::Ready(true) => {
                if let ReloadOrigin::Bridge { .. } = origin {
                    self.tell_reload_shutdown();
                }
                ReloadTransaction { origin, token, diagnostics, step: ReloadStep::TakeFinalizing }
            },
            ReloadReply::ToolsRefreshed(refreshed) => {
                self.refresh_selected_model_from_runtime(refreshed);
                ReloadTransaction { origin, token, diagnostics, step: ReloadStep::Hydrate }
            },
            ReloadReply::Hydrated => {
                self.emit_session_start_reload();
                ReloadTransaction { origin, token, diagnostics, step: ReloadStep::ExtendResources }
            },
            other => {
                let step = plain_step(other);
                ReloadTransaction { origin, token, diagnostics, step }
            },
        }
    }

    /// At the end of a transaction the host gives up what is still pending under its token.
    fn release_reload(&mut self, transaction: &ReloadTransaction)
        ensures
            final(self)@ == released(old(self)@, *transaction),
    {
        if let (ReloadStep::Finished(_), Some(token)) = (&transaction.step, &transaction.token) {
            self.outbox.push(Effect::AbortPending(token.clone()));
        }
    }

    /// Goes on once the replacement is installed: a direct reload tells the old extensions and
    /// declares the replacement ready, one of the host is answered.
    fn dispatch_reload_origin(&mut self, origin: ReloadOrigin) -> (r: ReloadStep)
        ensures
            final(self)@ == if origin == ReloadOrigin::Direct {
                old(self)@.put(shutdown_for_reload())
            } else {
                old(self)@
            },
            r == if origin == ReloadOrigin::Direct {
                ReloadStep::CompleteReady
            } else {
                ReloadStep::Respond
            },
    {
        match origin {
            ReloadOrigin::Direct => {
                self.tell_reload_shutdown();
                ReloadStep::CompleteReady
            },
            ReloadOrigin::Bridge { .. } => ReloadStep::Respond,
        }
    }
}

/// The step that follows a reply which changes nothing else.
fn plain_step(reply: ReloadReply) -> (r: ReloadStep)
    requires
        !(reply matches ReloadReply::Installed(Some(_))),
    ensures
        forall|origin: ReloadOrigin| r == #[trigger] next_step(origin, reply),
{
    match reply {
        ReloadReply::Prepared(Ok(_)) => ReloadStep::Install,
        ReloadReply::Prepared(Err(message)) => ReloadStep::Finished(
            Err(ReloadTransactionError::Pre(ReloadPreAcceptError::Prepare(message))),
        ),
        ReloadReply::Installed(_) => ReloadStep::Finished(
            Err(ReloadTransactionError::Pre(ReloadPreAcceptError::InstallConflict)),
        ),
        ReloadReply::ReadyCompleted(true) | ReloadReply::Responded(Ok(_)) => ReloadStep::AwaitReady,
        ReloadReply::ReadyCompleted(false) => ReloadStep::Finished(
            Err(ReloadTransactionError::Post(ReloadPostAcceptError::Invalidated)),
        ),
        ReloadReply::Responded(Err(error)) => ReloadStep::Finished(
            Err(ReloadTransactionError::Pre(ReloadPreAcceptError::Response(error))),
        ),
        ReloadReply::Ready(true) => ReloadStep::TakeFinalizing,
        ReloadReply::Ready(false) => ReloadStep::Finished(
            Err(ReloadTransactionError::Post(ReloadPostAcceptError::ReadyLost)),
        ),
        ReloadReply::Taken(PendingOperation::Reload) => ReloadStep::Commit,
        ReloadReply::Taken(_) => ReloadStep::Finished(
            Err(ReloadTransactionError::Post(ReloadPostAcceptError::StateLost)),
        ),
        ReloadReply::Committed { committed: true, .. } => ReloadStep::RefreshTools,
        ReloadReply::Committed { committed: false, .. } => ReloadStep::Finished(
            Err(ReloadTransactionError::Post(ReloadPostAcceptError::Invalidated)),
        ),
        ReloadReply::ToolsRefreshed(_) => ReloadStep::Hydrate,
        ReloadReply::Hydrated => ReloadStep::ExtendResources,
        ReloadReply::ResourcesExtended(Ok(_)) => ReloadStep::Finished(Ok(())),
        ReloadReply::ResourcesExtended(Err(error)) => ReloadStep::Finished(
            Err(ReloadTransactionError::Post(ReloadPostAcceptError::Resources(error))),
        ),
    }
}

/// Whether a reply is one to this step.
fn answers_step(step: &ReloadStep, reply: &ReloadReply) -> (r: bool)
    ensures
        r == answers(*step, *reply),
{
    match (step, reply) {
        (ReloadStep::Prepare, ReloadReply::Prepared(_))
        | (ReloadStep::Install, ReloadReply::Installed(_))
        | (ReloadStep::CompleteReady, ReloadReply::ReadyCompleted(_))
        | (ReloadStep::Respond, ReloadReply::Responded(_))
        | (ReloadStep::AwaitReady, ReloadReply::Ready(_))
        | (ReloadStep::TakeFinalizing, ReloadReply::Taken(_))
        | (ReloadStep::Commit, ReloadReply::Committed { .. })
        | (ReloadStep::RefreshTools, ReloadReply::ToolsRefreshed(_))
        | (ReloadStep::Hydrate, ReloadReply::Hydrated)
        | (ReloadStep::ExtendResources, ReloadReply::ResourcesExtended(_)) => true,
        _ => false,
    }
}

/// How many steps may follow.
pub open spec fn steps_left(step: ReloadStep) -> nat {
    match step {
        ReloadStep::Prepare => 9,
        ReloadStep::Install => 8,
        ReloadStep::CompleteReady => 7,
        ReloadStep::Respond => 7,
        ReloadStep::AwaitReady => 6,
        ReloadStep::TakeFinalizing => 5,
        ReloadStep::Commit => 4,
        ReloadStep::RefreshTools => 3,
        ReloadStep::Hydrate => 2,
        ReloadStep::ExtendResources => 1,
        ReloadStep::Finished(_) => 0,
    }
}

/// Every reply to a step leads on, and any other changes nothing: a reload comes to an end, and
/// once over it stays over.
pub proof fn law_reload_moves_forward(s: SessionModel, t: ReloadTransaction, reply: ReloadReply)
    ensures
        answers(t.step, reply) ==> steps_left(reload_next(t, reply).step) < steps_left(t.step),
        !answers(t.step, reply) ==> reload_next(t, reply) == t && reload_session(s, t, reply) == s,
        t.step is Finished ==> !answers(t.step, reply),
{
}

/// A session and a transaction after replies.
pub open spec fn reload_run(
    s: SessionModel,
    t: ReloadTransaction,
    replies: Seq<ReloadReply>,
) -> (SessionModel, ReloadTransaction)
    decreases replies.len(),
{
    if replies.len() == 0 {
        (s, t)
    } else {
        let before = reload_run(s, t, replies.drop_last());
        (
            reload_session(before.0, before.1, replies.last()),
            reload_next(before.1, replies.last()),
        )
    }
}

/// How often the effect stands in the outbox.
pub open spec fn times(outbox: Seq<Effect>, effect: Effect) -> nat
    decreases outbox.len(),
{
    if outbox.len() == 0 {
        0
    } else {
        times(outbox.drop_last(), effect) + if outbox.last() == effect {
            1nat
        } else {
            0nat
        }
    }
}

/// How often the host was told to give up what is pending.
pub open spec fn releases(outbox: Seq<Effect>) -> nat
    decreases outbox.len(),
{
    if outbox.len() == 0 {
        0
    } else {
        releases(outbox.drop_last()) + if outbox.last() is AbortPending {
            1nat
        } else {
            0nat
        }
    }
}

proof fn lemma_times(s: SessionModel, effect: Effect, other: Effect)
    ensures
        times(s.put(other).outbox, effect) == times(s.outbox, effect) + if effect == other {
            1nat
        } else {
            0nat
        },
        releases(s.put(other).outbox) == releases(s.outbox) + if other is AbortPending {
            1nat
        } else {
            0nat
        },
{
    assert(s.put(other).outbox.drop_last() =~= s.outbox);
}

/// Whether the old extensions have been told at this step, for a transaction that has not failed.
pub open spec fn shutdown_due(origin: ReloadOrigin, step: ReloadStep) -> bool {
    if origin == ReloadOrigin::Direct {
        steps_left(step) <= 7
    } else {
        steps_left(step) <= 5
    }
}

/// In a reload the old extensions are told of the shutdown once and the new ones of the start once,
/// and only after the shutdown; a reload that is not accepted tells neither.
pub proof fn law_reload_tells_each_once(
    s: SessionModel,
    t: ReloadTransaction,
    replies: Seq<ReloadReply>,
)
    requires
        t.step == ReloadStep::Prepare,
    ensures
        ({
            let (session, after) = reload_run(s, t, replies);
            let shutdowns = times(session.outbox, shutdown_for_reload()) - times(
                s.outbox,
                shutdown_for_reload(),
            );
            let starts = times(session.outbox, start_for_reload()) - times(
                s.outbox,
                start_for_reload(),
            );
            let ended_early = after.step matches ReloadStep::Finished(Err(_));
            &&& after.origin == t.origin
            &&& 0 <= starts <= shutdowns <= 1
            &&& !ended_early ==> shutdowns == if shutdown_due(t.origin, after.step) {
                1int
            } else {
                0
            }
            &&& !ended_early ==> starts == if steps_left(after.step) <= 1 {
                1int
            } else {
                0
            }
            &&& after.step matches ReloadStep::Finished(
                Err(ReloadTransactionError::Pre(_)),
            ) ==> shutdowns == 0
            &&& after.step is CompleteReady ==> t.origin == ReloadOrigin::Direct
            &&& after.step is Respond ==> t.origin != ReloadOrigin::Direct
        }),
    decreases replies.len(),
{
    if replies.len() > 0 {
        let (session, before) = reload_run(s, t, replies.drop_last());
        let reply = replies.last();
        law_reload_tells_each_once(s, t, replies.drop_last());
        lemma_times(session, shutdown_for_reload(), start_for_reload());
        lemma_times(session, shutdown_for_reload(), shutdown_for_reload());
        lemma_times(session, start_for_reload(), shutdown_for_reload());
        lemma_times(session, start_for_reload(), start_for_reload());
        let after = reload_next(before, reply);
        if let Some(token) = after.token {
            let told = reload_told(session, before.origin, reply);
            lemma_times(told, shutdown_for_reload(), Effect::AbortPending(token));
            lemma_times(told, start_for_reload(), Effect::AbortPending(token));
        }
    }
}

/// Until the replacement is installed a reload leaves the session as it is. From then on its token
/// is kept, and once the reload is over, however it ended, the host is told once to give up what is
/// pending under that token: a reload that fails leaves nothing behind.
pub proof fn law_reload_leaves_nothing_pending(
    s: SessionModel,
    t: ReloadTransaction,
    replies: Seq<ReloadReply>,
)
    requires
        t.step == ReloadStep::Prepare,
        t.token is None,
    ensures
        ({
            let (session, after) = reload_run(s, t, replies);
            let over = after.step is Finished;
            &&& after.token is None ==> session == s && (over || steps_left(after.step) >= 8)
            &&& after.token is Some ==> over || steps_left(after.step) <= 7
            &&& releases(session.outbox) == releases(s.outbox) + if over && after.token is Some {
                1nat
            } else {
                0nat
            }
            &&& over && after.token is Some ==> session.outbox.len() > 0 && session.outbox.last()
                == Effect::AbortPending(after.token->Some_0)
        }),
    decreases replies.len(),
{
    if replies.len() > 0 {
        let (session, before) = reload_run(s, t, replies.drop_last());
        let reply = replies.last();
        law_reload_leaves_nothing_pending(s, t, replies.drop_last());
        lemma_times(session, shutdown_for_reload(), start_for_reload());
        lemma_times(session, shutdown_for_reload(), shutdown_for_reload());
        if let Some(token) = reload_next(before, reply).token {
            let told = reload_told(session, before.origin, reply);
            lemma_times(told, shutdown_for_reload(), Effect::AbortPending(token));
        }
    }
}

// ---------------------------------------------------------------------------
// What the operations promise
// ---------------------------------------------------------------------------

/// A reload of the session itself: settings that could not be read refuse it, and so does a host that
/// cannot be reloaded; with a host and a runtime it is a transaction; otherwise the extensions are
/// told of the end, a host is let go in between, and of the start last.
pub proof fn law_a_direct_reload_is_planned(
    session: &mut AgentSession,
    settings: Result<(), String>,
    runtime: bool,
    can_reload: bool,
    plan: ReloadPlan,
)
    requires
        call_ensures(AgentSession::reload, (session, settings, runtime, can_reload), plan),
    ensures
        settings matches Err(m) ==> plan == ReloadPlan::Refused(
            ExtensionBindError::SettingsReload(m),
        ) && final(session)@ == old(session)@,
        settings is Ok && old(session)@.lifecycle.host_attached && runtime ==> plan is Transaction
            && final(session)@ == old(session)@,
        settings is Ok && old(session)@.lifecycle.host_attached && !runtime && !can_reload ==> (plan
            matches ReloadPlan::Refused(ExtensionBindError::HostRestart(m)) && m@
            == "extension runtime is not reloadable"@) && final(session)@ == old(session)@,
        settings is Ok && (!old(session)@.lifecycle.host_attached || !runtime && can_reload) ==> {
            let end = Effect::ToExtensions(
                AgentSessionEvent::SessionShutdown {
                    reason: SessionShutdownReason::Reload,
                    target_session_file: None,
                },
            );
            let start = Effect::ToExtensions(
                AgentSessionEvent::SessionStart {
                    reason: SessionStartReason::Reload,
                    previous_session_file: None,
                },
            );
            &&& plan is ExtendResources
            &&& !final(session)@.lifecycle.host_attached
            &&& !old(session)@.lifecycle.host_attached ==> final(session)@.outbox == old(session)@.outbox.push(end).push(start)
            &&& old(session)@.lifecycle.host_attached ==> final(session)@.outbox == old(session)@.outbox.push(end).push(Effect::ShutDownHost).push(Effect::DetachRunner).push(start)
            &&& final(session)@.agent == old(session)@.agent
        },
{
}

/// A transaction begins unless another replacement is in progress or the host cannot be reloaded.
pub proof fn law_a_transaction_begins_where_it_can(
    origin: ReloadOrigin,
    busy: bool,
    can_reload: bool,
    t: ReloadTransaction,
)
    requires
        call_ensures(
            AgentSession::reload_host_transaction,
            (origin, busy, can_reload),
            t,
        ),
    ensures
        t.origin == origin,
        t.token is None,
        t.diagnostics@.len() == 0,
        busy ==> (t.step matches ReloadStep::Finished(
            Err(ReloadTransactionError::Pre(ReloadPreAcceptError::Busy)),
        )),
        !busy && !can_reload ==> (t.step matches ReloadStep::Finished(
            Err(ReloadTransactionError::Pre(ReloadPreAcceptError::Unreloadable)),
        )),
        !busy && can_reload ==> t.step is Prepare,
{
}

/// Up to its acceptance: what was prepared is installed under its token; then a direct reload is
/// declared ready and one of the host is answered. Whatever fails until then refuses the reload.
pub proof fn law_a_reload_is_accepted_once_it_is_installed(
    session: &mut AgentSession,
    t: ReloadTransaction,
    reply: ReloadReply,
    r: ReloadTransaction,
)
    requires
        call_ensures(AgentSession::advance_reload, (session, t, reply), r),
    ensures
        r.origin == t.origin,
        t.step is Prepare ==> {
            &&& reply matches ReloadReply::Prepared(Ok(_)) ==> r.step is Install
            &&& reply matches ReloadReply::Prepared(Err(m)) ==> r.step == ReloadStep::Finished(
                Err(ReloadTransactionError::Pre(ReloadPreAcceptError::Prepare(m))),
            )
        },
        t.step is Install ==> {
            &&& reply matches ReloadReply::Installed(Some(token)) ==> r.token == Some(token) && (
            t.origin is Direct ==> r.step is CompleteReady) && (t.origin is Bridge ==> r.step
                is Respond)
            &&& reply matches ReloadReply::Installed(None) ==> (r.step matches ReloadStep::Finished(
                Err(ReloadTransactionError::Pre(ReloadPreAcceptError::InstallConflict)),
            ))
        },
        t.step is CompleteReady ==> {
            &&& reply == ReloadReply::ReadyCompleted(true) ==> r.step is AwaitReady
            &&& reply == ReloadReply::ReadyCompleted(false) ==> (r.step
                matches ReloadStep::Finished(
                Err(ReloadTransactionError::Post(ReloadPostAcceptError::Invalidated)),
            ))
        },
        t.step is Respond ==> {
            &&& reply matches ReloadReply::Responded(Ok(_)) ==> r.step is AwaitReady
            &&& reply matches ReloadReply::Responded(Err(e)) ==> r.step == ReloadStep::Finished(
                Err(ReloadTransactionError::Pre(ReloadPreAcceptError::Response(e))),
            )
        },
{
}

/// From its acceptance on: a ready replacement is taken back and committed where it is still there;
/// then the tools are collected, the host gets the state, and the resources are taken. Whatever fails
/// ends the reload, and the diagnostics are those of the commit.
pub proof fn law_an_accepted_reload_goes_on_to_its_end(
    session: &mut AgentSession,
    t: ReloadTransaction,
    reply: ReloadReply,
    r: ReloadTransaction,
)
    requires
        call_ensures(AgentSession::advance_reload, (session, t, reply), r),
    ensures
        t.step is AwaitReady ==> {
            &&& reply == ReloadReply::Ready(true) ==> r.step is TakeFinalizing
            &&& reply == ReloadReply::Ready(false) ==> (r.step matches ReloadStep::Finished(
                Err(ReloadTransactionError::Post(ReloadPostAcceptError::ReadyLost)),
            ))
        },
        t.step is TakeFinalizing ==> (reply matches ReloadReply::Taken(op) ==> (if op
            == PendingOperation::Reload {
            r.step is Commit
        } else {
            r.step matches ReloadStep::Finished(
                Err(ReloadTransactionError::Post(ReloadPostAcceptError::StateLost)),
            )
        })),
        t.step is Commit ==> (reply matches ReloadReply::Committed { committed, diagnostics } ==> {
            &&& r.diagnostics == diagnostics
            &&& committed ==> r.step is RefreshTools
            &&& !committed ==> (r.step matches ReloadStep::Finished(
                Err(ReloadTransactionError::Post(ReloadPostAcceptError::Invalidated)),
            ))
        }),
        t.step is RefreshTools && reply is ToolsRefreshed ==> r.step is Hydrate,
        t.step is RefreshTools ==> (reply matches ReloadReply::ToolsRefreshed(Some(m)) ==> final(session)@.agent.model == m),
        t.step is Hydrate && reply is Hydrated ==> r.step is ExtendResources,
        t.step is ExtendResources ==> {
            &&& reply matches ReloadReply::ResourcesExtended(Ok(_)) ==> r.step
                == ReloadStep::Finished(Ok(()))
            &&& reply matches ReloadReply::ResourcesExtended(Err(e)) ==> r.step
                == ReloadStep::Finished(
                Err(ReloadTransactionError::Post(ReloadPostAcceptError::Resources(e))),
            )
        },
        t.step is Finished ==> r == t && final(session)@ == old(session)@,
        !(reply is Committed) ==> r.diagnostics == t.diagnostics,
        !(reply is Installed) ==> r.token == t.token,
{
}

/// The old extensions are told of the end once their replacement is installed, or where the host asked
/// once it is ready; the new ones of the start once they know the session. At the end the host gives
/// up what is pending under the token. Nothing else is told.
pub proof fn law_extensions_are_told_of_a_reload(
    session: &mut AgentSession,
    t: ReloadTransaction,
    reply: ReloadReply,
    r: ReloadTransaction,
)
    requires
        call_ensures(AgentSession::advance_reload, (session, t, reply), r),
    ensures
        ({
            let end = Effect::ToExtensions(
                AgentSessionEvent::SessionShutdown {
                    reason: SessionShutdownReason::Reload,
                    target_session_file: None,
                },
            );
            let start = Effect::ToExtensions(
                AgentSessionEvent::SessionStart {
                    reason: SessionStartReason::Reload,
                    previous_session_file: None,
                },
            );
            let before = old(session)@.outbox;
            let after = final(session)@.outbox;
            &&& t.step is Install && t.origin is Direct && (reply matches ReloadReply::Installed(
                Some(_),
            )) ==> after == before.push(end)
            &&& t.step is Install && t.origin is Bridge && (reply matches ReloadReply::Installed(
                Some(_),
            )) ==> after == before
            &&& t.step is AwaitReady && t.origin is Bridge && reply == ReloadReply::Ready(true)
                ==> after == before.push(end)
            &&& t.step is AwaitReady && t.origin is Direct && reply == ReloadReply::Ready(true)
                ==> after == before
            &&& t.step is Hydrate && reply is Hydrated ==> after == before.push(start)
            &&& t.step is Prepare || t.step is TakeFinalizing || t.step is RefreshTools ==> (
            !(r.step is Finished) ==> after == before)
            &&& r.step is Finished && !(t.step is Finished) ==> (match r.token {
                Some(token) => after == before.push(Effect::AbortPending(token)),
                None => after == before,
            })
        }),
        final(session)@.agent.transcript == old(session)@.agent.transcript,
{
}

/// The caller of a direct reload gets its diagnostics, or why it failed: a failure of the resources as
/// it is, any other in words.
pub proof fn law_a_direct_reload_comes_to_its_diagnostics(
    t: ReloadTransaction,
    result: Result<(), ReloadTransactionError>,
    r: Result<Vec<String>, ExtensionBindError>,
)
    requires
        call_ensures(direct_reload_result, (t,), r),
        t.step == ReloadStep::Finished(result),
    ensures
        result is Ok ==> r == Ok::<Vec<String>, ExtensionBindError>(t.diagnostics),
        result matches Err(ReloadTransactionError::Pre(e)) ==> (r matches Err(
            ExtensionBindError::HostRestart(m),
        ) && (e is Busy || e is InstallConflict ==> m@ == "session replacement in progress"@) && (e
            is Unreloadable ==> m@ == "extension runtime is not reloadable"@) && (e
            matches ReloadPreAcceptError::Prepare(p) ==> m@ == p@) && (e
            matches ReloadPreAcceptError::Response(x) ==> m@ == x.text())),
        result matches Err(ReloadTransactionError::Post(e)) ==> (match e {
            ReloadPostAcceptError::Resources(x) => r == Err::<Vec<String>, ExtensionBindError>(x),
            _ => r matches Err(ExtensionBindError::HostRestart(m)) && m@
                == "extension runtime was invalidated during reload"@,
        }),
{
}

} // verus!
