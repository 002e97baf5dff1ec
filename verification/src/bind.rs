//! Binding extensions to a session: one bind at a time, from its start to the end of the discovery of
//! resources. A bind that comes meanwhile waits for its turn.

use crate::events::{SessionStartEvent, SessionStartReason};
use crate::extension;
use crate::extension::{ExtensionBindError, ExtensionBindings, ResourceReply, ResourceStep};
use crate::session::{AgentSession, Effect, SessionModel};
use vstd::prelude::*;

verus! {

/// What a bind waits for.
#[derive(Debug, PartialEq)]
pub enum BindStep {
    /// The bridge of the host, which is bound to the session.
    BindBridge,
    /// The resources of the extensions.
    Resources(ResourceStep),
}

/// The bind whose turn it is.
#[derive(Debug, PartialEq)]
pub struct ActiveBind {
    pub id: u64,
    /// The reason with which the resources are discovered.
    pub reason: SessionStartReason,
    pub step: BindStep,
}

/// The binds of a session.
#[derive(Debug, PartialEq)]
pub struct BindQueue {
    pub active: Option<ActiveBind>,
    /// Those that wait for their turn, in the order in which they came.
    pub waiting: Vec<(u64, ExtensionBindings)>,
}

/// The binds of a session as a model.
#[verifier::ext_equal]
pub struct BindModel {
    pub active: Option<ActiveBind>,
    pub waiting: Seq<(u64, ExtensionBindings)>,
}

impl View for BindQueue {
    type V = BindModel;

    open spec fn view(&self) -> BindModel {
        BindModel { active: self.active, waiting: self.waiting@ }
    }
}

/// A bind that is over, and what came of it.
pub type FinishedBind = (u64, Result<(), ExtensionBindError>);

/// What a bind waited for.
#[derive(Debug, PartialEq)]
pub enum BindReply {
    /// The bridge of the host is bound.
    BridgeBound,
    /// What came of a step for the resources.
    Resource(ResourceReply),
}

/// A session, its binds, and the bind that is over with the last event.
#[verifier::ext_equal]
pub struct BindState {
    pub session: SessionModel,
    pub queue: BindModel,
    pub finished: Option<FinishedBind>,
}

/// Whether a reply answers a step.
pub open spec fn fits(step: ResourceStep, reply: ResourceReply) -> bool {
    match step {
        ResourceStep::ReloadLoader => reply is LoaderReloaded,
        ResourceStep::AskHandlers => reply is Handlers,
        ResourceStep::Discover => reply is Discovered,
        ResourceStep::ExtendLoader => reply is LoaderExtended,
        ResourceStep::Finished(_) => false,
    }
}

/// The bind with this id begins: the session is bound with what it says.
pub open spec fn bind_begun(
    s: SessionModel,
    waiting: Seq<(u64, ExtensionBindings)>,
    id: u64,
    bindings: ExtensionBindings,
    finished: Option<FinishedBind>,
) -> BindState {
    BindState {
        session: extension::bound(s, bindings),
        queue: BindModel {
            active: Some(
                ActiveBind {
                    id,
                    reason: SessionStartReason::Startup,
                    step: BindStep::BindBridge,
                },
            ),
            waiting,
        },
        finished,
    }
}

/// No bind has its turn any more: that of the first that waits comes.
pub open spec fn turn_passed(
    s: SessionModel,
    waiting: Seq<(u64, ExtensionBindings)>,
    finished: Option<FinishedBind>,
) -> BindState {
    if waiting.len() == 0 {
        BindState { session: s, queue: BindModel { active: None, waiting }, finished }
    } else {
        bind_begun(s, waiting.remove(0), waiting[0].0, waiting[0].1, finished)
    }
}

/// The next step for the resources: where there is none, the bind is over.
pub open spec fn resources_reached(
    s: SessionModel,
    waiting: Seq<(u64, ExtensionBindings)>,
    id: u64,
    reason: SessionStartReason,
    step: ResourceStep,
) -> BindState {
    match step {
        ResourceStep::Finished(result) => turn_passed(s, waiting, Some((id, result))),
        step => BindState {
            session: s,
            queue: BindModel {
                active: Some(ActiveBind { id, reason, step: BindStep::Resources(step) }),
                waiting,
            },
            finished: None,
        },
    }
}

/// After a bind was asked for: it begins where none has its turn, and else waits.
pub open spec fn bind_requested(
    s: SessionModel,
    queue: BindModel,
    id: u64,
    bindings: ExtensionBindings,
) -> BindState {
    match queue.active {
        None => bind_begun(s, queue.waiting, id, bindings, None),
        Some(_) => BindState {
            session: s,
            queue: BindModel { waiting: queue.waiting.push((id, bindings)), ..queue },
            finished: None,
        },
    }
}

/// After a reply: the start of the session is told once the bridge is bound, where it had not been
/// told, and then the resources are discovered. A reply for another bind or to something else changes
/// nothing.
pub open spec fn bind_advanced(
    s: SessionModel,
    queue: BindModel,
    id: u64,
    reply: BindReply,
    has_loader: bool,
) -> BindState {
    let same = BindState { session: s, queue, finished: None };
    match queue.active {
        None => same,
        Some(active) => if active.id != id {
            same
        } else {
            match (active.step, reply) {
                (BindStep::BindBridge, BindReply::BridgeBound) => {
                    let reason = extension::discover_reason(s);
                    let told = extension::start_told(s);
                    resources_reached(
                        told,
                        queue.waiting,
                        id,
                        reason,
                        extension::resources_start(told, reason, has_loader),
                    )
                },
                (BindStep::Resources(step), BindReply::Resource(answer)) => if fits(step, answer) {
                    resources_reached(
                        extension::resources_session(s, active.reason, has_loader, answer),
                        queue.waiting,
                        id,
                        active.reason,
                        extension::resources_next(answer, has_loader),
                    )
                } else {
                    same
                },
                _ => same,
            }
        },
    }
}

/// After a bind was given up: it waits no longer, and where it had its turn, the turn passes on.
pub open spec fn bind_abandoned(s: SessionModel, queue: BindModel, id: u64) -> BindState {
    match queue.active {
        Some(active) => if active.id == id {
            turn_passed(s, queue.waiting, None)
        } else {
            BindState {
                session: s,
                queue: BindModel { waiting: without(queue.waiting, id), ..queue },
                finished: None,
            }
        },
        None => BindState { session: s, queue, finished: None },
    }
}

/// Those that wait, but for the bind with this id.
pub open spec fn without(waiting: Seq<(u64, ExtensionBindings)>, id: u64) -> Seq<
    (u64, ExtensionBindings),
>
    decreases waiting.len(),
{
    if waiting.len() == 0 {
        seq![]
    } else if waiting.last().0 == id {
        without(waiting.drop_last(), id)
    } else {
        without(waiting.drop_last(), id).push(waiting.last())
    }
}

impl BindQueue {
    /// No binds.
    pub fn new() -> (r: Self)
        ensures
            r@ == (BindModel { active: None, waiting: seq![] }),
    {
        let r = BindQueue { active: None, waiting: Vec::new() };
        assert(r@.waiting =~= seq![]);
        r
    }
}

impl AgentSession {
    /// Asks for a bind. Its id is one that no other bind has.
    pub fn request_bind(&mut self, queue: BindQueue, id: u64, bindings: ExtensionBindings) -> (r:
        BindQueue)
        ensures
            ({
                let after = bind_requested(old(self)@, queue@, id, bindings);
                final(self)@ == after.session && r@ == after.queue
            }),
    {
        let mut queue = queue;
        if queue.active.is_some() {
            queue.waiting.push((id, bindings));
            queue
        } else {
            self.begin_bind(queue.waiting, id, bindings)
        }
    }

    fn begin_bind(
        &mut self,
        waiting: Vec<(u64, ExtensionBindings)>,
        id: u64,
        bindings: ExtensionBindings,
    ) -> (r: BindQueue)
        ensures
            ({
                let after = bind_begun(old(self)@, waiting@, id, bindings, None);
                final(self)@ == after.session && r@ == after.queue
            }),
    {
        self.bind_extensions(bindings);
        BindQueue {
            active: Some(
                ActiveBind {
                    id,
                    reason: SessionStartReason::Startup,
                    step: BindStep::BindBridge,
                },
            ),
            waiting,
        }
    }

    fn pass_turn(&mut self, waiting: Vec<(u64, ExtensionBindings)>) -> (r: BindQueue)
        ensures
            ({
                let after = turn_passed(old(self)@, waiting@, None);
                final(self)@ == after.session && r@ == after.queue
            }),
    {
        let mut waiting = waiting;
        if waiting.is_empty() {
            return BindQueue { active: None, waiting };
        }
        let (id, bindings) = waiting.remove(0);
        self.begin_bind(waiting, id, bindings)
    }

    fn reach_resources(
        &mut self,
        waiting: Vec<(u64, ExtensionBindings)>,
        id: u64,
        reason: SessionStartReason,
        step: ResourceStep,
    ) -> (r: (BindQueue, Option<FinishedBind>))
        ensures
            ({
                let after = resources_reached(old(self)@, waiting@, id, reason, step);
                final(self)@ == after.session && r.0@ == after.queue && r.1 == after.finished
            }),
    {
        match step {
            ResourceStep::Finished(result) => (self.pass_turn(waiting), Some((id, result))),
            step => (
                BindQueue {
                    active: Some(ActiveBind { id, reason, step: BindStep::Resources(step) }),
                    waiting,
                },
                None,
            ),
        }
    }

    /// Goes on with a bind after a step. Gives the bind where it is over, and what came of it.
    pub fn advance_bind(
        &mut self,
        queue: BindQueue,
        id: u64,
        reply: BindReply,
        has_loader: bool,
    ) -> (r: (BindQueue, Option<FinishedBind>))
        ensures
            ({
                let after = bind_advanced(old(self)@, queue@, id, reply, has_loader);
                final(self)@ == after.session && r.0@ == after.queue && r.1 == after.finished
            }),
    {
        let BindQueue { active, waiting } = queue;
        let active = match active {
            Some(active) => active,
            None => return (BindQueue { active: None, waiting }, None),
        };
        if active.id != id {
            return (BindQueue { active: Some(active), waiting }, None);
        }
        let ActiveBind { id, reason, step } = active;
        match (step, reply) {
            (BindStep::BindBridge, BindReply::BridgeBound) => {
                let reason = self.tell_session_start();
                let step = self.extend_resources_from_extensions(reason, has_loader);
                self.reach_resources(waiting, id, reason, step)
            },
            (BindStep::Resources(step), BindReply::Resource(answer)) => {
                let fitting = match (&step, &answer) {
                    (ResourceStep::ReloadLoader, ResourceReply::LoaderReloaded(_)) => true,
                    (ResourceStep::AskHandlers, ResourceReply::Handlers(_)) => true,
                    (ResourceStep::Discover, ResourceReply::Discovered(_)) => true,
                    (ResourceStep::ExtendLoader, ResourceReply::LoaderExtended(_)) => true,
                    _ => false,
                };
                if fitting {
                    let step = self.advance_resources(reason, has_loader, answer);
                    self.reach_resources(waiting, id, reason, step)
                } else {
                    let active = ActiveBind { id, reason, step: BindStep::Resources(step) };
                    (BindQueue { active: Some(active), waiting }, None)
                }
            },
            (step, _) => (
                BindQueue { active: Some(ActiveBind { id, reason, step }), waiting },
                None,
            ),
        }
    }

    /// Gives a bind up.
    pub fn abandon_bind(&mut self, queue: BindQueue, id: u64) -> (r: BindQueue)
        ensures
            ({
                let after = bind_abandoned(old(self)@, queue@, id);
                final(self)@ == after.session && r@ == after.queue
            }),
    {
        let BindQueue { active, waiting } = queue;
        match active {
            Some(active) => if active.id == id {
                self.pass_turn(waiting)
            } else {
                let kept = remove_waiting(waiting, id);
                BindQueue { active: Some(active), waiting: kept }
            },
            None => BindQueue { active: None, waiting },
        }
    }
}

fn remove_waiting(waiting: Vec<(u64, ExtensionBindings)>, id: u64) -> (r: Vec<
    (u64, ExtensionBindings),
>)
    ensures
        r@ == without(waiting@, id),
{
    let ghost all = waiting@;
    let mut rest = waiting;
    let mut kept: Vec<(u64, ExtensionBindings)> = Vec::new();
    let ghost mut done: int = 0;
    assert(all.take(0) =~= seq![]);
    assert(all.skip(0) =~= all);
    while rest.len() > 0
        invariant
            0 <= done <= all.len(),
            rest@ == all.skip(done),
            kept@ == without(all.take(done), id),
        decreases rest@.len(),
    {
        let one = rest.remove(0);
        proof {
            assert(all.take(done + 1).drop_last() =~= all.take(done));
            assert(all.take(done + 1).last() == all[done]);
            assert(rest@ =~= all.skip(done + 1));
            done = done + 1;
        }
        if one.0 != id {
            kept.push(one);
        }
    }
    assert(all.take(done) =~= all);
    kept
}

/// What happens to the binds of a session.
pub enum BindEvent {
    /// A bind is asked for.
    Requested { id: u64, bindings: ExtensionBindings },
    /// A bind gets a reply.
    Replied { id: u64, reply: BindReply },
}

/// A call of the extension runner.
pub enum BindCall {
    /// The start of the session is told.
    Start(SessionStartEvent),
    /// The resources are asked for, with this reason.
    Discover(SessionStartReason),
}

/// After an event.
pub open spec fn bind_next(st: BindState, event: BindEvent, has_loader: bool) -> BindState {
    match event {
        BindEvent::Requested { id, bindings } => bind_requested(
            st.session,
            st.queue,
            id,
            bindings,
        ),
        BindEvent::Replied { id, reply } => bind_advanced(
            st.session,
            st.queue,
            id,
            reply,
            has_loader,
        ),
    }
}

/// The calls that an event leads to: the start is told when it stops to be pending, and resources are
/// asked for when a bind comes to that step.
pub open spec fn calls_of(st: BindState, event: BindEvent, has_loader: bool) -> Seq<BindCall> {
    let after = bind_next(st, event, has_loader);
    let told = match st.session.pending_start {
        Some(start) => if after.session.pending_start is None {
            seq![BindCall::Start(start)]
        } else {
            seq![]
        },
        None => seq![],
    };
    let asked = match after.queue.active {
        Some(active) => if active.step == BindStep::Resources(ResourceStep::Discover)
            && st.queue.active != after.queue.active {
            seq![BindCall::Discover(active.reason)]
        } else {
            seq![]
        },
        None => seq![],
    };
    told + asked
}

/// After events.
pub open spec fn bind_run(st: BindState, events: Seq<BindEvent>, has_loader: bool) -> BindState
    decreases events.len(),
{
    if events.len() == 0 {
        st
    } else {
        bind_next(bind_run(st, events.drop_last(), has_loader), events.last(), has_loader)
    }
}

/// The calls that events lead to.
pub open spec fn calls_made(st: BindState, events: Seq<BindEvent>, has_loader: bool) -> Seq<BindCall>
    decreases events.len(),
{
    if events.len() == 0 {
        seq![]
    } else {
        calls_made(st, events.drop_last(), has_loader) + calls_of(
            bind_run(st, events.drop_last(), has_loader),
            events.last(),
            has_loader,
        )
    }
}

/// What the last bind that was asked for binds with.
pub open spec fn last_requested(events: Seq<BindEvent>) -> Option<ExtensionBindings>
    decreases events.len(),
{
    if events.len() == 0 {
        None
    } else {
        match events.last() {
            BindEvent::Requested { bindings, .. } => Some(bindings),
            BindEvent::Replied { .. } => last_requested(events.drop_last()),
        }
    }
}

/// Extensions want to name resources, and succeed in it.
pub open spec fn discovery_succeeds(event: BindEvent) -> bool {
    match event {
        BindEvent::Replied { reply: BindReply::Resource(ResourceReply::Handlers(wanted)), .. } =>
            wanted,
        BindEvent::Replied { reply: BindReply::Resource(ResourceReply::Discovered(r)), .. } =>
            r is Ok,
        _ => true,
    }
}

/// A session without binds.
pub open spec fn unbound(s: SessionModel) -> BindState {
    BindState {
        session: s,
        queue: BindModel { active: None, waiting: seq![] },
        finished: None,
    }
}

/// Telling the start of a session to extensions.
pub open spec fn start_effect(start: SessionStartEvent) -> Effect {
    Effect::ToExtensions(
        crate::events::AgentSessionEvent::SessionStart {
            reason: start.reason,
            previous_session_file: start.previous_session_file,
        },
    )
}

/// Where the binds of a session stand after some calls: the start is pending until it is told,
/// resources are asked for right after it, and no other bind has its turn before they are there.
spec fn stands(s: SessionModel, st: BindState, start: SessionStartEvent, calls: Seq<BindCall>) -> bool {
    &&& calls.len() <= 2
    &&& calls.len() > 0 ==> calls[0] == BindCall::Start(start)
    &&& calls.len() > 1 ==> calls[1] == BindCall::Discover(SessionStartReason::Startup)
    &&& st.session.outbox == if calls.len() == 0 {
        s.outbox
    } else {
        s.outbox.push(start_effect(start))
    }
    &&& if calls.len() == 0 {
        &&& st.session.pending_start == Some(start)
        &&& !st.session.lifecycle.initial_resources_discovered
        &&& st.queue.active is None || at_bridge(st.queue)
        &&& st.finished is None
    } else if calls.len() == 1 {
        &&& st.session.pending_start is None
        &&& !st.session.lifecycle.initial_resources_discovered
        &&& at_step(st.queue, ResourceStep::AskHandlers)
        &&& st.finished is None
    } else {
        &&& st.session.pending_start is None
        &&& if st.session.lifecycle.initial_resources_discovered {
            st.queue.active is None || at_bridge(st.queue)
        } else {
            &&& at_step(st.queue, ResourceStep::Discover) || at_step(
                st.queue,
                ResourceStep::ExtendLoader,
            )
            &&& st.finished is None
        }
    }
}

spec fn at_bridge(queue: BindModel) -> bool {
    queue.active matches Some(active) && active.step == BindStep::BindBridge
}

spec fn at_step(queue: BindModel, step: ResourceStep) -> bool {
    queue.active matches Some(active) && active.step == BindStep::Resources(step) && active.reason
        == SessionStartReason::Startup
}

/// What the session is bound with after events, and what waits.
spec fn bound_last(
    s: SessionModel,
    st: BindState,
    calls: Seq<BindCall>,
    last: Option<ExtensionBindings>,
) -> bool {
    match last {
        None => st.queue.active is None && st.queue.waiting.len() == 0 && calls.len() == 0,
        Some(bindings) => {
            &&& st.queue.active is None ==> st.queue.waiting.len() == 0 && calls.len() == 2
            &&& if st.queue.waiting.len() > 0 {
                st.queue.waiting.last().1 == bindings
            } else {
                st.session.bindings == extension::bound(s, bindings).bindings
            }
        },
    }
}

proof fn lemma_request_stands(
    s: SessionModel,
    st: BindState,
    start: SessionStartEvent,
    calls: Seq<BindCall>,
    last: Option<ExtensionBindings>,
    id: u64,
    bindings: ExtensionBindings,
    has_loader: bool,
)
    requires
        stands(s, st, start, calls),
        bound_last(s, st, calls, last),
    ensures
        ({
            let event = BindEvent::Requested { id, bindings };
            let after = bind_next(st, event, has_loader);
            &&& calls_of(st, event, has_loader) =~= Seq::<BindCall>::empty()
            &&& stands(s, after, start, calls)
            &&& bound_last(s, after, calls, Some(bindings))
        }),
{
}

/// A turn that passes on after the resources are there.
proof fn lemma_turn_stands(
    s: SessionModel,
    t: SessionModel,
    waiting: Seq<(u64, ExtensionBindings)>,
    start: SessionStartEvent,
    calls: Seq<BindCall>,
    last: Option<ExtensionBindings>,
    finished: Option<FinishedBind>,
)
    requires
        calls == seq![
            BindCall::Start(start),
            BindCall::Discover(SessionStartReason::Startup),
        ],
        t.outbox == s.outbox.push(start_effect(start)),
        t.pending_start is None,
        t.lifecycle.initial_resources_discovered,
        last is Some,
        waiting.len() > 0 ==> waiting.last().1 == last->0,
        waiting.len() == 0 ==> t.bindings == extension::bound(s, last->0).bindings,
    ensures
        stands(s, turn_passed(t, waiting, finished), start, calls),
        bound_last(s, turn_passed(t, waiting, finished), calls, last),
{
    if waiting.len() > 1 {
        assert(waiting.remove(0).last() == waiting.last());
    }
}

proof fn lemma_reply_stands(
    s: SessionModel,
    st: BindState,
    start: SessionStartEvent,
    calls: Seq<BindCall>,
    last: Option<ExtensionBindings>,
    id: u64,
    reply: BindReply,
    has_loader: bool,
)
    requires
        start.reason != SessionStartReason::Reload,
        stands(s, st, start, calls),
        bound_last(s, st, calls, last),
        discovery_succeeds(BindEvent::Replied { id, reply }),
    ensures
        ({
            let event = BindEvent::Replied { id, reply };
            let after = bind_next(st, event, has_loader);
            let now = calls + calls_of(st, event, has_loader);
            &&& stands(s, after, start, now)
            &&& bound_last(s, after, now, last)
        }),
{
    let event = BindEvent::Replied { id, reply };
    let after = bind_next(st, event, has_loader);
    let made = calls_of(st, event, has_loader);
    let first = BindCall::Start(start);
    let second = BindCall::Discover(SessionStartReason::Startup);
    let w = st.queue.waiting;
    let same = BindState { session: st.session, queue: st.queue, finished: None };
    if after == same {
        assert(made =~= Seq::<BindCall>::empty());
        assert(calls + made =~= calls);
    } else if at_bridge(st.queue) {
        let told = extension::start_told(st.session);
        if calls.len() == 0 {
            assert(made =~= seq![first]);
            assert(calls + made =~= seq![first]);
        } else {
            assert(calls =~= seq![first, second]);
            lemma_turn_stands(s, told, w, start, calls, last, after.finished);
            assert(made =~= Seq::<BindCall>::empty());
            assert(calls + made =~= calls);
        }
    } else if at_step(st.queue, ResourceStep::AskHandlers) {
        assert(made =~= seq![second]);
        assert(calls + made =~= seq![first, second]);
    } else {
        assert(calls =~= seq![first, second]);
        let answer = reply->Resource_0;
        let t = extension::resources_session(
            st.session,
            SessionStartReason::Startup,
            has_loader,
            answer,
        );
        if extension::resources_next(answer, has_loader) is Finished {
            lemma_turn_stands(s, t, w, start, calls, last, after.finished);
        }
        assert(made =~= Seq::<BindCall>::empty());
        assert(calls + made =~= calls);
    }
}

proof fn lemma_binds_stand(
    s: SessionModel,
    start: SessionStartEvent,
    events: Seq<BindEvent>,
    has_loader: bool,
)
    requires
        s.pending_start == Some(start),
        start.reason != SessionStartReason::Reload,
        !s.lifecycle.initial_resources_discovered,
        forall|i: int| 0 <= i < events.len() ==> discovery_succeeds(#[trigger] events[i]),
    ensures
        ({
            let st = bind_run(unbound(s), events, has_loader);
            let calls = calls_made(unbound(s), events, has_loader);
            &&& stands(s, st, start, calls)
            &&& bound_last(s, st, calls, last_requested(events))
        }),
    decreases events.len(),
{
    if events.len() > 0 {
        let earlier = events.drop_last();
        assert(discovery_succeeds(events[events.len() - 1]));
        assert forall|i: int| 0 <= i < earlier.len() implies discovery_succeeds(
            #[trigger] earlier[i],
        ) by {
            assert(earlier[i] == events[i]);
        }
        lemma_binds_stand(s, start, earlier, has_loader);
        let st = bind_run(unbound(s), earlier, has_loader);
        let calls = calls_made(unbound(s), earlier, has_loader);
        let last = last_requested(earlier);
        match events.last() {
            BindEvent::Requested { id, bindings } => {
                lemma_request_stands(s, st, start, calls, last, id, bindings, has_loader);
                assert(calls + calls_of(st, events.last(), has_loader) =~= calls);
            },
            BindEvent::Replied { id, reply } => {
                lemma_reply_stands(s, st, start, calls, last, id, reply, has_loader);
            },
        }
    }
}

/// However many binds there are, and whatever comes of one while others wait: the start of the
/// session is told once, before resources are asked for, and these are asked for once; a bind tells
/// and asks nothing again. When no bind is in progress any more, the session is bound as the last of
/// them says.
pub proof fn law_binds_tell_the_start_once(
    s: SessionModel,
    start: SessionStartEvent,
    events: Seq<BindEvent>,
    has_loader: bool,
)
    requires
        s.pending_start == Some(start),
        start.reason != SessionStartReason::Reload,
        !s.lifecycle.initial_resources_discovered,
        forall|i: int| 0 <= i < events.len() ==> discovery_succeeds(#[trigger] events[i]),
    ensures
        ({
            let st = bind_run(unbound(s), events, has_loader);
            let calls = calls_made(unbound(s), events, has_loader);
            let all = seq![
                BindCall::Start(start),
                BindCall::Discover(SessionStartReason::Startup),
            ];
            &&& calls.is_prefix_of(all)
            &&& st.session.outbox == if calls.len() == 0 {
                s.outbox
            } else {
                s.outbox.push(start_effect(start))
            }
            &&& st.queue.active is None ==> match last_requested(events) {
                Some(bindings) => {
                    &&& st.queue.waiting.len() == 0
                    &&& st.session.bindings == extension::bound(s, bindings).bindings
                    &&& st.session.bindings.mode == bindings.mode
                    &&& calls == all
                },
                None => calls.len() == 0,
            }
            &&& st.finished is Some ==> calls == all
        }),
{
    lemma_binds_stand(s, start, events, has_loader);
    let calls = calls_made(unbound(s), events, has_loader);
    let all = seq![BindCall::Start(start), BindCall::Discover(SessionStartReason::Startup)];
    assert(calls =~= all.take(calls.len() as int));
    if calls.len() == 2 {
        assert(calls =~= all);
    }
}

// ---------------------------------------------------------------------------
// What the operations promise
// ---------------------------------------------------------------------------

/// Without binds none is in progress and none waits.
pub proof fn law_no_bind_is_in_progress_at_first(queue: BindQueue)
    requires
        call_ensures(BindQueue::new, (), queue),
    ensures
        queue@.active is None,
        queue@.waiting.len() == 0,
{
}

/// A bind that is asked for begins where none is in progress, with its bridge, and the session is
/// bound with what it says; otherwise it waits behind the others and the session stays as it is.
pub proof fn law_one_bind_is_in_progress_at_a_time(
    session: &mut AgentSession,
    twin: &mut AgentSession,
    queue: BindQueue,
    id: u64,
    bindings: ExtensionBindings,
    done: (),
    r: BindQueue,
)
    requires
        call_ensures(AgentSession::request_bind, (session, queue, id, bindings), r),
        old(twin)@ == old(session)@,
        call_ensures(AgentSession::bind_extensions, (twin, bindings), done),
    ensures
        queue@.active is None ==> (r@.active matches Some(a) && a.id == id && a.step is BindBridge)
            && r@.waiting == queue@.waiting && final(session)@ == final(twin)@,
        queue@.active is Some ==> r@.active == queue@.active && r@.waiting == queue@.waiting.push(
            (id, bindings),
        ) && final(session)@ == old(session)@,
{
}

/// A reply for a bind that is not in progress, or to something that it does not wait for, changes
/// nothing.
pub proof fn law_stray_replies_change_no_bind(
    session: &mut AgentSession,
    queue: BindQueue,
    id: u64,
    reply: BindReply,
    has_loader: bool,
    r: (BindQueue, Option<FinishedBind>),
)
    requires
        call_ensures(AgentSession::advance_bind, (session, queue, id, reply, has_loader), r),
        queue@.active is None || queue@.active->0.id != id || (queue@.active->0.step is BindBridge
            && !(reply is BridgeBound)) || (queue@.active->0.step is Resources
            && reply is BridgeBound),
    ensures
        r.0@ == queue@,
        r.1 is None,
        final(session)@ == old(session)@,
{
}

/// Once the bridge is bound the start is told, where it was not, and the resources are begun; where
/// nothing is to be done for them the bind is over, without a failure, and the next one begins.
pub proof fn law_a_bound_bridge_tells_the_start(
    session: &mut AgentSession,
    told: &mut AgentSession,
    queue: BindQueue,
    id: u64,
    has_loader: bool,
    reason: SessionStartReason,
    seen: &AgentSession,
    step: ResourceStep,
    r: (BindQueue, Option<FinishedBind>),
)
    requires
        call_ensures(
            AgentSession::advance_bind,
            (session, queue, id, BindReply::BridgeBound, has_loader),
            r,
        ),
        queue@.active matches Some(a) && a.id == id && a.step is BindBridge,
        old(told)@ == old(session)@,
        call_ensures(AgentSession::tell_session_start, (told,), reason),
        seen@ == final(told)@,
        call_ensures(
            AgentSession::extend_resources_from_extensions,
            (seen, reason, has_loader),
            step,
        ),
    ensures
        !(step is Finished) ==> r.1 is None && final(session)@ == final(told)@ && r.0@.waiting
            == queue@.waiting && (r.0@.active matches Some(a) && a.id == id && a.reason == reason
            && a.step == BindStep::Resources(step)),
        step matches ResourceStep::Finished(result) ==> r.1 == Some((id, result)),
        step is Finished && queue@.waiting.len() == 0 ==> r.0@.active is None && final(session)@
            == final(told)@,
        step is Finished && queue@.waiting.len() > 0 ==> (r.0@.active matches Some(a) && a.id
            == queue@.waiting[0].0 && a.step is BindBridge) && r.0@.waiting.len()
            == queue@.waiting.len() - 1,
        final(session)@.outbox == final(told)@.outbox,
{
}

/// A reply that a bind waits for takes its resources on; a bind that is over tells what came of it,
/// and the one that waits longest begins.
pub proof fn law_a_bind_goes_on_with_its_resources(
    session: &mut AgentSession,
    taken: &mut AgentSession,
    queue: BindQueue,
    id: u64,
    current: ResourceStep,
    answer: ResourceReply,
    has_loader: bool,
    step: ResourceStep,
    r: (BindQueue, Option<FinishedBind>),
)
    requires
        call_ensures(
            AgentSession::advance_bind,
            (session, queue, id, BindReply::Resource(answer), has_loader),
            r,
        ),
        queue@.active matches Some(a) && a.id == id && a.step == BindStep::Resources(current),
        old(taken)@ == old(session)@,
        call_ensures(
            AgentSession::advance_resources,
            (taken, queue@.active->0.reason, has_loader, answer),
            step,
        ),
    ensures
        ({
            let fitting = (current is ReloadLoader && answer is LoaderReloaded) || (current
                is AskHandlers && answer is Handlers) || (current is Discover && answer
                is Discovered) || (current is ExtendLoader && answer is LoaderExtended);
            &&& !fitting ==> r.0@ == queue@ && r.1 is None && final(session)@ == old(session)@
            &&& fitting && !(step is Finished) ==> r.1 is None && final(session)@ == final(taken)@ && (
            r.0@.active matches Some(a) && a.id == id && a.reason == queue@.active->0.reason
                && a.step == BindStep::Resources(step)) && r.0@.waiting == queue@.waiting
            &&& fitting ==> (step matches ResourceStep::Finished(result) ==> r.1 == Some(
                (id, result),
            ))
            &&& fitting && step is Finished && queue@.waiting.len() == 0 ==> r.0@.active is None
                && final(session)@ == final(taken)@
            &&& fitting && step is Finished && queue@.waiting.len() > 0 ==> (r.0@.active
                matches Some(a) && a.id == queue@.waiting[0].0 && a.step is BindBridge)
                && r.0@.waiting.len() == queue@.waiting.len() - 1 && final(session)@.bindings.mode
                == queue@.waiting[0].1.mode
        }),
{
}

/// A bind that is given up while it is in progress makes way for the one that waits longest; one that
/// waits no longer waits, and the others stay in their order.
pub proof fn law_an_abandoned_bind_makes_way(
    session: &mut AgentSession,
    queue: BindQueue,
    id: u64,
    other: (u64, ExtensionBindings),
    r: BindQueue,
)
    requires
        call_ensures(AgentSession::abandon_bind, (session, queue, id), r),
    ensures
        queue@.active is None ==> r@ == queue@ && final(session)@ == old(session)@,
        queue@.active matches Some(a) ==> {
            &&& a.id == id && queue@.waiting.len() == 0 ==> r@.active is None && final(session)@
                == old(session)@
            &&& a.id == id && queue@.waiting.len() > 0 ==> (r@.active matches Some(b) && b.id
                == queue@.waiting[0].0 && b.step is BindBridge) && r@.waiting
                == queue@.waiting.remove(0) && final(session)@.bindings.mode
                == queue@.waiting[0].1.mode
            &&& a.id != id ==> r@.active == queue@.active && final(session)@ == old(session)@ && (
            other.0 != id ==> (r@.waiting.contains(other) <==> queue@.waiting.contains(other)))
                && (other.0 == id ==> !r@.waiting.contains(other))
        },
{
    lemma_without(queue@.waiting, id, other);
}

proof fn lemma_without(
    waiting: Seq<(u64, ExtensionBindings)>,
    id: u64,
    other: (u64, ExtensionBindings),
)
    ensures
        other.0 != id ==> (without(waiting, id).contains(other) <==> waiting.contains(other)),
        other.0 == id ==> !without(waiting, id).contains(other),
    decreases waiting.len(),
{
    if waiting.len() > 0 {
        let rest = waiting.drop_last();
        let last = waiting.last();
        lemma_without(rest, id, other);
        let kept = without(rest, id);
        assert(waiting =~= rest.push(last));
        assert(waiting.contains(other) <==> rest.contains(other) || other == last) by {
            if rest.contains(other) {
                let k = choose|k: int| 0 <= k < rest.len() && rest[k] == other;
                assert(waiting[k] == other);
            }
            if other == last {
                assert(waiting[waiting.len() - 1] == other);
            }
            if waiting.contains(other) && other != last {
                let k = choose|k: int| 0 <= k < waiting.len() && waiting[k] == other;
                assert(rest[k] == other);
            }
        }
        if last.0 != id {
            let more = kept.push(last);
            assert(more.contains(other) <==> kept.contains(other) || other == last) by {
                if kept.contains(other) {
                    let k = choose|k: int| 0 <= k < kept.len() && kept[k] == other;
                    assert(more[k] == other);
                }
                if other == last {
                    assert(more[kept.len() as int] == other);
                }
                if more.contains(other) && other != last {
                    let k = choose|k: int| 0 <= k < more.len() && more[k] == other;
                    assert(kept[k] == other);
                }
            }
        }
    }
}

} // verus!
