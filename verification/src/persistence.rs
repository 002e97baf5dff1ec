//! What the events of a run change of the session: the texts that wait, the storage of messages, the
//! retry count and the recovery latch.

use crate::events::{AgentEvent, AgentSessionEvent};
use crate::json;
use crate::json::Json;
use crate::messages;
use crate::messages::{
    AgentMessage, AssistantMessage, CustomAgentMessage, Message, SessionEntry, StopReason,
    UserContent, UserMessageContent,
};
use crate::prompt::CustomMessageInput;
use crate::session;
use crate::session::{
    AgentModel, AgentSession, Effect, SessionCounters, SessionError, SessionLifecycle, SessionModel,
};
use crate::text;
use std::sync::Arc;
use vstd::prelude::*;
use vstd::string::StringExecFns;

verus! {

/// The texts of blocks, one behind the other.
pub open spec fn blocks_text(blocks: Seq<UserContent>) -> Seq<char>
    decreases blocks.len(),
{
    if blocks.len() == 0 {
        seq![]
    } else {
        blocks_text(blocks.drop_last()) + match blocks.last() {
            UserContent::Text(t) => t@,
            UserContent::Image(_) => seq![],
        }
    }
}

/// The text of a user message, empty for any other.
pub open spec fn user_text_of(m: AgentMessage) -> Seq<char> {
    match m {
        AgentMessage::Llm(Message::User(u)) => match u.content {
            UserMessageContent::Text(t) => t@,
            UserMessageContent::Blocks(b) => blocks_text(b@),
        },
        _ => seq![],
    }
}

/// The text of a user message.
pub fn user_message_text(message: &AgentMessage) -> (r: String)
    ensures
        r@ == user_text_of(*message),
{
    match message {
        AgentMessage::Llm(Message::User(u)) => match &u.content {
            UserMessageContent::Text(t) => t.clone(),
            UserMessageContent::Blocks(blocks) => {
                let n: usize = blocks.len();
                let mut r = String::new();
                let mut i: usize = 0;
                while i < n
                    invariant
                        n == blocks@.len(),
                        i <= n,
                        r@ == blocks_text(blocks@.take(i as int)),
                    decreases n - i,
                {
                    assert(blocks@.take(i + 1).drop_last() =~= blocks@.take(i as int));
                    match &blocks[i] {
                        UserContent::Text(t) => {
                            r.append(t.as_str());
                        },
                        UserContent::Image(_) => {
                            assert(r@ + Seq::<char>::empty() =~= r@);
                        },
                    }
                    i += 1;
                }
                assert(blocks@.take(n as int) =~= blocks@);
                r
            },
        },
        _ => String::new(),
    }
}

/// The position of the first text from `from` on that is `text`, the length where there is none.
pub open spec fn position_from(texts: Seq<String>, text: Seq<char>, from: int) -> int
    decreases texts.len() - from,
{
    if from >= texts.len() {
        texts.len() as int
    } else if texts[from]@ == text {
        from
    } else {
        position_from(texts, text, from + 1)
    }
}

fn position_of(texts: &Vec<String>, text: &str) -> (r: usize)
    ensures
        r == position_from(texts@, text@, 0),
        r <= texts@.len(),
{
    let n: usize = texts.len();
    let mut i: usize = 0;
    while i < n
        invariant
            n == texts@.len(),
            i <= n,
            position_from(texts@, text@, 0) == position_from(texts@, text@, i as int),
        decreases n - i,
    {
        if text::same_text(texts[i].as_str(), text) {
            return i;
        }
        i += 1;
    }
    n
}

/// A session from whose waiting texts `text` was taken: the first steering text that is it, or else
/// the first follow-up text.
pub open spec fn dequeued(s: SessionModel, text: Seq<char>) -> SessionModel {
    let i = position_from(s.steering, text, 0);
    let j = position_from(s.follow_up, text, 0);
    if i < s.steering.len() {
        SessionModel { steering: s.steering.remove(i), ..s }
    } else if j < s.follow_up.len() {
        SessionModel { follow_up: s.follow_up.remove(j), ..s }
    } else {
        s
    }
}

/// Whether `text` waits.
pub open spec fn waits(s: SessionModel, text: Seq<char>) -> bool {
    position_from(s.steering, text, 0) < s.steering.len() || position_from(s.follow_up, text, 0)
        < s.follow_up.len()
}

/// A session that may recover from a context that is too long once more.
pub open spec fn latch_released(s: SessionModel) -> SessionModel {
    SessionModel {
        lifecycle: SessionLifecycle { overflow_recovery_attempted: false, ..s.lifecycle },
        ..s
    }
}

proof fn lemma_position_bounds(texts: Seq<String>, text: Seq<char>, from: int)
    requires
        0 <= from <= texts.len(),
    ensures
        from <= position_from(texts, text, from) <= texts.len(),
        forall|k: int|
            from <= k < position_from(texts, text, from) ==> #[trigger] texts[k]@ != text,
        position_from(texts, text, from) < texts.len() ==> texts[position_from(
            texts,
            text,
            from,
        )]@ == text,
    decreases texts.len() - from,
{
    if from < texts.len() && texts[from]@ != text {
        lemma_position_bounds(texts, text, from + 1);
    }
}

proof fn lemma_position_unique(texts: Seq<String>, text: Seq<char>, from: int, i: int)
    requires
        0 <= from <= i < texts.len(),
        texts[i]@ == text,
        forall|k: int| from <= k < i ==> #[trigger] texts[k]@ != text,
    ensures
        position_from(texts, text, from) == i,
    decreases i - from,
{
    if from < i {
        assert(texts[from]@ != text);
        lemma_position_unique(texts, text, from + 1, i);
    }
}

/// A queued text leaves the queue when its message arrives, one for one: what was queued last and
/// did not wait before is gone, and the texts that waited are as they were.
pub proof fn law_queued_text_leaves_on_arrival(s: SessionModel, queued: String)
    requires
        !waits(s, queued@),
    ensures
        dequeued(SessionModel { steering: s.steering.push(queued), ..s }, queued@) == s,
        dequeued(SessionModel { follow_up: s.follow_up.push(queued), ..s }, queued@) == s,
{
    lemma_position_bounds(s.steering, queued@, 0);
    lemma_position_bounds(s.follow_up, queued@, 0);
    let a = s.steering.push(queued);
    let b = s.follow_up.push(queued);
    assert forall|k: int| 0 <= k < s.steering.len() implies #[trigger] a[k]@ != queued@ by {
        assert(s.steering[k]@ != queued@);
    }
    assert forall|k: int| 0 <= k < s.follow_up.len() implies #[trigger] b[k]@ != queued@ by {
        assert(s.follow_up[k]@ != queued@);
    }
    lemma_position_unique(a, queued@, 0, s.steering.len() as int);
    lemma_position_unique(b, queued@, 0, s.follow_up.len() as int);
    assert(a.remove(s.steering.len() as int) =~= s.steering);
    assert(b.remove(s.follow_up.len() as int) =~= s.follow_up);
}

/// The arrival of a text that waits takes exactly one text off the queues, steering before
/// follow-up.
pub proof fn law_arrival_takes_one(s: SessionModel, text: Seq<char>)
    requires
        waits(s, text),
    ensures
        dequeued(s, text).steering.len() + dequeued(s, text).follow_up.len() == s.steering.len()
            + s.follow_up.len() - 1,
        position_from(s.steering, text, 0) < s.steering.len() ==> dequeued(s, text).follow_up
            == s.follow_up,
{
    lemma_position_bounds(s.steering, text, 0);
    lemma_position_bounds(s.follow_up, text, 0);
}

/// What is stored of a message.
#[derive(Debug, PartialEq)]
pub enum PersistPlan {
    /// Nothing: messages of this role are stored elsewhere.
    Nothing,
    /// The message.
    AppendMessage,
    /// A custom message.
    AppendCustom(CustomMessageInput),
}

/// The text of a storage that is blocked by an earlier failure.
pub open spec fn is_blocked_error(e: SessionError) -> bool {
    e matches SessionError::Io { path, message } && path@ == "session persistence"@ && message@
        == "session persistence is blocked by an earlier failure"@
}

/// Custom messages that could be read are stored as such.
pub open spec fn persist_plan(m: AgentMessage, decoded: Option<CustomMessageInput>) -> PersistPlan {
    let role = messages::role_of(m);
    if role == "custom"@ {
        match m {
            AgentMessage::Custom(_) => match decoded {
                Some(custom) => PersistPlan::AppendCustom(custom),
                None => PersistPlan::AppendMessage,
            },
            _ => PersistPlan::AppendMessage,
        }
    } else if role == "user"@ || role == "assistant"@ || role == "toolResult"@ {
        PersistPlan::AppendMessage
    } else {
        PersistPlan::Nothing
    }
}

/// A session that was told of a stored entry.
pub open spec fn entry_told(s: SessionModel, entry: Option<SessionEntry>) -> SessionModel {
    match entry {
        Some(e) => s.put(Effect::Emit(AgentSessionEvent::EntryAppended { entry: e })),
        None => s,
    }
}

/// A session after the end of an assistant message: it is the last one, and where it is no failure
/// the session may recover from a long context again, and retrying is over with success.
pub open spec fn assistant_ended(s: SessionModel, a: AssistantMessage) -> SessionModel {
    let kept = SessionModel { last_assistant: Some(a), ..s };
    if a.stop_reason == StopReason::Error {
        kept
    } else {
        let released = latch_released(kept);
        if s.counters.retry_attempt > 0 {
            SessionModel {
                counters: SessionCounters { retry_attempt: 0, ..s.counters },
                ..released
            }.put(
                Effect::Emit(
                    AgentSessionEvent::AutoRetryEnd {
                        success: true,
                        attempt: s.counters.retry_attempt,
                        final_error: None,
                    },
                ),
            )
        } else {
            released
        }
    }
}

/// A session after the end of a stored message.
pub open spec fn message_ended(
    s: SessionModel,
    m: AgentMessage,
    entry: Option<SessionEntry>,
) -> SessionModel {
    let t = entry_told(s, entry);
    match m {
        AgentMessage::Llm(Message::Assistant(a)) => assistant_ended(t, a),
        _ => t,
    }
}

/// An answer that is no failure ends retrying: whatever the count was, it is 0, and where it was not
/// 0 this is told once, with it.
pub proof fn law_success_ends_retrying(s: SessionModel, a: AssistantMessage)
    requires
        a.stop_reason != StopReason::Error,
    ensures
        assistant_ended(s, a).counters.retry_attempt == 0,
        !assistant_ended(s, a).lifecycle.overflow_recovery_attempted,
        assistant_ended(s, a).outbox == if s.counters.retry_attempt > 0 {
            s.outbox.push(
                Effect::Emit(
                    AgentSessionEvent::AutoRetryEnd {
                        success: true,
                        attempt: s.counters.retry_attempt,
                        final_error: None,
                    },
                ),
            )
        } else {
            s.outbox
        },
{
}

/// A failed answer leaves the retry count and the recovery latch as they are.
pub proof fn law_failure_keeps_the_counts(s: SessionModel, a: AssistantMessage)
    requires
        a.stop_reason == StopReason::Error,
    ensures
        assistant_ended(s, a).counters == s.counters,
        assistant_ended(s, a).lifecycle == s.lifecycle,
        assistant_ended(s, a).outbox == s.outbox,
{
}

/// What an event of the run asks for.
#[derive(Debug, PartialEq)]
pub enum SideEffect {
    /// Nothing.
    Nothing,
    /// A user message has begun.
    UserMessageStart(AgentMessage),
    /// A message has ended and is to be stored.
    MessageEnd(AgentMessage),
}

/// The message to store is that of the public event, which extensions may have replaced.
pub open spec fn side_effect_of(event: AgentEvent, public_event: AgentSessionEvent) -> SideEffect {
    match event {
        AgentEvent::MessageStart { message } => if messages::role_of(message) == "user"@ {
            SideEffect::UserMessageStart(message)
        } else {
            SideEffect::Nothing
        },
        AgentEvent::MessageEnd { message } => match public_event {
            AgentSessionEvent::MessageEnd { message: replaced } => SideEffect::MessageEnd(replaced),
            _ => SideEffect::MessageEnd(message),
        },
        _ => SideEffect::Nothing,
    }
}

/// What an event of the run asks for.
pub fn handle_agent_event_side_effects(
    event: &AgentEvent,
    public_event: &AgentSessionEvent,
) -> (r: SideEffect)
    ensures
        r == side_effect_of(*event, *public_event),
{
    match event {
        AgentEvent::MessageStart { message } => if message.has_role("user") {
            SideEffect::UserMessageStart(message.clone())
        } else {
            SideEffect::Nothing
        },
        AgentEvent::MessageEnd { message } => match public_event {
            AgentSessionEvent::MessageEnd { message: replaced } => SideEffect::MessageEnd(
                replaced.clone(),
            ),
            _ => SideEffect::MessageEnd(message.clone()),
        },
        _ => SideEffect::Nothing,
    }
}

/// `r` is the message that takes the place of `m`: a custom message without content gets an empty
/// list of blocks.
pub open spec fn is_normalized(m: AgentMessage, r: AgentMessage) -> bool {
    match m {
        AgentMessage::Custom(c) => if c.role@ == "custom"@ && json::member(
            c.payload@,
            "content"@,
        ) is None {
            &&& r matches AgentMessage::Custom(d)
            &&& d.role@ == "custom"@
            &&& d.payload@.len() == c.payload@.len() + 1
            &&& json::keyed(d.payload@).drop_last() == json::keyed(c.payload@)
            &&& json::keyed(d.payload@).last().0 == "content"@
            &&& json::keyed(d.payload@).last().1 matches Json::Array(items) && items@.len() == 0
        } else {
            r == m
        },
        _ => r == m,
    }
}

/// A copy of a list of members.
fn clone_members(members: &Vec<(String, Json)>) -> (r: Vec<(String, Json)>)
    ensures
        json::keyed(r@) == json::keyed(members@),
{
    let mut r: Vec<(String, Json)> = Vec::new();
    let n: usize = members.len();
    let mut i: usize = 0;
    while i < n
        invariant
            n == members@.len(),
            i <= n,
            json::keyed(r@) == json::keyed(members@).take(i as int),
        decreases n - i,
    {
        json::push_member(&mut r, members[i].0.as_str(), members[i].1.clone());
        assert(json::keyed(members@).take(i + 1) =~= json::keyed(members@).take(i as int).push(
            (members@[i as int].0@, members@[i as int].1),
        ));
        i += 1;
    }
    assert(json::keyed(members@).take(n as int) =~= json::keyed(members@));
    r
}

/// Gives a custom message without content an empty list of blocks.
pub fn normalize_replacement(message: AgentMessage) -> (r: AgentMessage)
    ensures
        is_normalized(message, r),
{
    match message {
        AgentMessage::Custom(custom) => {
            if !text::same_text(custom.role.as_str(), "custom") {
                return AgentMessage::Custom(custom);
            }
            if json::get_member(&custom.payload, "content").is_some() {
                return AgentMessage::Custom(custom);
            }
            let mut payload = clone_members(&custom.payload);
            let ghost before = json::keyed(payload@);
            json::push_member(&mut payload, "content", Json::Array(Arc::new(Vec::new())));
            assert(json::keyed(payload@).drop_last() =~= before);
            assert(json::keyed(payload@).len() == payload@.len());
            assert(before.len() == custom.payload@.len());
            AgentMessage::Custom(
                CustomAgentMessage { role: "custom".to_owned(), payload: Arc::new(payload) },
            )
        },
        other => other,
    }
}

/// A session whose last message, where it is an assistant's, is `a` instead.
pub open spec fn tail_replaced(s: SessionModel, a: AssistantMessage) -> SessionModel {
    if session::ends_with_assistant(s.agent.transcript) {
        SessionModel {
            agent: AgentModel {
                transcript: s.agent.transcript.drop_last().push(
                    AgentMessage::Llm(Message::Assistant(a)),
                ),
                ..s.agent
            },
            ..s
        }
    } else {
        s
    }
}

impl AgentSession {
    /// Takes note of a user message that begins: the session may recover from a long context again,
    /// and the text of the message no longer waits. A change of what waits is announced.
    pub fn on_user_message_start(&mut self, message: &AgentMessage)
        ensures
            ({
                let s = latch_released(old(self)@);
                let text = user_text_of(*message);
                if text.len() > 0 && waits(s, text) {
                    session::with_announcement(dequeued(s, text), final(self)@)
                } else {
                    final(self)@ == s
                }
            }),
    {
        let text = user_message_text(message);
        self.lifecycle.overflow_recovery_attempted = false;
        if text.as_str().is_empty() {
            return;
        }
        let i: usize = position_of(&self.steering_messages, text.as_str());
        if i < self.steering_messages.len() {
            self.steering_messages.remove(i);
            self.emit_queue_update();
            return;
        }
        let j: usize = position_of(&self.follow_up_messages, text.as_str());
        if j < self.follow_up_messages.len() {
            self.follow_up_messages.remove(j);
            self.emit_queue_update();
        }
    }

    /// What is stored of a message that ended. Nothing is stored after a failure of the storage.
    /// `decoded` is the message read as a custom one, where it could be.
    pub fn persist_message_end(
        &self,
        message: &AgentMessage,
        decoded: Option<CustomMessageInput>,
    ) -> (r: Result<PersistPlan, SessionError>)
        ensures
            match r {
                Ok(plan) => self@.error is None && plan == persist_plan(*message, decoded),
                Err(e) => self@.error is Some && is_blocked_error(e),
            },
    {
        if self.pending_session_error.is_some() {
            return Err(
                SessionError::Io {
                    path: "session persistence".to_owned(),
                    message: "session persistence is blocked by an earlier failure".to_owned(),
                },
            );
        }
        if message.has_role("custom") {
            return Ok(persist_custom_message(message, decoded));
        }
        if message.has_role("user") || message.has_role("assistant") || message.has_role(
            "toolResult",
        ) {
            return Ok(PersistPlan::AppendMessage);
        }
        Ok(PersistPlan::Nothing)
    }

    /// Takes the answer of the storage for a message that ended.
    #[verifier::spinoff_prover]
    #[verifier::rlimit(60)]
    pub fn on_message_end(
        &mut self,
        message: &AgentMessage,
        stored: Result<Option<SessionEntry>, SessionError>,
    ) -> (r: Result<(), SessionError>)
        ensures
            match stored {
                Ok(entry) => r is Ok && final(self)@ == message_ended(old(self)@, *message, entry),
                Err(error) => r == Err::<(), SessionError>(error) && final(self)@ == old(self)@,
            },
    {
        match stored {
            Ok(entry) => {
                if let Some(entry) = entry {
                    self.emit_public(AgentSessionEvent::EntryAppended { entry });
                }
                if let AgentMessage::Llm(Message::Assistant(a)) = message {
                    self.last_assistant_message = Some(a.clone());
                    if a.stop_reason != StopReason::Error {
                        self.lifecycle.overflow_recovery_attempted = false;
                        if self.counters.retry_attempt > 0 {
                            let attempt: u32 = self.counters.retry_attempt;
                            self.counters.retry_attempt = 0;
                            self.emit_public(
                                AgentSessionEvent::AutoRetryEnd {
                                    success: true,
                                    attempt,
                                    final_error: None,
                                },
                            );
                        }
                    }
                }
                Ok(())
            },
            Err(error) => Err(error),
        }
    }

    /// Puts a replacement of an ended message in its place, in the transcript too where it is the
    /// assistant's at its end. Gives the message that goes to listeners and storage.
    pub fn apply_message_end_replacement(
        &mut self,
        original: AgentMessage,
        replacement: Option<AgentMessage>,
    ) -> (r: AgentMessage)
        ensures
            match replacement {
                None => r == original && final(self)@ == old(self)@,
                Some(m) => {
                    &&& is_normalized(m, r)
                    &&& final(self)@ == match m {
                        AgentMessage::Llm(Message::Assistant(a)) => tail_replaced(old(self)@, a),
                        _ => old(self)@,
                    }
                },
            },
    {
        match replacement {
            None => original,
            Some(m) => {
                let r = normalize_replacement(m);
                if let AgentMessage::Llm(Message::Assistant(a)) = &r {
                    let popped: bool = self.pop_last_if_assistant();
                    if popped {
                        self.agent.transcript.push(
                            AgentMessage::Llm(Message::Assistant(a.clone())),
                        );
                    }
                }
                r
            },
        }
    }
}

/// What is stored of a message with the role of a custom one.
fn persist_custom_message(message: &AgentMessage, decoded: Option<CustomMessageInput>) -> (r:
    PersistPlan)
    ensures
        r == match *message {
            AgentMessage::Custom(_) => match decoded {
                Some(custom) => PersistPlan::AppendCustom(custom),
                None => PersistPlan::AppendMessage,
            },
            _ => PersistPlan::AppendMessage,
        },
{
    match message {
        AgentMessage::Custom(_) => match decoded {
            Some(custom) => PersistPlan::AppendCustom(custom),
            None => PersistPlan::AppendMessage,
        },
        _ => PersistPlan::AppendMessage,
    }
}

proof fn lemma_roles()
    ensures
        "user"@ != "custom"@,
        "assistant"@ != "custom"@,
        "toolResult"@ != "custom"@,
        "system"@ != "custom"@,
        "system"@ != "user"@,
        "system"@ != "assistant"@,
        "system"@ != "toolResult"@,
        "user"@ != "assistant"@,
        "user"@ != "toolResult"@,
        "assistant"@ != "toolResult"@,
{
    reveal_strlit("user");
    reveal_strlit("assistant");
    reveal_strlit("toolResult");
    reveal_strlit("custom");
    reveal_strlit("system");
    assert("user"@[0] == 'u' && "assistant"@[0] == 'a' && "toolResult"@[0] == 't' && "custom"@[0]
        == 'c' && "system"@[0] == 's');
}

/// As long as the storage works, every message that goes to or comes from the model is stored: those
/// of the user, the answers and the results of tools. The prompt is not.
pub proof fn law_the_conversation_is_stored(
    session: &AgentSession,
    message: &AgentMessage,
    decoded: Option<CustomMessageInput>,
    plan: Result<PersistPlan, SessionError>,
)
    requires
        call_ensures(AgentSession::persist_message_end, (session, message, decoded), plan),
        session@.error is None,
    ensures
        *message matches AgentMessage::Llm(Message::User(_)) ==> plan == Ok::<
            PersistPlan,
            SessionError,
        >(PersistPlan::AppendMessage),
        *message matches AgentMessage::Llm(Message::Assistant(_)) ==> plan == Ok::<
            PersistPlan,
            SessionError,
        >(PersistPlan::AppendMessage),
        *message matches AgentMessage::Llm(Message::ToolResult(_)) ==> plan == Ok::<
            PersistPlan,
            SessionError,
        >(PersistPlan::AppendMessage),
        *message matches AgentMessage::Llm(Message::System(_)) ==> plan == Ok::<
            PersistPlan,
            SessionError,
        >(PersistPlan::Nothing),
{
    lemma_roles();
}

/// As long as the storage works, a custom message is stored as such where it could be read, and as it
/// is where not. One of a kind that only the session knows is stored elsewhere.
pub proof fn law_custom_messages_are_stored(
    session: &AgentSession,
    message: &AgentMessage,
    custom: CustomAgentMessage,
    decoded: Option<CustomMessageInput>,
    plan: Result<PersistPlan, SessionError>,
)
    requires
        call_ensures(AgentSession::persist_message_end, (session, message, decoded), plan),
        session@.error is None,
        *message == AgentMessage::Custom(custom),
    ensures
        custom.role@ == "custom"@ && decoded is Some ==> plan == Ok::<PersistPlan, SessionError>(
            PersistPlan::AppendCustom(decoded->0),
        ),
        custom.role@ == "custom"@ && decoded is None ==> plan == Ok::<PersistPlan, SessionError>(
            PersistPlan::AppendMessage,
        ),
        custom.role@ == "user"@ || custom.role@ == "assistant"@ || custom.role@ == "toolResult"@
            ==> plan == Ok::<PersistPlan, SessionError>(PersistPlan::AppendMessage),
        custom.role@ != "custom"@ && custom.role@ != "user"@ && custom.role@ != "assistant"@
            && custom.role@ != "toolResult"@ ==> plan == Ok::<PersistPlan, SessionError>(
            PersistPlan::Nothing,
        ),
{
    lemma_roles();
}

/// After a failure of the storage nothing is stored, whatever the message: each further one is
/// refused.
pub proof fn law_a_failed_storage_takes_nothing(
    session: &AgentSession,
    message: &AgentMessage,
    decoded: Option<CustomMessageInput>,
    plan: Result<PersistPlan, SessionError>,
)
    requires
        call_ensures(AgentSession::persist_message_end, (session, message, decoded), plan),
        session@.error is Some,
    ensures
        plan matches Err(SessionError::Io { path, message }) && path@ == "session persistence"@
            && message@ == "session persistence is blocked by an earlier failure"@,
{
}

/// The end of a stored answer that is no failure: it is the last answer, the entry is told, retrying
/// is over, which is told with success and the number of retries where there were any, and the
/// session may recover from a long context again.
pub proof fn law_a_stored_answer_ends_retrying(
    session: &mut AgentSession,
    message: &AgentMessage,
    answer: AssistantMessage,
    entry: Option<SessionEntry>,
    r: Result<(), SessionError>,
)
    requires
        call_ensures(
            AgentSession::on_message_end,
            (session, message, Ok::<Option<SessionEntry>, SessionError>(entry)),
            r,
        ),
        *message == AgentMessage::Llm(Message::Assistant(answer)),
    ensures
        r is Ok,
        final(session)@.last_assistant == Some(answer),
        final(session)@.agent == old(session)@.agent,
        ({
            let told = match entry {
                Some(e) => old(session)@.outbox.push(
                    Effect::Emit(AgentSessionEvent::EntryAppended { entry: e }),
                ),
                None => old(session)@.outbox,
            };
            let n = old(session)@.counters.retry_attempt;
            &&& answer.stop_reason == StopReason::Error ==> final(session)@.outbox == told && final(session)@.counters == old(session)@.counters && final(session)@.lifecycle == old(session)@.lifecycle
            &&& answer.stop_reason != StopReason::Error ==> {
                &&& final(session)@.counters.retry_attempt == 0
                &&& !final(session)@.lifecycle.overflow_recovery_attempted
                &&& n == 0 ==> final(session)@.outbox == told
                &&& n > 0 ==> final(session)@.outbox == told.push(
                    Effect::Emit(
                        AgentSessionEvent::AutoRetryEnd {
                            success: true,
                            attempt: n,
                            final_error: None,
                        },
                    ),
                )
            }
        }),
{
}

/// Any other stored message only tells its entry, and a message that could not be stored changes
/// nothing: the failure is handed on.
pub proof fn law_a_stored_message_is_told(
    session: &mut AgentSession,
    message: &AgentMessage,
    stored: Result<Option<SessionEntry>, SessionError>,
    r: Result<(), SessionError>,
)
    requires
        call_ensures(AgentSession::on_message_end, (session, message, stored), r),
    ensures
        stored matches Err(e) ==> r == Err::<(), SessionError>(e) && final(session)@ == old(session)@,
        stored is Ok ==> r is Ok,
        (stored is Ok && !(*message matches AgentMessage::Llm(Message::Assistant(_)))) ==> (match stored->Ok_0 {
            Some(e) => final(session)@ == (SessionModel {
                outbox: old(session)@.outbox.push(
                    Effect::Emit(AgentSessionEvent::EntryAppended { entry: e }),
                ),
                ..old(session)@
            }),
            None => final(session)@ == old(session)@,
        }),
{
}

/// The text of a user message is its text, or those of its blocks in their order: one more block of
/// text is one more text at the end, one more image changes nothing.
pub proof fn law_user_texts_join(
    blocks: Seq<UserContent>,
    block: UserContent,
    short: &AgentMessage,
    long: &AgentMessage,
    u: crate::messages::UserMessage,
    v: crate::messages::UserMessage,
    short_text: String,
    long_text: String,
)
    requires
        call_ensures(user_message_text, (short,), short_text),
        call_ensures(user_message_text, (long,), long_text),
        *short == AgentMessage::Llm(Message::User(u)),
        *long == AgentMessage::Llm(Message::User(v)),
        u.content matches UserMessageContent::Blocks(b) && b@ == blocks,
        v.content matches UserMessageContent::Blocks(b) && b@ == blocks.push(block),
    ensures
        block matches UserContent::Text(t) ==> long_text@ == short_text@ + t@,
        block is Image ==> long_text@ == short_text@,
        blocks.len() == 0 ==> short_text@.len() == 0,
{
    assert(blocks.push(block).drop_last() =~= blocks);
    assert(short_text@ + Seq::<char>::empty() =~= short_text@);
}

/// The text of a plain user message is its text, and no other message has one.
pub proof fn law_only_users_have_a_text(message: &AgentMessage, text: String)
    requires
        call_ensures(user_message_text, (message,), text),
    ensures
        *message matches AgentMessage::Llm(Message::User(u)) ==> (u.content
            matches UserMessageContent::Text(t) ==> text@ == t@),
        !(*message matches AgentMessage::Llm(Message::User(_))) ==> text@.len() == 0,
{
}

/// A user message that begins takes its text off the texts that wait: the first steering text that is
/// it; where no steering text is, the first follow-up text; and where none waits nothing changes but
/// that the session may recover from a long context again. What waits now is announced.
pub proof fn law_an_arrived_text_no_longer_waits(
    session: &mut AgentSession,
    message: &AgentMessage,
    text: String,
    i: int,
    done: (),
)
    requires
        call_ensures(AgentSession::on_user_message_start, (session, message), done),
        call_ensures(user_message_text, (message,), text),
        text@.len() > 0,
    ensures
        !final(session)@.lifecycle.overflow_recovery_attempted,
        final(session)@.agent == old(session)@.agent,
        (0 <= i < old(session)@.steering.len() && old(session)@.steering[i]@ == text@ && forall|
            k: int,
        |
            0 <= k < i ==> #[trigger] old(session)@.steering[k]@ != text@) ==> {
            &&& final(session)@.steering == old(session)@.steering.remove(i)
            &&& final(session)@.follow_up == old(session)@.follow_up
        },
        (0 <= i < old(session)@.follow_up.len() && old(session)@.follow_up[i]@ == text@ && (forall|
            k: int,
        |
            0 <= k < i ==> #[trigger] old(session)@.follow_up[k]@ != text@) && forall|k: int|
            0 <= k < old(session)@.steering.len() ==> #[trigger] old(session)@.steering[k]@
                != text@) ==> {
            &&& final(session)@.follow_up == old(session)@.follow_up.remove(i)
            &&& final(session)@.steering == old(session)@.steering
        },
        final(session)@.steering != old(session)@.steering || final(session)@.follow_up != old(session)@.follow_up ==> {
            &&& final(session)@.outbox.len() == old(session)@.outbox.len() + 1
            &&& final(session)@.outbox.last() matches Effect::Emit(
                AgentSessionEvent::QueueUpdate { steering, follow_up },
            ) && steering@ == final(session)@.steering && follow_up@ == final(session)@.follow_up
        },
        (forall|k: int|
            0 <= k < old(session)@.steering.len() ==> #[trigger] old(session)@.steering[k]@
                != text@) && (forall|k: int|
            0 <= k < old(session)@.follow_up.len() ==> #[trigger] old(session)@.follow_up[k]@
                != text@) ==> {
            &&& final(session)@.outbox == old(session)@.outbox
            &&& final(session)@.steering == old(session)@.steering
            &&& final(session)@.follow_up == old(session)@.follow_up
        },
{
    let s = old(session)@;
    lemma_position_bounds(s.steering, text@, 0);
    lemma_position_bounds(s.follow_up, text@, 0);
    if 0 <= i < s.steering.len() && s.steering[i]@ == text@ && forall|k: int|
        0 <= k < i ==> #[trigger] s.steering[k]@ != text@ {
        lemma_position_unique(s.steering, text@, 0, i);
    }
    if 0 <= i < s.follow_up.len() && s.follow_up[i]@ == text@ && forall|k: int|
        0 <= k < i ==> #[trigger] s.follow_up[k]@ != text@ {
        lemma_position_unique(s.follow_up, text@, 0, i);
    }
}

/// A user message without a text takes nothing off what waits.
pub proof fn law_a_textless_message_keeps_what_waits(
    session: &mut AgentSession,
    message: &AgentMessage,
    text: String,
    done: (),
)
    requires
        call_ensures(AgentSession::on_user_message_start, (session, message), done),
        call_ensures(user_message_text, (message,), text),
        text@.len() == 0,
    ensures
        final(session)@.steering == old(session)@.steering,
        final(session)@.follow_up == old(session)@.follow_up,
        final(session)@.outbox == old(session)@.outbox,
        !final(session)@.lifecycle.overflow_recovery_attempted,
{
}

/// What an event of a run asks for: the beginning of a user's message and the end of any message, in
/// the form that listeners got; no other event asks for anything.
pub proof fn law_messages_are_followed(
    event: &AgentEvent,
    public_event: &AgentSessionEvent,
    effect: SideEffect,
)
    requires
        call_ensures(handle_agent_event_side_effects, (event, public_event), effect),
    ensures
        *event matches AgentEvent::MessageStart { message } ==> (match message {
            AgentMessage::Llm(Message::User(_)) => effect == SideEffect::UserMessageStart(message),
            AgentMessage::Llm(_) => effect == SideEffect::Nothing,
            AgentMessage::Custom(c) => effect == if c.role@ == "user"@ {
                SideEffect::UserMessageStart(message)
            } else {
                SideEffect::Nothing
            },
        }),
        *event matches AgentEvent::MessageEnd { message } ==> (match *public_event {
            AgentSessionEvent::MessageEnd { message: told } => effect == SideEffect::MessageEnd(
                told,
            ),
            _ => effect == SideEffect::MessageEnd(message),
        }),
        !(*event is MessageStart) && !(*event is MessageEnd) ==> effect == SideEffect::Nothing,
{
    lemma_roles();
}

/// A replacement keeps every member that a custom message has, and one without content gets an empty
/// list as its content. Every other message stays as it is.
pub proof fn law_replacements_have_content(message: AgentMessage, key: Seq<char>, r: AgentMessage)
    requires
        call_ensures(normalize_replacement, (message,), r),
    ensures
        !(message is Custom) ==> r == message,
        message matches AgentMessage::Custom(c) ==> (r matches AgentMessage::Custom(d) && d.role@
            == c.role@ && (key != "content"@ || c.role@ != "custom"@ || json::member(
            c.payload@,
            key,
        ) is Some ==> json::member(d.payload@, key) == json::member(c.payload@, key)) && (c.role@
            == "custom"@ && json::member(c.payload@, "content"@) is None ==> (json::member(
            d.payload@,
            "content"@,
        ) matches Some(Json::Array(items)) && items@.len() == 0))),
{
    if let AgentMessage::Custom(c) = message {
        if c.role@ == "custom"@ && json::member(c.payload@, "content"@) is None {
            let d = r->Custom_0;
            let a = c.payload@;
            let b = d.payload@;
            assert(json::keyed(b).len() == b.len());
            assert(json::keyed(a).len() == a.len());
            assert forall|k: int| 0 <= k < a.len() implies (#[trigger] b[k]).0@ == a[k].0@
                && b[k].1 == a[k].1 by {
                assert(json::keyed(b).drop_last()[k] == json::keyed(b)[k]);
                assert(json::keyed(b)[k] == json::keyed(a)[k]);
            }
            json::lemma_member_found(a, key, 0);
            json::lemma_member_found(a, "content"@, 0);
            assert(b[a.len() as int].0@ == "content"@);
            json::lemma_member_at(b, "content"@, 0, a.len() as int);
            if json::member(a, key) is Some {
                json::lemma_member_at(b, key, 0, json::member_from(a, key, 0));
            } else if key != "content"@ {
                json::lemma_no_member(b, key, 0);
            }
        }
    }
}

/// A replaced answer takes the place of the answer at the end of the transcript, and the transcript
/// stays as long as it was; any other replacement, and none, leaves the session as it is.
pub proof fn law_a_replaced_answer_stands_in_its_place(
    session: &mut AgentSession,
    original: AgentMessage,
    replacement: Option<AgentMessage>,
    r: AgentMessage,
)
    requires
        call_ensures(
            AgentSession::apply_message_end_replacement,
            (session, original, replacement),
            r,
        ),
    ensures
        replacement is None ==> r == original && final(session)@ == old(session)@,
        replacement matches Some(AgentMessage::Llm(m)) ==> r == AgentMessage::Llm(m),
        replacement matches Some(AgentMessage::Llm(Message::Assistant(a))) ==> {
            let before = old(session)@.agent.transcript;
            let after = final(session)@.agent.transcript;
            &&& after.len() == before.len()
            &&& forall|k: int| 0 <= k < before.len() - 1 ==> #[trigger] after[k] == before[k]
            &&& before.len() > 0 && (before.last() matches AgentMessage::Llm(Message::Assistant(_)))
                ==> after.last() == AgentMessage::Llm(Message::Assistant(a))
            &&& before.len() > 0 && !(before.last() matches AgentMessage::Llm(
                Message::Assistant(_),
            )) ==> after.last() == before.last()
            &&& final(session)@.outbox == old(session)@.outbox
        },
        !(replacement matches Some(AgentMessage::Llm(Message::Assistant(_)))) ==> final(session)@
            == old(session)@,
{
}

} // verus!
