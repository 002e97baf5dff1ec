//! The boundaries of a run: the end of a turn, and the moment before the session settles.
//!
//! At a boundary extensions may append entries to the session and ask for the run to go on.

use crate::events::AgentSessionEvent;
use crate::extension_runner::ExtensionRunnerError;
use crate::json;
use crate::json::Json;
use crate::messages;
use crate::messages::{
    AgentMessage, Message, SessionEntry, StopReason, ToolResultMessage, Usage,
};
use crate::prompt;
use crate::prompt::{AgentLoopError, CustomMessageContent};
use crate::session::{
    ActivityOutcome, AgentModel, AgentSession, Effect, SessionCounters, SessionError,
    SessionLifecycle, SessionModel,
};
use crate::text;
use std::sync::Arc;
use vstd::prelude::*;

verus! {

/// A boundary.
#[derive(Clone, Copy, Debug, PartialEq, Eq, Structural)]
pub enum Boundary {
    /// The end of a turn.
    TurnEnd,
    /// Before the session settles.
    AgentBeforeSettle,
}

impl Boundary {
    /// The wire name of the boundary.
    pub open spec fn name(self) -> Seq<char> {
        match self {
            Boundary::TurnEnd => "turn_end"@,
            Boundary::AgentBeforeSettle => "agent_before_settle"@,
        }
    }

    /// The wire name of the boundary.
    pub fn as_str(self) -> (r: &'static str)
        ensures
            r@ == self.name(),
    {
        match self {
            Boundary::TurnEnd => "turn_end",
            Boundary::AgentBeforeSettle => "agent_before_settle",
        }
    }
}

/// The boundary with this name.
pub fn boundary_named(name: &str) -> (r: Result<Boundary, SessionError>)
    ensures
        if name@ == Boundary::TurnEnd.name() {
            r == Ok::<Boundary, SessionError>(Boundary::TurnEnd)
        } else if name@ == Boundary::AgentBeforeSettle.name() {
            r == Ok::<Boundary, SessionError>(Boundary::AgentBeforeSettle)
        } else {
            r matches Err(SessionError::ContextEditInvalid(m)) && m@ == "Unknown boundary: "@
                + name@
        },
{
    if text::same_text(name, "turn_end") {
        return Ok(Boundary::TurnEnd);
    }
    if text::same_text(name, "agent_before_settle") {
        return Ok(Boundary::AgentBeforeSettle);
    }
    Err(SessionError::ContextEditInvalid(text::concat2("Unknown boundary: ", name)))
}

/// An entry that an extension wants to append.
#[allow(inconsistent_fields)]
#[derive(Debug, PartialEq)]
pub enum BoundaryDraft {
    /// Data of the extension.
    Custom { custom_type: String, data: Option<Json> },
    /// A message of the extension.
    CustomMessage {
        custom_type: String,
        content: CustomMessageContent,
        display: bool,
        details: Option<Json>,
    },
    /// Something else in place of an entry, or nothing.
    ContextEdit { target_id: String, replacement: Option<Json> },
    /// A summary in place of what was before.
    Compaction {
        summary: String,
        first_kept_entry_id: Option<String>,
        details: Option<Json>,
        usage: Option<Usage>,
    },
}

/// What the storage is asked to append.
#[allow(inconsistent_fields)]
#[derive(Debug, PartialEq)]
pub enum DraftTask {
    CustomEntry { custom_type: String, data: Option<Json> },
    CustomMessageEntry {
        custom_type: String,
        content: CustomMessageContent,
        display: bool,
        details: Option<Json>,
    },
    ContextEdit { target_id: String, replacement: Option<Json> },
    Compaction {
        summary: String,
        first_kept_entry_id: Option<String>,
        tokens_before: i64,
        details: Option<Json>,
        from_hook: Option<bool>,
        usage: Option<Usage>,
    },
}

/// What the storage is asked to append for a draft. `context_tokens` is the estimate for the context
/// before it. A compaction of an extension is marked as such.
pub open spec fn draft_task(draft: BoundaryDraft, context_tokens: u64) -> DraftTask {
    match draft {
        BoundaryDraft::Custom { custom_type, data } => DraftTask::CustomEntry { custom_type, data },
        BoundaryDraft::CustomMessage { custom_type, content, display, details } =>
            DraftTask::CustomMessageEntry { custom_type, content, display, details },
        BoundaryDraft::ContextEdit { target_id, replacement } => DraftTask::ContextEdit {
            target_id,
            replacement,
        },
        BoundaryDraft::Compaction { summary, first_kept_entry_id, details, usage } =>
            DraftTask::Compaction {
            summary,
            first_kept_entry_id,
            tokens_before: if context_tokens <= i64::MAX {
                context_tokens as i64
            } else {
                i64::MAX
            },
            details,
            from_hook: Some(true),
            usage,
        },
    }
}

/// What the storage is asked to append for a draft.
pub fn append_draft(draft: BoundaryDraft, context_tokens: u64) -> (r: DraftTask)
    ensures
        r == draft_task(draft, context_tokens),
{
    match draft {
        BoundaryDraft::Custom { custom_type, data } => DraftTask::CustomEntry { custom_type, data },
        BoundaryDraft::CustomMessage { custom_type, content, display, details } =>
            DraftTask::CustomMessageEntry { custom_type, content, display, details },
        BoundaryDraft::ContextEdit { target_id, replacement } => DraftTask::ContextEdit {
            target_id,
            replacement,
        },
        BoundaryDraft::Compaction { summary, first_kept_entry_id, details, usage } => {
            let tokens_before: i64 = if context_tokens <= i64::MAX as u64 {
                context_tokens as i64
            } else {
                i64::MAX
            };
            DraftTask::Compaction {
                summary,
                first_kept_entry_id,
                tokens_before,
                details,
                from_hook: Some(true),
                usage,
            }
        },
    }
}

/// Whether the last message is an answer.
pub open spec fn answer_is_last(context: Seq<Message>) -> bool {
    context.len() > 0 && context.last() is Assistant
}

/// Whether a context can be sent to the model: it has more than system messages, and its last
/// message is no answer.
pub open spec fn context_runs(context: Seq<Message>) -> bool {
    (exists|i: int| 0 <= i < context.len() && #[trigger] context[i] !is System)
        && !answer_is_last(context)
}

/// Whether the run can go on at a boundary: the context can be sent, a custom message waits for the
/// boundary, or a message is queued. Before the session settles queued messages count only behind an
/// answer.
pub open spec fn can_continue(s: SessionModel, boundary: Boundary, context: Seq<Message>) -> bool {
    ||| context_runs(context)
    ||| s.pending_custom.len() > 0
    ||| s.agent.has_queued() && (boundary == Boundary::TurnEnd || answer_is_last(context))
}

/// The messages that wait: those of the agent's queues, and the custom ones.
pub open spec fn waiting_messages(s: SessionModel) -> Seq<AgentMessage> {
    s.agent.steering_queue + s.agent.follow_up_queue + s.pending_custom
}

/// Where a run stands at a boundary.
#[derive(Debug, PartialEq)]
pub struct BoundaryPreviewState {
    pub can_continue: bool,
    pub pending_messages: Vec<AgentMessage>,
}

fn has_content(context: &Vec<Message>) -> (r: bool)
    ensures
        r == exists|i: int| 0 <= i < context@.len() && #[trigger] context@[i] !is System,
{
    let n: usize = context.len();
    let mut i: usize = 0;
    while i < n
        invariant
            n == context@.len(),
            i <= n,
            forall|j: int| 0 <= j < i ==> #[trigger] context@[j] is System,
        decreases n - i,
    {
        match &context[i] {
            Message::System(_) => {},
            _ => {
                assert(context@[i as int] !is System);
                return true;
            },
        }
        i += 1;
    }
    false
}

/// The last assistant message among the entries, -1 where there is none.
pub open spec fn last_answer_entry(branch: Seq<SessionEntry>) -> int
    decreases branch.len(),
{
    if branch.len() == 0 {
        -1
    } else if branch.last() matches SessionEntry::Message(m) && m.message matches AgentMessage::Llm(
        Message::Assistant(_),
    ) {
        branch.len() - 1
    } else {
        last_answer_entry(branch.drop_last())
    }
}

/// Whether an entry holds the result of a tool call.
pub open spec fn holds_result(entry: SessionEntry, call: Seq<char>) -> bool {
    entry matches SessionEntry::Message(m) && m.message matches AgentMessage::Llm(
        Message::ToolResult(t),
    ) && t.tool_call_id@ == call
}

/// The id of an entry that holds a message.
pub open spec fn message_entry_id(entry: SessionEntry) -> String {
    match entry {
        SessionEntry::Message(m) => m.id,
        SessionEntry::Compaction(c) => c.id,
        SessionEntry::BranchSummary(b) => b.id,
        SessionEntry::Other { id, .. } => id,
    }
}

/// The id of the last entry behind `after` that holds the result of a tool call.
pub open spec fn result_entry(branch: Seq<SessionEntry>, after: int, call: Seq<char>) -> Option<
    String,
>
    decreases branch.len(),
{
    if branch.len() == 0 || branch.len() - 1 <= after {
        None
    } else if holds_result(branch.last(), call) {
        Some(message_entry_id(branch.last()))
    } else {
        result_entry(branch.drop_last(), after, call)
    }
}

/// The ids of the entries of the results, in the order of the results. A result that is not stored
/// has none.
pub open spec fn result_entries(
    branch: Seq<SessionEntry>,
    after: int,
    results: Seq<ToolResultMessage>,
) -> Seq<String>
    decreases results.len(),
{
    if results.len() == 0 {
        seq![]
    } else {
        let before = result_entries(branch, after, results.drop_last());
        match result_entry(branch, after, results.last().tool_call_id@) {
            Some(id) => before.push(id),
            None => before,
        }
    }
}

fn find_last_answer(branch: &Vec<SessionEntry>) -> (r: Option<usize>)
    ensures
        match r {
            Some(i) => i < branch@.len() && last_answer_entry(branch@) == i && branch@[i as int] is Message,
            None => last_answer_entry(branch@) == -1,
        },
{
    let mut i: usize = branch.len();
    assert(branch@.take(i as int) =~= branch@);
    while i > 0
        invariant
            i <= branch@.len(),
            last_answer_entry(branch@) == last_answer_entry(branch@.take(i as int)),
        decreases i,
    {
        i -= 1;
        assert(branch@.take(i + 1).drop_last() =~= branch@.take(i as int));
        assert(branch@.take(i + 1).last() == branch@[i as int]);
        if let SessionEntry::Message(entry) = &branch[i] {
            if let AgentMessage::Llm(Message::Assistant(_)) = &entry.message {
                return Some(i);
            }
        }
    }
    None
}

/// The id of the last entry from `from` on that holds the result of a tool call.
fn find_result(branch: &Vec<SessionEntry>, from: usize, call: &str) -> (r: Option<String>)
    ensures
        r == result_entry(branch@, from - 1, call@),
{
    let mut i: usize = branch.len();
    assert(branch@.take(i as int) =~= branch@);
    while i > from
        invariant
            i <= branch@.len(),
            result_entry(branch@, from - 1, call@) == result_entry(
                branch@.take(i as int),
                from - 1,
                call@,
            ),
        decreases i,
    {
        i -= 1;
        assert(branch@.take(i + 1).drop_last() =~= branch@.take(i as int));
        assert(branch@.take(i + 1).last() == branch@[i as int]);
        if let SessionEntry::Message(entry) = &branch[i] {
            if let AgentMessage::Llm(Message::ToolResult(result)) = &entry.message {
                if text::same_text(result.tool_call_id.as_str(), call) {
                    return Some(entry.id.clone());
                }
            }
        }
    }
    None
}

/// The ids of the entries of a turn that ended: that of its answer, the last of the branch, and
/// those of its tool results, which come behind it.
pub fn persisted_turn_ids(branch: &Vec<SessionEntry>, results: &Vec<ToolResultMessage>) -> (r: (
    Option<String>,
    Vec<String>,
))
    ensures
        r.0 == if last_answer_entry(branch@) >= 0 {
            Some(message_entry_id(branch@[last_answer_entry(branch@)]))
        } else {
            None
        },
        r.1@ == result_entries(branch@, last_answer_entry(branch@), results@),
{
    let found = find_last_answer(branch);
    let length: usize = branch.len();
    let (message_id, from): (Option<String>, usize) = match found {
        Some(i) => match &branch[i] {
            SessionEntry::Message(entry) => (Some(entry.id.clone()), i + 1),
            _ => (None, i + 1),
        },
        None => (None, 0),
    };
    let n: usize = results.len();
    let mut ids: Vec<String> = Vec::new();
    let mut i: usize = 0;
    while i < n
        invariant
            n == results@.len(),
            i <= n,
            from - 1 == last_answer_entry(branch@),
            ids@ == result_entries(branch@, from - 1, results@.take(i as int)),
        decreases n - i,
    {
        assert(results@.take(i + 1).drop_last() =~= results@.take(i as int));
        if let Some(id) = find_result(branch, from, results[i].tool_call_id.as_str()) {
            ids.push(id);
        }
        i += 1;
    }
    assert(results@.take(n as int) =~= results@);
    (message_id, ids)
}

/// What is to be done next at a boundary.
#[derive(Debug, PartialEq)]
pub enum BoundaryStep {
    /// It is looked where the run stands.
    Preview,
    /// The extensions are asked what they want to append, and whether to go on.
    Ask,
    /// It is looked where the run would stand with what they want to append.
    CheckDrafts,
    /// What they want to append is appended, all of it.
    Commit,
    /// It is looked again where the run stands.
    PreviewAgain,
    /// The boundary is over: whether the run goes on.
    Done(Result<bool, SessionError>),
}

/// What came of a step.
#[derive(Debug, PartialEq)]
pub enum BoundaryReply {
    /// Whether the run can go on.
    Previewed(Result<bool, SessionError>),
    /// Whether the extensions want to go on, where they say so.
    Answered(Result<Option<bool>, ExtensionRunnerError>),
    /// Why the drafts are not valid, where they are not.
    DraftsChecked(Result<(), String>),
    Committed(Result<(), SessionError>),
}

/// A boundary in progress.
#[derive(Debug, PartialEq)]
pub struct BoundaryDispatch {
    pub boundary: Boundary,
    /// Whether the extensions asked for the run to go on.
    pub continue_after: bool,
    pub step: BoundaryStep,
}

/// The step that follows. A reply that is not one to the step changes nothing.
pub open spec fn boundary_step(d: BoundaryDispatch, reply: BoundaryReply) -> BoundaryStep {
    match (d.step, reply) {
        (BoundaryStep::Preview, BoundaryReply::Previewed(Ok(_))) => BoundaryStep::Ask,
        (BoundaryStep::Preview, BoundaryReply::Previewed(Err(e))) => BoundaryStep::Done(Err(e)),
        (BoundaryStep::Ask, BoundaryReply::Answered(Ok(_))) => BoundaryStep::CheckDrafts,
        (BoundaryStep::Ask, BoundaryReply::Answered(Err(_))) => BoundaryStep::Done(Ok(false)),
        (BoundaryStep::CheckDrafts, BoundaryReply::DraftsChecked(Ok(_))) => BoundaryStep::Commit,
        (BoundaryStep::CheckDrafts, BoundaryReply::DraftsChecked(Err(_))) => BoundaryStep::Done(
            Ok(false),
        ),
        (BoundaryStep::Commit, BoundaryReply::Committed(Ok(_))) => if d.continue_after {
            BoundaryStep::PreviewAgain
        } else {
            BoundaryStep::Done(Ok(false))
        },
        (BoundaryStep::Commit, BoundaryReply::Committed(Err(e))) => BoundaryStep::Done(Err(e)),
        (BoundaryStep::PreviewAgain, BoundaryReply::Previewed(Ok(runs))) => BoundaryStep::Done(
            Ok(runs),
        ),
        (BoundaryStep::PreviewAgain, BoundaryReply::Previewed(Err(e))) => BoundaryStep::Done(
            Err(e),
        ),
        (step, _) => step,
    }
}

/// A boundary after a reply.
pub open spec fn boundary_next(d: BoundaryDispatch, reply: BoundaryReply) -> BoundaryDispatch {
    BoundaryDispatch {
        boundary: d.boundary,
        continue_after: match (d.step, reply) {
            (BoundaryStep::Ask, BoundaryReply::Answered(Ok(wanted))) => wanted == Some(true),
            _ => d.continue_after,
        },
        step: boundary_step(d, reply),
    }
}

/// What the extension runner is told after a reply: that the extensions failed, that their drafts
/// are not valid, or that they asked to go on where the run cannot.
pub open spec fn boundary_report(d: BoundaryDispatch, reply: BoundaryReply) -> Option<Seq<char>> {
    match (d.step, reply) {
        (BoundaryStep::Ask, BoundaryReply::Answered(Err(e))) => Some(e.text()),
        (BoundaryStep::CheckDrafts, BoundaryReply::DraftsChecked(Err(e))) => Some(
            "Invalid boundary entries: "@ + e@,
        ),
        (BoundaryStep::PreviewAgain, BoundaryReply::Previewed(Ok(false))) => Some(
            d.boundary.name() + " requested continuation without runnable model context"@,
        ),
        _ => None,
    }
}

/// A boundary asks the run to go on just where the extensions asked for it, their drafts were valid
/// and are stored, and the run can go on. Replies are those to each step in turn.
pub proof fn law_boundary_continues_only_as_asked(
    d: BoundaryDispatch,
    previewed: BoundaryReply,
    answered: BoundaryReply,
    checked: BoundaryReply,
    committed: BoundaryReply,
    again: BoundaryReply,
)
    requires
        d.step == BoundaryStep::Preview,
        previewed is Previewed,
        answered is Answered,
        checked is DraftsChecked,
        committed is Committed,
        again is Previewed,
    ensures
        ({
            let end = boundary_next(
                boundary_next(
                    boundary_next(
                        boundary_next(boundary_next(d, previewed), answered),
                        checked,
                    ),
                    committed,
                ),
                again,
            );
            &&& end.step is Done
            &&& end.step == BoundaryStep::Done(Ok(true)) <==> {
                &&& previewed->Previewed_0 is Ok
                &&& answered->Answered_0 == Ok::<Option<bool>, ExtensionRunnerError>(Some(true))
                &&& checked->DraftsChecked_0 is Ok
                &&& committed->Committed_0 is Ok
                &&& again->Previewed_0 == Ok::<bool, SessionError>(true)
            }
        }),
{
}

/// How the last activity ended, by why the answer ended.
pub open spec fn outcome_of(reason: StopReason) -> ActivityOutcome {
    match reason {
        StopReason::Aborted => ActivityOutcome::Aborted,
        StopReason::Error => ActivityOutcome::Error,
        _ => ActivityOutcome::Completed,
    }
}

/// The wire name of an outcome.
pub open spec fn outcome_name(outcome: ActivityOutcome) -> Seq<char> {
    match outcome {
        ActivityOutcome::Aborted => "aborted"@,
        ActivityOutcome::Error => "error"@,
        ActivityOutcome::Completed => "completed"@,
    }
}

/// The wire name of an outcome.
pub fn outcome_str(outcome: ActivityOutcome) -> (r: &'static str)
    ensures
        r@ == outcome_name(outcome),
{
    match outcome {
        ActivityOutcome::Aborted => "aborted",
        ActivityOutcome::Error => "error",
        ActivityOutcome::Completed => "completed",
    }
}

/// A session at the end of a turn.
pub open spec fn turn_ended(s: SessionModel, reason: StopReason) -> SessionModel {
    SessionModel {
        lifecycle: SessionLifecycle { last_activity_outcome: outcome_of(reason), ..s.lifecycle },
        counters: SessionCounters {
            boundary_turn_index: (s.counters.boundary_turn_index + 1) as u64,
            ..s.counters
        },
        ..s
    }
}

/// What is known of the messages of a run that a boundary waits for.
#[derive(Clone, Copy, Debug, PartialEq, Eq, Structural)]
pub enum MessageWait {
    /// The storage failed, so they are not waited for.
    Failed,
    /// They are processed.
    Reached,
    /// They are still to be processed.
    Waiting,
    /// The wait for them was cancelled.
    Cancelled,
}

/// What the boundary at the end of a turn waits for.
#[derive(Debug, PartialEq)]
pub enum TurnStep {
    /// The messages of the turn, which are to be processed first.
    WaitMessages,
    /// The ids of the entries that the turn is stored as.
    FindEntries,
    /// The extensions, with these ids.
    Dispatch { message_entry_id: String, tool_result_entry_ids: Vec<String> },
    /// Nothing: whether the run goes on, or why it ends.
    Done(Result<bool, AgentLoopError>),
}

/// The boundary at the end of a turn.
#[derive(Debug, PartialEq)]
pub struct TurnBoundary {
    /// How the turn ended.
    pub outcome: ActivityOutcome,
    /// The number of the turn.
    pub turn_index: u64,
    pub step: TurnStep,
}

/// What the boundary at the end of a turn waited for.
#[allow(inconsistent_fields)]
#[derive(Debug, PartialEq)]
pub enum TurnReply {
    /// What is known of the messages of the turn.
    Waited(MessageWait),
    /// The ids of the answer and of the tool results, as far as they are stored.
    EntriesFound { message: Option<String>, tool_results: Vec<String> },
    /// What came of the boundary; a failure of the storage also in words.
    Dispatched { result: Result<bool, SessionError>, message: String },
}

/// The first step of the boundary at the end of a turn: none is held where no extension wants to
/// know.
pub open spec fn turn_start(has_handlers: bool) -> TurnStep {
    if has_handlers {
        TurnStep::WaitMessages
    } else {
        TurnStep::Done(Ok(false))
    }
}

/// The step after a reply. The boundary is held once the messages of the turn are processed and the
/// answer is stored; it is not where the wait fails or is cancelled, nor where the answer's entry is
/// missing. A reply to something else changes nothing.
pub open spec fn turn_next(step: TurnStep, reply: TurnReply) -> TurnStep {
    match (step, reply) {
        (TurnStep::WaitMessages, TurnReply::Waited(wait)) => match wait {
            MessageWait::Reached => TurnStep::FindEntries,
            MessageWait::Waiting => TurnStep::WaitMessages,
            MessageWait::Failed => TurnStep::Done(Ok(false)),
            MessageWait::Cancelled => TurnStep::Done(Ok(false)),
        },
        (TurnStep::FindEntries, TurnReply::EntriesFound { message, tool_results }) =>
            match message {
                Some(id) => TurnStep::Dispatch {
                    message_entry_id: id,
                    tool_result_entry_ids: tool_results,
                },
                None => TurnStep::Done(Ok(false)),
            },
        (TurnStep::Dispatch { .. }, TurnReply::Dispatched { result, message }) => match result {
            Ok(go_on) => TurnStep::Done(Ok(go_on)),
            Err(_) => TurnStep::Done(Err(AgentLoopError::Message(message))),
        },
        (step, _) => step,
    }
}

/// What a reply changes of the session: the runner is told of a missing entry, and a failure of the
/// storage is recorded and ends the run.
pub open spec fn turn_session(
    s: SessionModel,
    t: SessionModel,
    step: TurnStep,
    reply: TurnReply,
) -> bool {
    match (step, reply) {
        (TurnStep::FindEntries, TurnReply::EntriesFound { message: None, .. }) =>
            prompt::runner_told(
            s,
            t,
            "turn_end could not resolve the persisted assistant entry ID"@,
        ),
        (TurnStep::Dispatch { .. }, TurnReply::Dispatched { result: Err(error), .. }) => t == (
        SessionModel {
            error: match s.error {
                Some(e) => Some(e),
                None => Some(error),
            },
            ..s
        }).put(Effect::AbortAgent),
        _ => t == s,
    }
}

/// The steps after a run of replies.
pub open spec fn turn_run(step: TurnStep, replies: Seq<TurnReply>) -> TurnStep
    decreases replies.len(),
{
    if replies.len() == 0 {
        step
    } else {
        turn_next(turn_run(step, replies.drop_last()), replies.last())
    }
}

/// The reply says that the messages of the turn are processed.
pub open spec fn is_reached(reply: TurnReply) -> bool {
    reply == TurnReply::Waited(MessageWait::Reached)
}

/// The reply names the entry of the turn's answer.
pub open spec fn names_entry(reply: TurnReply) -> bool {
    reply matches TurnReply::EntriesFound { message: Some(_), .. }
}

/// Whatever the replies are, extensions are asked at the end of a turn only where one wants to know,
/// the messages of the turn were processed, and the entry of its answer was found; and the run goes
/// on only where they were asked.
pub proof fn law_turn_boundary_is_held_only_when_due(has_handlers: bool, replies: Seq<TurnReply>)
    ensures
        ({
            let step = turn_run(turn_start(has_handlers), replies);
            let due = {
                &&& has_handlers
                &&& exists|i: int| 0 <= i < replies.len() && is_reached(#[trigger] replies[i])
                &&& exists|i: int| 0 <= i < replies.len() && names_entry(#[trigger] replies[i])
            };
            &&& step is Dispatch ==> due
            &&& step matches TurnStep::Done(Ok(true)) ==> due
            &&& step matches TurnStep::Done(Err(_)) ==> due
            &&& step is FindEntries ==> has_handlers && exists|i: int|
                0 <= i < replies.len() && is_reached(#[trigger] replies[i])
            &&& !has_handlers ==> step == TurnStep::Done(Ok(false))
        }),
    decreases replies.len(),
{
    if replies.len() > 0 {
        let before = replies.drop_last();
        let last = replies.len() - 1;
        law_turn_boundary_is_held_only_when_due(has_handlers, before);
        if exists|i: int| 0 <= i < before.len() && is_reached(#[trigger] before[i]) {
            let i = choose|i: int| 0 <= i < before.len() && is_reached(#[trigger] before[i]);
            assert(is_reached(replies[i]));
        }
        if exists|i: int| 0 <= i < before.len() && names_entry(#[trigger] before[i]) {
            let i = choose|i: int| 0 <= i < before.len() && names_entry(#[trigger] before[i]);
            assert(names_entry(replies[i]));
        }
        if is_reached(replies.last()) {
            assert(is_reached(replies[last]));
        }
        if names_entry(replies.last()) {
            assert(names_entry(replies[last]));
        }
    }
}

/// What is to be done before the session settles.
#[derive(Clone, Copy, Debug, PartialEq, Eq, Structural)]
pub enum SettleStep {
    /// Nothing: whether the run goes on.
    Decided(bool),
    /// The extensions are asked.
    Dispatch,
    /// It is looked where the run stands.
    Preview,
}

/// The texts as a JSON array.
pub open spec fn is_text_array(value: Json, texts: Seq<String>) -> bool {
    value matches Json::Array(items) && items@ == texts.map_values(|t: String| Json::Text(t))
}

fn text_array(texts: &Vec<String>) -> (r: Json)
    ensures
        is_text_array(r, texts@),
{
    let n: usize = texts.len();
    let mut items: Vec<Json> = Vec::new();
    let mut i: usize = 0;
    while i < n
        invariant
            n == texts@.len(),
            i <= n,
            items@ == texts@.map_values(|t: String| Json::Text(t)).take(i as int),
        decreases n - i,
    {
        items.push(Json::Text(texts[i].clone()));
        assert(items@ =~= texts@.map_values(|t: String| Json::Text(t)).take(i + 1));
        i += 1;
    }
    assert(items@ =~= texts@.map_values(|t: String| Json::Text(t)));
    Json::Array(Arc::new(items))
}

/// A member of a payload with this key and this text.
pub open spec fn is_text_member(member: (Seq<char>, Json), key: Seq<char>, text: Seq<char>) -> bool {
    &&& member.0 == key
    &&& member.1 matches Json::Text(t)
    &&& t@ == text
}

/// What extensions are told at the end of a turn.
pub open spec fn is_turn_end_payload(
    members: Seq<(Seq<char>, Json)>,
    turn_index: u64,
    message: Json,
    tool_results: Json,
    message_entry_id: Seq<char>,
    tool_result_entry_ids: Seq<String>,
    outcome: ActivityOutcome,
) -> bool {
    &&& members.len() == 7
    &&& is_text_member(members[0], "type"@, "turn_end"@)
    &&& members[1] == ("turnIndex"@, Json::Integer(turn_index as i128))
    &&& members[2] == ("message"@, message)
    &&& members[3] == ("toolResults"@, tool_results)
    &&& is_text_member(members[4], "messageEntryId"@, message_entry_id)
    &&& members[5].0 == "toolResultEntryIds"@
    &&& is_text_array(members[5].1, tool_result_entry_ids)
    &&& is_text_member(members[6], "outcome"@, outcome_name(outcome))
}

/// What extensions are told at the end of a turn, where `message` and `tool_results` are those of the
/// turn as JSON.
pub fn turn_end_payload(
    turn_index: u64,
    message: Json,
    tool_results: Json,
    message_entry_id: &str,
    tool_result_entry_ids: &Vec<String>,
    outcome: ActivityOutcome,
) -> (r: Vec<(String, Json)>)
    ensures
        is_turn_end_payload(
            json::keyed(r@),
            turn_index,
            message,
            tool_results,
            message_entry_id@,
            tool_result_entry_ids@,
            outcome,
        ),
{
    let mut payload: Vec<(String, Json)> = Vec::new();
    json::push_member(&mut payload, "type", Json::Text("turn_end".to_owned()));
    json::push_member(&mut payload, "turnIndex", Json::Integer(turn_index as i128));
    json::push_member(&mut payload, "message", message);
    json::push_member(&mut payload, "toolResults", tool_results);
    json::push_member(&mut payload, "messageEntryId", Json::Text(message_entry_id.to_owned()));
    json::push_member(&mut payload, "toolResultEntryIds", text_array(tool_result_entry_ids));
    json::push_member(&mut payload, "outcome", Json::Text(outcome_str(outcome).to_owned()));
    payload
}

/// The context of a boundary as extensions see it, where the parts are given as JSON.
pub fn boundary_context(
    context_entries: Json,
    context_messages: Json,
    llm_messages: Json,
    pending_messages: Json,
    can_continue: bool,
) -> (r: Vec<(String, Json)>)
    ensures
        json::keyed(r@) == seq![
            ("contextEntries"@, context_entries),
            ("contextMessages"@, context_messages),
            ("llmMessages"@, llm_messages),
            ("pendingMessages"@, pending_messages),
            ("canContinue"@, Json::Bool(can_continue)),
        ],
{
    let mut context: Vec<(String, Json)> = Vec::new();
    assert(json::keyed(context@) =~= seq![]);
    json::push_member(&mut context, "contextEntries", context_entries);
    json::push_member(&mut context, "contextMessages", context_messages);
    json::push_member(&mut context, "llmMessages", llm_messages);
    json::push_member(&mut context, "pendingMessages", pending_messages);
    json::push_member(&mut context, "canContinue", Json::Bool(can_continue));
    assert(json::keyed(context@) =~= seq![
        ("contextEntries"@, context_entries),
        ("contextMessages"@, context_messages),
        ("llmMessages"@, llm_messages),
        ("pendingMessages"@, pending_messages),
        ("canContinue"@, Json::Bool(can_continue)),
    ]);
    context
}

/// Whether `members` ask extensions at a boundary: what they are told, no drafts yet, no wish to go
/// on, and the context.
pub open spec fn is_boundary_request(
    members: Seq<(Seq<char>, Json)>,
    payload: Seq<(Seq<char>, Json)>,
    context: Json,
) -> bool {
    let n = payload.len() as int;
    &&& members.len() == n + 3
    &&& members.take(n) == payload
    &&& members[n].0 == "entries"@
    &&& members[n].1 matches Json::Array(items)
    &&& items@.len() == 0
    &&& members[n + 1] == ("continue"@, Json::Bool(false))
    &&& members[n + 2] == ("context"@, context)
}

/// What extensions are asked at a boundary.
pub fn boundary_request(payload: Vec<(String, Json)>, context: Json) -> (r: Vec<(String, Json)>)
    ensures
        is_boundary_request(json::keyed(r@), json::keyed(payload@), context),
{
    let mut request = payload;
    json::push_member(&mut request, "entries", Json::Array(Arc::new(Vec::new())));
    json::push_member(&mut request, "continue", Json::Bool(false));
    json::push_member(&mut request, "context", context);
    assert(json::keyed(request@).take(payload@.len() as int) =~= json::keyed(payload@));
    request
}

/// What extensions are told before the session settles.
pub fn before_settle_payload(outcome: ActivityOutcome) -> (r: Vec<(String, Json)>)
    ensures
        json::keyed(r@).len() == 2,
        is_text_member(json::keyed(r@)[0], "type"@, "agent_before_settle"@),
        is_text_member(json::keyed(r@)[1], "outcome"@, outcome_name(outcome)),
{
    let mut payload: Vec<(String, Json)> = Vec::new();
    json::push_member(&mut payload, "type", Json::Text("agent_before_settle".to_owned()));
    json::push_member(&mut payload, "outcome", Json::Text(outcome_str(outcome).to_owned()));
    payload
}

/// A session to whose transcript a message was added, which is told.
pub open spec fn published(s: SessionModel, message: AgentMessage) -> SessionModel {
    SessionModel {
        agent: AgentModel { transcript: s.agent.transcript.push(message), ..s.agent },
        ..s
    }.put(Effect::Emit(AgentSessionEvent::MessageStart { message })).put(
        Effect::Emit(AgentSessionEvent::MessageEnd { message }),
    )
}

/// A session to whose transcript messages were added one after the other.
pub open spec fn all_published(s: SessionModel, messages: Seq<AgentMessage>) -> SessionModel
    decreases messages.len(),
{
    if messages.len() == 0 {
        s
    } else {
        published(all_published(s, messages.drop_last()), messages.last())
    }
}

/// Flushed messages join the transcript in the order in which they waited, each once.
pub proof fn law_flushed_messages_keep_their_order(s: SessionModel, messages: Seq<AgentMessage>)
    ensures
        all_published(s, messages).agent.transcript == s.agent.transcript + messages,
        all_published(s, messages).outbox.len() == s.outbox.len() + 2 * messages.len(),
        forall|i: int|
            0 <= i < messages.len() ==> #[trigger] all_published(s, messages).outbox[s.outbox.len()
                + 2 * i] == Effect::Emit(AgentSessionEvent::MessageStart { message: messages[i] }),
    decreases messages.len(),
{
    if messages.len() == 0 {
        assert(s.agent.transcript + messages =~= s.agent.transcript);
    } else {
        let before = all_published(s, messages.drop_last());
        law_flushed_messages_keep_their_order(s, messages.drop_last());
        assert(s.agent.transcript + messages =~= (s.agent.transcript + messages.drop_last()).push(
            messages.last(),
        ));
        assert forall|i: int| 0 <= i < messages.len() implies #[trigger] all_published(
            s,
            messages,
        ).outbox[s.outbox.len() + 2 * i] == Effect::Emit(
            AgentSessionEvent::MessageStart { message: messages[i] },
        ) by {
            if i < messages.len() - 1 {
                assert(before.outbox[s.outbox.len() + 2 * i] == Effect::Emit(
                    AgentSessionEvent::MessageStart { message: messages.drop_last()[i] },
                ));
            }
        }
    }
}

/// The effects that tell of appended entries.
pub open spec fn append_effects(entries: Seq<SessionEntry>) -> Seq<Effect> {
    entries.map_values(
        |e: SessionEntry| Effect::Emit(AgentSessionEvent::EntryAppended { entry: e }),
    )
}

impl AgentSession {
    /// Where the run stands at a boundary. `context` holds the messages for the model, as the
    /// session would have them.
    pub fn preview_boundary(&self, boundary: Boundary, context: &Vec<Message>) -> (r:
        BoundaryPreviewState)
        ensures
            r.can_continue == can_continue(self@, boundary, context@),
            r.pending_messages@ == waiting_messages(self@),
    {
        let n: usize = context.len();
        let assistant_tail = n > 0 && match &context[n - 1] {
            Message::Assistant(_) => true,
            _ => false,
        };
        let context_can_continue = has_content(context) && !assistant_tail;
        let has_pending_custom = !self.pending_custom_messages.is_empty();
        let mut pending_messages = messages::clone_messages(&self.agent.steering_queue);
        let mut follow_up = messages::clone_messages(&self.agent.follow_up_queue);
        let mut custom = messages::clone_messages(&self.pending_custom_messages);
        pending_messages.append(&mut follow_up);
        pending_messages.append(&mut custom);
        let can_continue = context_can_continue || has_pending_custom || (self.has_queued_messages()
            && (boundary == Boundary::TurnEnd || assistant_tail));
        BoundaryPreviewState { can_continue, pending_messages }
    }

    /// Begins a boundary.
    pub fn dispatch_boundary(boundary: Boundary) -> (r: BoundaryDispatch)
        ensures
            r == (BoundaryDispatch {
                boundary,
                continue_after: false,
                step: BoundaryStep::Preview,
            }),
    {
        BoundaryDispatch { boundary, continue_after: false, step: BoundaryStep::Preview }
    }

    /// Goes on after a step.
    pub fn advance_boundary(&mut self, dispatch: BoundaryDispatch, reply: BoundaryReply) -> (r:
        BoundaryDispatch)
        ensures
            r == boundary_next(dispatch, reply),
            match boundary_report(dispatch, reply) {
                Some(text) => prompt::runner_told(old(self)@, final(self)@, text),
                None => final(self)@ == old(self)@,
            },
    {
        let BoundaryDispatch { boundary, continue_after, step } = dispatch;
        match (step, reply) {
            (BoundaryStep::Ask, BoundaryReply::Answered(Ok(wanted))) => {
                let continue_after = match wanted {
                    Some(true) => true,
                    _ => false,
                };
                BoundaryDispatch { boundary, continue_after, step: BoundaryStep::CheckDrafts }
            },
            (BoundaryStep::Ask, BoundaryReply::Answered(Err(error))) => {
                self.outbox.push(Effect::RunnerError(error.message()));
                BoundaryDispatch { boundary, continue_after, step: BoundaryStep::Done(Ok(false)) }
            },
            (BoundaryStep::CheckDrafts, BoundaryReply::DraftsChecked(Err(error))) => {
                let message = text::concat2("Invalid boundary entries: ", error.as_str());
                self.outbox.push(Effect::RunnerError(message));
                BoundaryDispatch { boundary, continue_after, step: BoundaryStep::Done(Ok(false)) }
            },
            (BoundaryStep::PreviewAgain, BoundaryReply::Previewed(Ok(false))) => {
                let message = text::concat2(
                    boundary.as_str(),
                    " requested continuation without runnable model context",
                );
                self.outbox.push(Effect::RunnerError(message));
                BoundaryDispatch { boundary, continue_after, step: BoundaryStep::Done(Ok(false)) }
            },
            (step, reply) => {
                let ghost at = dispatch_at(boundary, continue_after, step);
                let step = plain_boundary_step(step, reply, continue_after);
                assert(step == boundary_step(at, reply));
                BoundaryDispatch { boundary, continue_after, step }
            },
        }
    }

    /// Takes what was appended at a boundary, and the messages of the context with it.
    pub fn commit_boundary_drafts(
        &mut self,
        appended: Vec<SessionEntry>,
        messages: Vec<AgentMessage>,
    )
        ensures
            final(self)@ == (SessionModel {
                agent: AgentModel { transcript: messages@, ..old(self)@.agent },
                outbox: old(self)@.outbox + append_effects(appended@),
                ..old(self)@
            }),
    {
        let ghost before = self@.outbox;
        self.agent.transcript = messages;
        let ghost taken = self@;
        let n: usize = appended.len();
        let mut i: usize = 0;
        assert(before + append_effects(appended@).take(0) =~= before);
        while i < n
            invariant
                n == appended@.len(),
                i <= n,
                self@ == (SessionModel {
                    outbox: before + append_effects(appended@).take(i as int),
                    ..taken
                }),
            decreases n - i,
        {
            self.outbox.push(
                Effect::Emit(AgentSessionEvent::EntryAppended { entry: appended[i].clone() }),
            );
            assert(self@.outbox =~= before + append_effects(appended@).take(i + 1));
            i += 1;
        }
        assert(append_effects(appended@).take(n as int) =~= append_effects(appended@));
    }

    /// Begins the boundary at the end of a turn: notes how the turn ended and counts it. Where no
    /// extension wants to know, the boundary is over.
    pub fn finish_turn_boundary(&mut self, stop_reason: StopReason, has_handlers: bool) -> (r:
        TurnBoundary)
        requires
            old(self)@.counters.boundary_turn_index < u64::MAX,
        ensures
            r == (TurnBoundary {
                outcome: outcome_of(stop_reason),
                turn_index: old(self)@.counters.boundary_turn_index,
                step: turn_start(has_handlers),
            }),
            final(self)@ == turn_ended(old(self)@, stop_reason),
    {
        let outcome = match stop_reason {
            StopReason::Aborted => ActivityOutcome::Aborted,
            StopReason::Error => ActivityOutcome::Error,
            _ => ActivityOutcome::Completed,
        };
        self.lifecycle.last_activity_outcome = outcome;
        let turn_index: u64 = self.counters.boundary_turn_index;
        self.counters.boundary_turn_index = turn_index + 1;
        let step = if has_handlers {
            TurnStep::WaitMessages
        } else {
            TurnStep::Done(Ok(false))
        };
        TurnBoundary { outcome, turn_index, step }
    }

    /// Goes on with the boundary at the end of a turn.
    pub fn advance_turn_boundary(&mut self, turn: TurnBoundary, reply: TurnReply) -> (r:
        TurnBoundary)
        ensures
            r == (TurnBoundary { step: turn_next(turn.step, reply), ..turn }),
            turn_session(old(self)@, final(self)@, turn.step, reply),
    {
        let TurnBoundary { outcome, turn_index, step } = turn;
        let step = match (step, reply) {
            (TurnStep::WaitMessages, TurnReply::Waited(wait)) => match wait {
                MessageWait::Reached => TurnStep::FindEntries,
                MessageWait::Waiting => TurnStep::WaitMessages,
                MessageWait::Failed => TurnStep::Done(Ok(false)),
                MessageWait::Cancelled => TurnStep::Done(Ok(false)),
            },
            (TurnStep::FindEntries, TurnReply::EntriesFound { message, tool_results }) =>
                match message {
                    Some(id) => TurnStep::Dispatch {
                        message_entry_id: id,
                        tool_result_entry_ids: tool_results,
                    },
                    None => {
                        self.outbox.push(
                            Effect::RunnerError(
                                "turn_end could not resolve the persisted assistant entry ID".to_owned(),
                            ),
                        );
                        TurnStep::Done(Ok(false))
                    },
                },
            (TurnStep::Dispatch { .. }, TurnReply::Dispatched { result, message }) => match result {
                Ok(go_on) => TurnStep::Done(Ok(go_on)),
                Err(error) => {
                    self.record_session_error(error);
                    self.outbox.push(Effect::AbortAgent);
                    TurnStep::Done(Err(AgentLoopError::Message(message)))
                },
            },
            (step, _) => step,
        };
        TurnBoundary { outcome, turn_index, step }
    }

    /// Begins the boundary before the session settles: nothing is asked after an abort, and without
    /// an extension that wants to know, queued messages decide.
    pub fn before_settle_boundary(&self, has_handlers: bool) -> (r: SettleStep)
        ensures
            r == if self@.lifecycle.boundary_abort_requested {
                SettleStep::Decided(false)
            } else if !has_handlers {
                SettleStep::Decided(self@.agent.has_queued())
            } else {
                SettleStep::Dispatch
            },
    {
        if self.lifecycle.boundary_abort_requested {
            return SettleStep::Decided(false);
        }
        if !has_handlers {
            return SettleStep::Decided(self.has_queued_messages());
        }
        SettleStep::Dispatch
    }

    /// Goes on once the custom messages that waited are stored.
    pub fn settle_boundary_flushed(&self) -> (r: SettleStep)
        ensures
            r == if self@.lifecycle.boundary_abort_requested {
                SettleStep::Decided(false)
            } else {
                SettleStep::Preview
            },
    {
        if self.lifecycle.boundary_abort_requested {
            SettleStep::Decided(false)
        } else {
            SettleStep::Preview
        }
    }

    /// Ends the boundary before the session settles: the run goes on where the extensions asked for
    /// it or messages are queued, and it can.
    pub fn settle_boundary_decided(&self, requested: bool, can_continue: bool) -> (r: bool)
        ensures
            r == ((requested || self@.agent.has_queued()) && can_continue),
    {
        (requested || self.has_queued_messages()) && can_continue
    }

    /// Takes the custom messages that wait for a boundary, to be stored one after the other.
    pub fn flush_pending_custom_messages(&mut self) -> (r: Vec<AgentMessage>)
        ensures
            r@ == old(self)@.pending_custom,
            final(self)@ == (SessionModel { pending_custom: seq![], ..old(self)@ }),
    {
        let mut taken: Vec<AgentMessage> = Vec::new();
        taken.append(&mut self.pending_custom_messages);
        taken
    }

    /// Takes the answer of the storage for a custom message that waited: only what is stored joins
    /// the transcript and is told.
    pub fn pending_custom_stored(
        &mut self,
        message: AgentMessage,
        stored: Result<(), SessionError>,
    ) -> (r: Result<(), SessionError>)
        ensures
            match stored {
                Ok(_) => r is Ok && final(self)@ == published(old(self)@, message),
                Err(error) => r == Err::<(), SessionError>(error) && final(self)@ == old(self)@,
            },
    {
        match stored {
            Err(error) => Err(error),
            Ok(_) => {
                self.agent.transcript.push(message.clone());
                self.emit_public(AgentSessionEvent::MessageStart { message: message.clone() });
                self.emit_public(AgentSessionEvent::MessageEnd { message });
                Ok(())
            },
        }
    }

    /// Counts the messages of a run from here on.
    pub fn begin_agent_run(&mut self)
        ensures
            final(self)@ == (SessionModel {
                counters: SessionCounters {
                    run_message_baseline: old(self)@.counters.processed_message_ends,
                    ..old(self)@.counters
                },
                ..old(self)@
            }),
    {
        self.counters.run_message_baseline = self.counters.processed_message_ends;
    }

    /// Whether `count` messages of the run are processed.
    pub fn wait_for_processed_messages(&self, count: u64) -> (r: MessageWait)
        requires
            self@.counters.run_message_baseline <= self@.counters.processed_message_ends,
        ensures
            r == if self@.error is Some {
                MessageWait::Failed
            } else if self@.counters.processed_message_ends - self@.counters.run_message_baseline
                >= count {
                MessageWait::Reached
            } else {
                MessageWait::Waiting
            },
    {
        if self.pending_session_error.is_some() {
            return MessageWait::Failed;
        }
        if self.counters.processed_message_ends - self.counters.run_message_baseline >= count {
            return MessageWait::Reached;
        }
        MessageWait::Waiting
    }
}

fn plain_boundary_step(step: BoundaryStep, reply: BoundaryReply, continue_after: bool) -> (r:
    BoundaryStep)
    ensures
        forall|boundary: Boundary|
            r == boundary_step(
                #[trigger] dispatch_at(boundary, continue_after, step),
                reply,
            ),
{
    match (step, reply) {
        (BoundaryStep::Preview, BoundaryReply::Previewed(Ok(_))) => BoundaryStep::Ask,
        (BoundaryStep::Preview, BoundaryReply::Previewed(Err(error))) => BoundaryStep::Done(
            Err(error),
        ),
        (BoundaryStep::Ask, BoundaryReply::Answered(Ok(_))) => BoundaryStep::CheckDrafts,
        (BoundaryStep::Ask, BoundaryReply::Answered(Err(_))) => BoundaryStep::Done(Ok(false)),
        (BoundaryStep::CheckDrafts, BoundaryReply::DraftsChecked(Ok(_))) => BoundaryStep::Commit,
        (BoundaryStep::CheckDrafts, BoundaryReply::DraftsChecked(Err(_))) => BoundaryStep::Done(
            Ok(false),
        ),
        (BoundaryStep::Commit, BoundaryReply::Committed(Ok(_))) => if continue_after {
            BoundaryStep::PreviewAgain
        } else {
            BoundaryStep::Done(Ok(false))
        },
        (BoundaryStep::Commit, BoundaryReply::Committed(Err(error))) => BoundaryStep::Done(
            Err(error),
        ),
        (BoundaryStep::PreviewAgain, BoundaryReply::Previewed(Ok(runs))) => BoundaryStep::Done(
            Ok(runs),
        ),
        (BoundaryStep::PreviewAgain, BoundaryReply::Previewed(Err(error))) => BoundaryStep::Done(
            Err(error),
        ),
        (step, _) => step,
    }
}

/// A boundary at a step.
pub open spec fn dispatch_at(
    boundary: Boundary,
    continue_after: bool,
    step: BoundaryStep,
) -> BoundaryDispatch {
    BoundaryDispatch { boundary, continue_after, step }
}

// ---------------------------------------------------------------------------
// What the operations promise
// ---------------------------------------------------------------------------

/// The two boundaries are named apart, and each is known by its name alone.
pub proof fn law_boundaries_are_named(
    boundary: Boundary,
    name: &'static str,
    raw: &str,
    r: Result<Boundary, SessionError>,
)
    requires
        call_ensures(Boundary::as_str, (boundary,), name),
        call_ensures(boundary_named, (raw,), r),
    ensures
        boundary == Boundary::TurnEnd ==> name@ == "turn_end"@,
        boundary == Boundary::AgentBeforeSettle ==> name@ == "agent_before_settle"@,
        r == Ok::<Boundary, SessionError>(boundary) <==> raw@ == name@,
        raw@ != "turn_end"@ && raw@ != "agent_before_settle"@ ==> (r matches Err(
            SessionError::ContextEditInvalid(m),
        ) && m@ == "Unknown boundary: "@ + raw@),
{
    reveal_strlit("turn_end");
    reveal_strlit("agent_before_settle");
    assert("turn_end"@.len() == 8 && "agent_before_settle"@.len() == 19);
}

/// What an extension wants to append is handed to the storage as it is; a compaction also gets the
/// tokens before it and the mark that an extension gave it.
pub proof fn law_drafts_are_appended_as_they_are(
    draft: BoundaryDraft,
    tokens: u64,
    task: DraftTask,
)
    requires
        call_ensures(append_draft, (draft, tokens), task),
    ensures
        draft matches BoundaryDraft::Custom { custom_type: a, data: b } ==> (task
            matches DraftTask::CustomEntry { custom_type: x, data: y } && x == a && y == b),
        draft matches BoundaryDraft::CustomMessage {
            custom_type: a,
            content: b,
            display: c,
            details: d,
        } ==> (task matches DraftTask::CustomMessageEntry {
            custom_type: w,
            content: x,
            display: y,
            details: z,
        } && w == a && x == b && y == c && z == d),
        draft matches BoundaryDraft::ContextEdit { target_id: a, replacement: b } ==> (task
            matches DraftTask::ContextEdit { target_id: x, replacement: y } && x == a && y == b),
        draft matches BoundaryDraft::Compaction {
            summary: a,
            first_kept_entry_id: b,
            details: c,
            usage: d,
        } ==> (task matches DraftTask::Compaction {
            summary: v,
            first_kept_entry_id: w,
            tokens_before,
            details: x,
            from_hook,
            usage: y,
        } && v == a && w == b && x == c && y == d && from_hook == Some(true) && (tokens <= i64::MAX
            ==> tokens_before == tokens) && (tokens > i64::MAX ==> tokens_before == i64::MAX)),
{
}

/// The run can go on where the context can be sent: it holds more than prompts and does not end with
/// an answer; or where a custom message waits; or a message is queued, before the session settles
/// only behind an answer. What waits is shown in the order in which it is taken.
pub proof fn law_a_run_goes_on_from_a_context_that_can_be_sent(
    session: &AgentSession,
    boundary: Boundary,
    context: &Vec<Message>,
    i: int,
    queued: bool,
    r: BoundaryPreviewState,
)
    requires
        call_ensures(AgentSession::preview_boundary, (session, boundary, context), r),
        call_ensures(AgentSession::has_queued_messages, (session,), queued),
    ensures
        r.pending_messages@ == session@.agent.steering_queue + session@.agent.follow_up_queue
            + session@.pending_custom,
        ({
            let answered = context@.len() > 0 && context@.last() is Assistant;
            let waits = session@.pending_custom.len() > 0;
            &&& waits ==> r.can_continue
            &&& queued && boundary == Boundary::TurnEnd ==> r.can_continue
            &&& queued && answered ==> r.can_continue
            &&& 0 <= i < context@.len() && !(context@[i] is System) && !answered ==> r.can_continue
            &&& answered && !waits && !queued ==> !r.can_continue
            &&& (forall|k: int| 0 <= k < context@.len() ==> #[trigger] context@[k] is System)
                && !waits && !queued ==> !r.can_continue
            &&& (forall|k: int| 0 <= k < context@.len() ==> #[trigger] context@[k] is System)
                && !waits && boundary == Boundary::AgentBeforeSettle ==> !r.can_continue
        }),
{
}

proof fn lemma_answer_entry_at(branch: Seq<SessionEntry>, i: int)
    requires
        0 <= i < branch.len(),
        branch[i] matches SessionEntry::Message(m) && m.message matches AgentMessage::Llm(
            Message::Assistant(_),
        ),
        forall|k: int|
            i < k < branch.len() ==> !(#[trigger] branch[k] matches SessionEntry::Message(m)
                && m.message matches AgentMessage::Llm(Message::Assistant(_))),
    ensures
        last_answer_entry(branch) == i,
    decreases branch.len(),
{
    if i < branch.len() - 1 {
        assert(!(branch[branch.len() - 1] matches SessionEntry::Message(m) && m.message
            matches AgentMessage::Llm(Message::Assistant(_))));
        lemma_answer_entry_at(branch.drop_last(), i);
    }
}

proof fn lemma_result_entry_at(branch: Seq<SessionEntry>, after: int, call: Seq<char>, j: int)
    requires
        after < j < branch.len(),
        -1 <= after,
        holds_result(branch[j], call),
        forall|k: int| j < k < branch.len() ==> !holds_result(#[trigger] branch[k], call),
    ensures
        result_entry(branch, after, call) == Some(message_entry_id(branch[j])),
    decreases branch.len(),
{
    if j < branch.len() - 1 {
        assert(!holds_result(branch[branch.len() - 1], call));
        lemma_result_entry_at(branch.drop_last(), after, call, j);
    }
}

proof fn lemma_result_entry_none(branch: Seq<SessionEntry>, after: int, call: Seq<char>)
    requires
        -1 <= after,
        forall|k: int| after < k < branch.len() ==> !holds_result(#[trigger] branch[k], call),
    ensures
        result_entry(branch, after, call) is None,
    decreases branch.len(),
{
    if branch.len() > 0 && branch.len() - 1 > after {
        assert(!holds_result(branch[branch.len() - 1], call));
        lemma_result_entry_none(branch.drop_last(), after, call);
    }
}

/// A turn is stored under the entry of the last answer of the branch.
pub proof fn law_a_turn_is_stored_under_its_answer(
    branch: &Vec<SessionEntry>,
    results: &Vec<ToolResultMessage>,
    i: int,
    r: (Option<String>, Vec<String>),
)
    requires
        call_ensures(persisted_turn_ids, (branch, results), r),
        0 <= i < branch@.len(),
        branch@[i] matches SessionEntry::Message(m) && m.message matches AgentMessage::Llm(
            Message::Assistant(_),
        ),
        forall|k: int|
            i < k < branch@.len() ==> !(#[trigger] branch@[k] matches SessionEntry::Message(m)
                && m.message matches AgentMessage::Llm(Message::Assistant(_))),
    ensures
        branch@[i] matches SessionEntry::Message(m) && r.0 == Some(m.id),
        results@.len() == 0 ==> r.1@.len() == 0,
{
    lemma_answer_entry_at(branch@, i);
}

/// The result of one more tool call adds the id of its entry behind the answer, the last one where
/// there are several, and nothing where it is not stored there.
pub proof fn law_each_result_adds_its_entry(
    branch: &Vec<SessionEntry>,
    results: &Vec<ToolResultMessage>,
    more: &Vec<ToolResultMessage>,
    i: int,
    j: int,
    short: (Option<String>, Vec<String>),
    long: (Option<String>, Vec<String>),
)
    requires
        call_ensures(persisted_turn_ids, (branch, results), short),
        call_ensures(persisted_turn_ids, (branch, more), long),
        more@.len() == results@.len() + 1,
        more@.drop_last() == results@,
        0 <= i < branch@.len(),
        branch@[i] matches SessionEntry::Message(m) && m.message matches AgentMessage::Llm(
            Message::Assistant(_),
        ),
        forall|k: int|
            i < k < branch@.len() ==> !(#[trigger] branch@[k] matches SessionEntry::Message(m)
                && m.message matches AgentMessage::Llm(Message::Assistant(_))),
    ensures
        long.0 == short.0,
        ({
            let call = more@.last().tool_call_id@;
            &&& (i < j < branch@.len() && (branch@[j] matches SessionEntry::Message(m) && m.message
                matches AgentMessage::Llm(Message::ToolResult(t)) && t.tool_call_id@ == call)
                && forall|k: int|
                j < k < branch@.len() ==> !(#[trigger] branch@[k] matches SessionEntry::Message(m)
                    && m.message matches AgentMessage::Llm(Message::ToolResult(t))
                    && t.tool_call_id@ == call)) ==> (branch@[j] matches SessionEntry::Message(m)
                && long.1@ == short.1@.push(m.id))
            &&& (forall|k: int|
                i < k < branch@.len() ==> !(#[trigger] branch@[k] matches SessionEntry::Message(m)
                    && m.message matches AgentMessage::Llm(Message::ToolResult(t))
                    && t.tool_call_id@ == call)) ==> long.1@ == short.1@
        }),
{
    lemma_answer_entry_at(branch@, i);
    let call = more@.last().tool_call_id@;
    if i < j < branch@.len() && holds_result(branch@[j], call) && forall|k: int|
        j < k < branch@.len() ==> !holds_result(#[trigger] branch@[k], call) {
        lemma_result_entry_at(branch@, i, call, j);
    }
    if forall|k: int| i < k < branch@.len() ==> !holds_result(#[trigger] branch@[k], call) {
        lemma_result_entry_none(branch@, i, call);
    }
}

/// A boundary begins with a look at where the run stands, and nobody has asked to go on.
pub proof fn law_a_boundary_begins_with_a_look(boundary: Boundary, d: BoundaryDispatch)
    requires
        call_ensures(AgentSession::dispatch_boundary, (boundary,), d),
    ensures
        d.step is Preview,
        !d.continue_after,
        d.boundary == boundary,
{
}

/// The steps of a boundary: behind a look the extensions are asked, behind their answer the drafts
/// are checked, behind the check they are stored, and where the extensions asked to go on it is
/// looked again. Only then may the run go on, and a look that fails or a storage that fails is told.
pub proof fn law_the_steps_of_a_boundary(
    session: &mut AgentSession,
    d: BoundaryDispatch,
    reply: BoundaryReply,
    r: BoundaryDispatch,
)
    requires
        call_ensures(AgentSession::advance_boundary, (session, d, reply), r),
    ensures
        r.boundary == d.boundary,
        d.step is Preview ==> {
            &&& reply matches BoundaryReply::Previewed(Ok(_)) ==> r.step is Ask
            &&& reply matches BoundaryReply::Previewed(Err(e)) ==> r.step == BoundaryStep::Done(
                Err(e),
            )
        },
        d.step is Ask ==> {
            &&& reply matches BoundaryReply::Answered(Ok(wanted)) ==> r.step is CheckDrafts && (
            r.continue_after <==> wanted == Some(true))
            &&& reply matches BoundaryReply::Answered(Err(_)) ==> r.step == BoundaryStep::Done(
                Ok(false),
            )
        },
        !(d.step is Ask) ==> r.continue_after == d.continue_after,
        d.step is CheckDrafts ==> {
            &&& reply matches BoundaryReply::DraftsChecked(Ok(_)) ==> r.step is Commit
            &&& reply matches BoundaryReply::DraftsChecked(Err(_)) ==> r.step == BoundaryStep::Done(
                Ok(false),
            )
        },
        d.step is Commit ==> {
            &&& reply matches BoundaryReply::Committed(Ok(_)) ==> (if d.continue_after {
                r.step is PreviewAgain
            } else {
                r.step == BoundaryStep::Done(Ok(false))
            })
            &&& reply matches BoundaryReply::Committed(Err(e)) ==> r.step == BoundaryStep::Done(
                Err(e),
            )
        },
        d.step is PreviewAgain ==> {
            &&& reply matches BoundaryReply::Previewed(Ok(runs)) ==> r.step == BoundaryStep::Done(
                Ok(runs),
            )
            &&& reply matches BoundaryReply::Previewed(Err(e)) ==> r.step == BoundaryStep::Done(
                Err(e),
            )
        },
        d.step is Done ==> r == d,
        final(session)@.agent == old(session)@.agent,
{
}

/// What goes wrong with the extensions at a boundary is reported, once: their failure, drafts that are
/// not valid, and a wish to go on where the run cannot. Nothing else is.
pub proof fn law_what_goes_wrong_at_a_boundary_is_reported(
    session: &mut AgentSession,
    d: BoundaryDispatch,
    reply: BoundaryReply,
    r: BoundaryDispatch,
)
    requires
        call_ensures(AgentSession::advance_boundary, (session, d, reply), r),
    ensures
        ({
            let s = old(session)@;
            let t = final(session)@;
            let told = t.outbox.len() == s.outbox.len() + 1 && t.outbox.drop_last() == s.outbox;
            let failed = d.step is Ask && (reply matches BoundaryReply::Answered(Err(_)));
            let invalid = d.step is CheckDrafts && (reply matches BoundaryReply::DraftsChecked(
                Err(_),
            ));
            let stuck = d.step is PreviewAgain && reply == BoundaryReply::Previewed(Ok(false));
            &&& failed ==> told && (reply matches BoundaryReply::Answered(Err(e)) && (t.outbox.last()
                matches Effect::RunnerError(m) && m@ == e.text()))
            &&& invalid ==> told && (reply matches BoundaryReply::DraftsChecked(Err(e)) && (
            t.outbox.last() matches Effect::RunnerError(m) && m@ == "Invalid boundary entries: "@
                + e@))
            &&& stuck && d.boundary == Boundary::TurnEnd ==> told && (t.outbox.last()
                matches Effect::RunnerError(m) && m@ == "turn_end"@
                + " requested continuation without runnable model context"@)
            &&& stuck && d.boundary == Boundary::AgentBeforeSettle ==> told && (t.outbox.last()
                matches Effect::RunnerError(m) && m@ == "agent_before_settle"@
                + " requested continuation without runnable model context"@)
            &&& !failed && !invalid && !stuck ==> t == s
        }),
{
    let s = old(session)@;
    let t = final(session)@;
    if t.outbox.len() == s.outbox.len() + 1 {
        assert(t.outbox.drop_last() =~= s.outbox);
    }
}

/// What was appended at a boundary is told, each entry once and in order, and the transcript is what
/// the context then holds.
pub proof fn law_appended_entries_are_told_in_order(
    session: &mut AgentSession,
    appended: Vec<SessionEntry>,
    transcript: Vec<AgentMessage>,
    i: int,
    done: (),
)
    requires
        call_ensures(
            AgentSession::commit_boundary_drafts,
            (session, appended, transcript),
            done,
        ),
    ensures
        final(session)@.agent.transcript == transcript@,
        final(session)@.outbox.len() == old(session)@.outbox.len() + appended@.len(),
        final(session)@.outbox.take(old(session)@.outbox.len() as int) == old(session)@.outbox,
        0 <= i < appended@.len() ==> final(session)@.outbox[old(session)@.outbox.len() + i]
            == Effect::Emit(AgentSessionEvent::EntryAppended { entry: appended@[i] }),
        final(session)@.pending_custom == old(session)@.pending_custom,
{
    assert(final(session)@.outbox.take(old(session)@.outbox.len() as int) =~= old(session)@.outbox);
}

/// The end of a turn is noted: how it ended, under its number, and the number counts on. The boundary
/// waits for the messages of the turn where an extension wants to know, and is over where none does.
pub proof fn law_the_end_of_a_turn_is_noted(
    session: &mut AgentSession,
    reason: StopReason,
    handlers: bool,
    turn: TurnBoundary,
)
    requires
        call_ensures(AgentSession::finish_turn_boundary, (session, reason, handlers), turn),
        old(session)@.counters.boundary_turn_index < u64::MAX,
    ensures
        turn.turn_index == old(session)@.counters.boundary_turn_index,
        final(session)@.counters.boundary_turn_index == turn.turn_index + 1,
        turn.outcome == final(session)@.lifecycle.last_activity_outcome,
        reason == StopReason::Aborted <==> turn.outcome == ActivityOutcome::Aborted,
        reason == StopReason::Error <==> turn.outcome == ActivityOutcome::Error,
        handlers ==> turn.step is WaitMessages,
        !handlers ==> turn.step == TurnStep::Done(Ok(false)),
        final(session)@.outbox == old(session)@.outbox,
        final(session)@.agent == old(session)@.agent,
{
}

/// The steps at the end of a turn: its messages are waited for; once they are processed the entries
/// are looked up; with the entry of the answer the extensions are asked, and their word on going on
/// counts. A wait that failed or was cancelled, and a missing entry, end it without going on; a
/// storage that failed ends the run.
pub proof fn law_the_steps_at_the_end_of_a_turn(
    session: &mut AgentSession,
    turn: TurnBoundary,
    reply: TurnReply,
    r: TurnBoundary,
)
    requires
        call_ensures(AgentSession::advance_turn_boundary, (session, turn, reply), r),
    ensures
        r.outcome == turn.outcome && r.turn_index == turn.turn_index,
        turn.step is WaitMessages ==> {
            &&& reply == TurnReply::Waited(MessageWait::Reached) ==> r.step is FindEntries
            &&& reply == TurnReply::Waited(MessageWait::Waiting) ==> r.step is WaitMessages
            &&& reply == TurnReply::Waited(MessageWait::Failed) || reply == TurnReply::Waited(
                MessageWait::Cancelled,
            ) ==> r.step == TurnStep::Done(Ok(false))
            &&& final(session)@ == old(session)@
        },
        turn.step is FindEntries ==> (reply matches TurnReply::EntriesFound { message, tool_results }
            ==> {
            &&& message is Some ==> final(session)@ == old(session)@ && (r.step
                matches TurnStep::Dispatch { message_entry_id, tool_result_entry_ids }
                && message_entry_id == message->0 && tool_result_entry_ids == tool_results)
            &&& message is None ==> r.step == TurnStep::Done(Ok(false)) && final(session)@.outbox.len() == old(session)@.outbox.len() + 1 && (final(session)@.outbox.last()
                matches Effect::RunnerError(m) && m@
                == "turn_end could not resolve the persisted assistant entry ID"@)
        }),
        turn.step is Dispatch ==> (reply matches TurnReply::Dispatched { result, message } ==> {
            &&& result matches Ok(go_on) ==> r.step == TurnStep::Done(Ok(go_on)) && final(session)@
                == old(session)@
            &&& result matches Err(e) ==> r.step == TurnStep::Done(
                Err(AgentLoopError::Message(message)),
            ) && final(session)@.outbox == old(session)@.outbox.push(Effect::AbortAgent) && (
            old(session)@.error is None ==> final(session)@.error == Some(e)) && (
            old(session)@.error is Some ==> final(session)@.error == old(session)@.error)
        }),
        turn.step is Done ==> r == turn && final(session)@ == old(session)@,
{
}

/// Before the session settles nobody is asked after an abort; without an extension that wants to know
/// the run goes on where messages are queued; otherwise the extensions are asked.
pub proof fn law_nobody_is_asked_after_an_abort(
    session: &AgentSession,
    handlers: bool,
    queued: bool,
    begun: SettleStep,
    flushed: SettleStep,
)
    requires
        call_ensures(AgentSession::before_settle_boundary, (session, handlers), begun),
        call_ensures(AgentSession::has_queued_messages, (session,), queued),
        call_ensures(AgentSession::settle_boundary_flushed, (session,), flushed),
    ensures
        session@.lifecycle.boundary_abort_requested ==> begun == SettleStep::Decided(false)
            && flushed == SettleStep::Decided(false),
        !session@.lifecycle.boundary_abort_requested ==> flushed is Preview,
        !session@.lifecycle.boundary_abort_requested && handlers ==> begun is Dispatch,
        !session@.lifecycle.boundary_abort_requested && !handlers ==> begun == SettleStep::Decided(
            queued,
        ),
{
}

/// A session that is about to settle goes on only where it can, and only where an extension asked for
/// it or messages are queued.
pub proof fn law_a_settling_session_goes_on_only_where_it_can(
    session: &AgentSession,
    requested: bool,
    can: bool,
    queued: bool,
    goes: bool,
)
    requires
        call_ensures(AgentSession::settle_boundary_decided, (session, requested, can), goes),
        call_ensures(AgentSession::has_queued_messages, (session,), queued),
    ensures
        goes <==> can && (requested || queued),
{
}

/// All custom messages that wait for a boundary are taken at once, in their order, and none waits any
/// more.
pub proof fn law_waiting_custom_messages_are_taken_once(
    session: &mut AgentSession,
    taken: Vec<AgentMessage>,
)
    requires
        call_ensures(AgentSession::flush_pending_custom_messages, (session,), taken),
    ensures
        taken@ == old(session)@.pending_custom,
        final(session)@.pending_custom.len() == 0,
        final(session)@.agent == old(session)@.agent,
        final(session)@.pending_next_turn == old(session)@.pending_next_turn,
        final(session)@.outbox == old(session)@.outbox,
{
}

/// Only a stored custom message joins the transcript, at its end; its start and its end are told in
/// this order.
pub proof fn law_only_a_stored_custom_message_joins(
    session: &mut AgentSession,
    message: AgentMessage,
    stored: Result<(), SessionError>,
    r: Result<(), SessionError>,
)
    requires
        call_ensures(AgentSession::pending_custom_stored, (session, message, stored), r),
    ensures
        stored is Ok ==> r is Ok && final(session)@.agent.transcript == old(session)@.agent.transcript.push(message) && final(session)@.outbox == old(session)@.outbox.push(
            Effect::Emit(AgentSessionEvent::MessageStart { message }),
        ).push(Effect::Emit(AgentSessionEvent::MessageEnd { message })),
        stored matches Err(e) ==> r == Err::<(), SessionError>(e) && final(session)@ == old(session)@,
{
}

/// The messages of a run are counted from its beginning: as many as were processed since are reached,
/// one more is waited for, and after a failure of the storage none is.
pub proof fn law_messages_are_counted_from_the_beginning_of_a_run(
    session: &mut AgentSession,
    later: &AgentSession,
    more: u64,
    count: u64,
    done: (),
    wait: MessageWait,
)
    requires
        call_ensures(AgentSession::begin_agent_run, (session,), done),
        later@.counters.run_message_baseline == final(session)@.counters.run_message_baseline,
        later@.counters.processed_message_ends == old(session)@.counters.processed_message_ends
            + more,
        call_ensures(AgentSession::wait_for_processed_messages, (later, count), wait),
    ensures
        final(session)@.counters.processed_message_ends == old(session)@.counters.processed_message_ends,
        final(session)@.outbox == old(session)@.outbox,
        later@.error is Some ==> wait == MessageWait::Failed,
        later@.error is None && count <= more ==> wait == MessageWait::Reached,
        later@.error is None && count > more ==> wait == MessageWait::Waiting,
{
}

proof fn lemma_turn_keys()
    ensures
        "type"@.len() == 4,
        "turnIndex"@.len() == 9,
        "message"@.len() == 7,
        "toolResults"@.len() == 11,
        "messageEntryId"@.len() == 14,
        "toolResultEntryIds"@.len() == 18,
        "outcome"@.len() == 7,
        "message"@ != "outcome"@,
{
    reveal_strlit("type");
    reveal_strlit("turnIndex");
    reveal_strlit("message");
    reveal_strlit("toolResults");
    reveal_strlit("messageEntryId");
    reveal_strlit("toolResultEntryIds");
    reveal_strlit("outcome");
    assert("message"@[0] == 'm' && "outcome"@[0] == 'o');
}

/// What extensions read at the end of a turn is the turn: its number, its answer and its results, the
/// ids that they are stored under, and how it ended.
pub proof fn law_the_end_of_a_turn_reads_back(
    index: u64,
    message: Json,
    results: Json,
    id: &str,
    ids: &Vec<String>,
    outcome: ActivityOutcome,
    i: int,
    name: &'static str,
    payload: Vec<(String, Json)>,
)
    requires
        call_ensures(turn_end_payload, (index, message, results, id, ids, outcome), payload),
        call_ensures(outcome_str, (outcome,), name),
    ensures
        json::member(payload@, "type"@) matches Some(Json::Text(t)) && t@ == "turn_end"@,
        json::member(payload@, "turnIndex"@) == Some(Json::Integer(index as i128)),
        json::member(payload@, "message"@) == Some(message),
        json::member(payload@, "toolResults"@) == Some(results),
        json::member(payload@, "messageEntryId"@) matches Some(Json::Text(t)) && t@ == id@,
        json::member(payload@, "toolResultEntryIds"@) matches Some(Json::Array(items))
            && items@.len() == ids@.len() && (0 <= i < ids@.len() ==> items@[i] == Json::Text(
            ids@[i],
        )),
        json::member(payload@, "outcome"@) matches Some(Json::Text(t)) && t@ == name@,
        outcome == ActivityOutcome::Aborted ==> name@ == "aborted"@,
        outcome == ActivityOutcome::Error ==> name@ == "error"@,
        outcome == ActivityOutcome::Completed ==> name@ == "completed"@,
{
    lemma_turn_keys();
    json::lemma_read_at(payload@, "type"@, 0);
    json::lemma_read_at(payload@, "turnIndex"@, 1);
    json::lemma_read_at(payload@, "message"@, 2);
    json::lemma_read_at(payload@, "toolResults"@, 3);
    json::lemma_read_at(payload@, "messageEntryId"@, 4);
    json::lemma_read_at(payload@, "toolResultEntryIds"@, 5);
    json::lemma_read_at(payload@, "outcome"@, 6);
}

proof fn lemma_context_keys()
    ensures
        "contextEntries"@.len() == 14,
        "contextMessages"@.len() == 15,
        "llmMessages"@.len() == 11,
        "pendingMessages"@.len() == 15,
        "canContinue"@.len() == 11,
        "contextMessages"@ != "pendingMessages"@,
        "llmMessages"@ != "canContinue"@,
        "entries"@.len() == 7,
        "continue"@.len() == 8,
        "context"@.len() == 7,
        "entries"@ != "context"@,
{
    reveal_strlit("contextEntries");
    reveal_strlit("contextMessages");
    reveal_strlit("llmMessages");
    reveal_strlit("pendingMessages");
    reveal_strlit("canContinue");
    reveal_strlit("entries");
    reveal_strlit("continue");
    reveal_strlit("context");
    assert("contextMessages"@[0] == 'c' && "pendingMessages"@[0] == 'p' && "llmMessages"@[0] == 'l'
        && "canContinue"@[0] == 'c' && "entries"@[0] == 'e' && "context"@[0] == 'c');
}

/// The context of a boundary shows each part under its name, and whether the run can go on.
pub proof fn law_the_context_of_a_boundary_reads_back(
    entries: Json,
    messages: Json,
    llm: Json,
    pending: Json,
    can: bool,
    context: Vec<(String, Json)>,
)
    requires
        call_ensures(boundary_context, (entries, messages, llm, pending, can), context),
    ensures
        json::member(context@, "contextEntries"@) == Some(entries),
        json::member(context@, "contextMessages"@) == Some(messages),
        json::member(context@, "llmMessages"@) == Some(llm),
        json::member(context@, "pendingMessages"@) == Some(pending),
        json::member(context@, "canContinue"@) == Some(Json::Bool(can)),
{
    lemma_context_keys();
    json::lemma_read_at(context@, "contextEntries"@, 0);
    json::lemma_read_at(context@, "contextMessages"@, 1);
    json::lemma_read_at(context@, "llmMessages"@, 2);
    json::lemma_read_at(context@, "pendingMessages"@, 3);
    json::lemma_read_at(context@, "canContinue"@, 4);
}

/// The request to the extensions holds all that they are told, and where that does not use the names:
/// no drafts, no wish to go on, and the context.
pub proof fn law_a_boundary_request_holds_what_is_told(
    payload: Vec<(String, Json)>,
    context: Json,
    key: Seq<char>,
    request: Vec<(String, Json)>,
)
    requires
        call_ensures(boundary_request, (payload, context), request),
    ensures
        json::member(payload@, key) is Some ==> json::member(request@, key) == json::member(
            payload@,
            key,
        ),
        json::member(payload@, "entries"@) is None ==> (json::member(request@, "entries"@)
            matches Some(Json::Array(items)) && items@.len() == 0),
        json::member(payload@, "continue"@) is None ==> json::member(request@, "continue"@) == Some(
            Json::Bool(false),
        ),
        json::member(payload@, "context"@) is None ==> json::member(request@, "context"@) == Some(
            context,
        ),
{
    lemma_context_keys();
    let a = payload@;
    let b = request@;
    let n = a.len() as int;
    assert(json::keyed(a).len() == n);
    assert(json::keyed(b).len() == b.len());
    assert forall|k: int| 0 <= k < n implies (#[trigger] b[k]).0@ == a[k].0@ && b[k].1 == a[k].1 by {
        assert(json::keyed(b).take(n)[k] == json::keyed(b)[k]);
        assert(json::keyed(a)[k] == (a[k].0@, a[k].1));
    }
    assert(json::keyed(b)[n] == (b[n].0@, b[n].1));
    assert(json::keyed(b)[n + 1] == (b[n + 1].0@, b[n + 1].1));
    assert(json::keyed(b)[n + 2] == (b[n + 2].0@, b[n + 2].1));
    json::lemma_member_found(a, key, 0);
    json::lemma_member_found(a, "entries"@, 0);
    json::lemma_member_found(a, "continue"@, 0);
    json::lemma_member_found(a, "context"@, 0);
    if json::member(a, key) is Some {
        json::lemma_member_at(b, key, 0, json::member_from(a, key, 0));
    }
    if json::member(a, "entries"@) is None {
        json::lemma_member_at(b, "entries"@, 0, n);
    }
    if json::member(a, "continue"@) is None {
        json::lemma_member_at(b, "continue"@, 0, n + 1);
    }
    if json::member(a, "context"@) is None {
        json::lemma_member_at(b, "context"@, 0, n + 2);
    }
}

/// Before the session settles extensions are told how the last activity ended.
pub proof fn law_the_last_outcome_is_told_before_settling(
    outcome: ActivityOutcome,
    name: &'static str,
    payload: Vec<(String, Json)>,
)
    requires
        call_ensures(before_settle_payload, (outcome,), payload),
        call_ensures(outcome_str, (outcome,), name),
    ensures
        json::member(payload@, "type"@) matches Some(Json::Text(t)) && t@
            == "agent_before_settle"@,
        json::member(payload@, "outcome"@) matches Some(Json::Text(t)) && t@ == name@,
{
    lemma_turn_keys();
    json::lemma_read_at(payload@, "type"@, 0);
    json::lemma_read_at(payload@, "outcome"@, 1);
}

} // verus!
