//! Statistics of a session and the use of the context window.
//!
//! The totals are over all entries of the session, those that a compaction replaced among them, so
//! that they say what was billed. Amounts of money and percentages are computed by the caller.

use crate::messages::{
    AgentMessage, AssistantContent, Message, SessionEntry, StopReason, Usage,
};
use crate::session::AgentSession;
use vstd::prelude::*;

verus! {

/// The statistics of a session.
#[derive(Debug, PartialEq)]
pub struct SessionStats {
    /// Path of the session file.
    pub session_file: Option<String>,
    pub session_id: String,
    /// Number of user messages.
    pub user_messages: u64,
    /// Number of assistant messages.
    pub assistant_messages: u64,
    /// Number of tool calls in all assistant messages.
    pub tool_calls: u64,
    /// Number of tool results.
    pub tool_results: u64,
    /// Number of user messages, assistant messages and tool results together.
    pub total_messages: u64,
    /// Token totals.
    pub tokens: SessionTokenTotals,
    /// The use of the context window, where it can be told.
    pub context_usage: Option<ContextUsage>,
}

/// Token totals over assistant messages, compactions and branch summaries.
#[derive(Clone, Copy, Debug, PartialEq, Eq, Structural)]
pub struct SessionTokenTotals {
    pub input: u64,
    pub output: u64,
    pub cache_read: u64,
    pub cache_write: u64,
    /// The sum of the other four.
    pub total: u64,
}

impl Default for SessionTokenTotals {
    fn default() -> (r: Self)
        ensures
            r == (SessionTokenTotals {
                input: 0,
                output: 0,
                cache_read: 0,
                cache_write: 0,
                total: 0,
            }),
    {
        SessionTokenTotals { input: 0, output: 0, cache_read: 0, cache_write: 0, total: 0 }
    }
}

/// The use of the context window. Right after a compaction its tokens are not known.
#[derive(Clone, Copy, Debug, PartialEq, Eq, Structural)]
pub struct ContextUsage {
    /// The tokens of the context.
    pub tokens: Option<u64>,
    /// The size of the window.
    pub context_window: u64,
}

/// The largest `u64` that is not above `n`.
pub open spec fn capped(n: int) -> int {
    if n > u64::MAX {
        u64::MAX as int
    } else {
        n
    }
}

/// The tokens of the context after an answer: the total it reports, else the sum of its parts.
pub open spec fn context_tokens(usage: Usage) -> int {
    if usage.total_tokens != 0 {
        usage.total_tokens as int
    } else {
        capped(usage.input + usage.output + usage.cache_read + usage.cache_write)
    }
}

/// The tokens of the context after an answer.
pub fn calculate_context_tokens(usage: &Usage) -> (r: u64)
    ensures
        r == context_tokens(*usage),
{
    if usage.total_tokens != 0 {
        usage.total_tokens
    } else {
        usage.input.saturating_add(usage.output).saturating_add(usage.cache_read).saturating_add(
            usage.cache_write,
        )
    }
}

/// The usage of the call that wrote a summary.
pub open spec fn summary_billed(entry: SessionEntry) -> Option<Usage> {
    match entry {
        SessionEntry::Compaction(c) => c.usage,
        SessionEntry::BranchSummary(b) => b.usage,
        _ => None,
    }
}

/// What an entry was billed for: the call that wrote a summary, or an answer.
pub open spec fn billed(entry: SessionEntry) -> Option<Usage> {
    match entry {
        SessionEntry::Message(m) => match m.message {
            AgentMessage::Llm(Message::Assistant(a)) => Some(a.usage),
            _ => None,
        },
        _ => summary_billed(entry),
    }
}

/// The sum of a part of the usage over all that was billed.
pub open spec fn billed_sum(entries: Seq<SessionEntry>, part: spec_fn(Usage) -> int) -> int
    decreases entries.len(),
{
    if entries.len() == 0 {
        0
    } else {
        billed_sum(entries.drop_last(), part) + match billed(entries.last()) {
            Some(usage) => part(usage),
            None => 0,
        }
    }
}

/// How many tool calls are among the blocks.
pub open spec fn tool_calls_in(content: Seq<AssistantContent>) -> int
    decreases content.len(),
{
    if content.len() == 0 {
        0
    } else {
        tool_calls_in(content.drop_last()) + if content.last() is ToolCall {
            1int
        } else {
            0
        }
    }
}

/// How an entry counts: as a user message, an answer, its tool calls, a tool result.
pub open spec fn weights(entry: SessionEntry) -> (int, int, int, int) {
    match entry {
        SessionEntry::Message(m) => match m.message {
            AgentMessage::Llm(Message::User(_)) => (1, 0, 0, 0),
            AgentMessage::Llm(Message::Assistant(a)) => (0, 1, tool_calls_in(a.content@), 0),
            AgentMessage::Llm(Message::ToolResult(_)) => (0, 0, 0, 1),
            _ => (0, 0, 0, 0),
        },
        _ => (0, 0, 0, 0),
    }
}

/// The counts over all entries, in the order of [`weights`].
pub open spec fn counts(entries: Seq<SessionEntry>) -> (int, int, int, int)
    decreases entries.len(),
{
    if entries.len() == 0 {
        (0, 0, 0, 0)
    } else {
        let before = counts(entries.drop_last());
        let w = weights(entries.last());
        (before.0 + w.0, before.1 + w.1, before.2 + w.2, before.3 + w.3)
    }
}

/// The parts of a usage that are added up.
pub open spec fn input_of() -> spec_fn(Usage) -> int {
    |u: Usage| u.input as int
}

pub open spec fn output_of() -> spec_fn(Usage) -> int {
    |u: Usage| u.output as int
}

pub open spec fn cache_read_of() -> spec_fn(Usage) -> int {
    |u: Usage| u.cache_read as int
}

pub open spec fn cache_write_of() -> spec_fn(Usage) -> int {
    |u: Usage| u.cache_write as int
}

/// The totals are those of all that was billed. A total that a `u64` cannot hold is the largest one.
pub open spec fn totals_hold(t: SessionTokenTotals, entries: Seq<SessionEntry>) -> bool {
    &&& t.input == capped(billed_sum(entries, input_of()))
    &&& t.output == capped(billed_sum(entries, output_of()))
    &&& t.cache_read == capped(billed_sum(entries, cache_read_of()))
    &&& t.cache_write == capped(billed_sum(entries, cache_write_of()))
}

/// The counts of a session's messages. Shell results and other messages of the host are not counted.
pub open spec fn counts_hold(s: SessionStats, entries: Seq<SessionEntry>) -> bool {
    let n = counts(entries);
    &&& s.total_messages == capped(n.0 + n.1 + n.3)
    &&& s.user_messages == capped(n.0)
    &&& s.assistant_messages == capped(n.1)
    &&& s.tool_calls == capped(n.2)
    &&& s.tool_results == capped(n.3)
}

/// The usage of the call that wrote a summary.
fn summary_usage(entry: &SessionEntry) -> (r: Option<Usage>)
    ensures
        r == summary_billed(*entry),
{
    match entry {
        SessionEntry::Compaction(c) => c.usage,
        SessionEntry::BranchSummary(b) => b.usage,
        _ => None,
    }
}

proof fn lemma_tool_calls(content: Seq<AssistantContent>)
    ensures
        0 <= tool_calls_in(content) <= content.len(),
    decreases content.len(),
{
    if content.len() > 0 {
        lemma_tool_calls(content.drop_last());
    }
}

proof fn lemma_counts(entries: Seq<SessionEntry>)
    ensures
        counts(entries).0 >= 0,
        counts(entries).1 >= 0,
        counts(entries).2 >= 0,
        counts(entries).3 >= 0,
    decreases entries.len(),
{
    if entries.len() > 0 {
        lemma_counts(entries.drop_last());
        if let SessionEntry::Message(m) = entries.last() {
            if let AgentMessage::Llm(Message::Assistant(a)) = m.message {
                lemma_tool_calls(a.content@);
            }
        }
    }
}

proof fn lemma_billed_sums(entries: Seq<SessionEntry>)
    ensures
        billed_sum(entries, input_of()) >= 0,
        billed_sum(entries, output_of()) >= 0,
        billed_sum(entries, cache_read_of()) >= 0,
        billed_sum(entries, cache_write_of()) >= 0,
    decreases entries.len(),
{
    if entries.len() > 0 {
        lemma_billed_sums(entries.drop_last());
    }
}

fn count_tool_calls(content: &Vec<AssistantContent>) -> (r: usize)
    ensures
        r == tool_calls_in(content@),
{
    let n: usize = content.len();
    let mut count: usize = 0;
    let mut i: usize = 0;
    while i < n
        invariant
            n == content@.len(),
            count <= i <= n,
            count == tool_calls_in(content@.take(i as int)),
        decreases n - i,
    {
        assert(content@.take(i + 1).drop_last() =~= content@.take(i as int));
        if let AssistantContent::ToolCall(_) = &content[i] {
            count += 1;
        }
        i += 1;
    }
    assert(content@.take(n as int) =~= content@);
    count
}

/// Adds what was billed to the totals.
fn add_usage(totals: &mut SessionTokenTotals, usage: &Usage)
    ensures
        final(totals).input == capped(old(totals).input + usage.input),
        final(totals).output == capped(old(totals).output + usage.output),
        final(totals).cache_read == capped(old(totals).cache_read + usage.cache_read),
        final(totals).cache_write == capped(old(totals).cache_write + usage.cache_write),
        final(totals).total == old(totals).total,
{
    totals.input = totals.input.saturating_add(usage.input);
    totals.output = totals.output.saturating_add(usage.output);
    totals.cache_read = totals.cache_read.saturating_add(usage.cache_read);
    totals.cache_write = totals.cache_write.saturating_add(usage.cache_write);
}

/// The totals over all entries.
fn token_totals(entries: &Vec<SessionEntry>) -> (r: SessionTokenTotals)
    ensures
        totals_hold(r, entries@),
        r.total == capped(r.input + r.output + r.cache_read + r.cache_write),
{
    let n: usize = entries.len();
    let mut totals = SessionTokenTotals::default();
    let mut i: usize = 0;
    while i < n
        invariant
            n == entries@.len(),
            i <= n,
            totals_hold(totals, entries@.take(i as int)),
        decreases n - i,
    {
        assert(entries@.take(i + 1).drop_last() =~= entries@.take(i as int));
        assert(entries@.take(i + 1).last() == entries@[i as int]);
        proof {
            lemma_billed_sums(entries@.take(i as int));
        }
        if let Some(usage) = summary_usage(&entries[i]) {
            add_usage(&mut totals, &usage);
        }
        if let SessionEntry::Message(entry) = &entries[i] {
            if let AgentMessage::Llm(Message::Assistant(assistant)) = &entry.message {
                add_usage(&mut totals, &assistant.usage);
            }
        }
        i += 1;
    }
    assert(entries@.take(n as int) =~= entries@);
    totals.total = totals.input.saturating_add(totals.output).saturating_add(
        totals.cache_read,
    ).saturating_add(totals.cache_write);
    totals
}

/// The counts over all entries, in the order of [`weights`].
fn message_counts(entries: &Vec<SessionEntry>) -> (r: (u64, u64, u64, u64))
    ensures
        r.0 == capped(counts(entries@).0),
        r.1 == capped(counts(entries@).1),
        r.2 == capped(counts(entries@).2),
        r.3 == capped(counts(entries@).3),
{
    let n: usize = entries.len();
    let mut user: u64 = 0;
    let mut assistant: u64 = 0;
    let mut calls: u64 = 0;
    let mut results: u64 = 0;
    let mut i: usize = 0;
    while i < n
        invariant
            n == entries@.len(),
            i <= n,
            user == capped(counts(entries@.take(i as int)).0),
            assistant == capped(counts(entries@.take(i as int)).1),
            calls == capped(counts(entries@.take(i as int)).2),
            results == capped(counts(entries@.take(i as int)).3),
        decreases n - i,
    {
        assert(entries@.take(i + 1).drop_last() =~= entries@.take(i as int));
        assert(entries@.take(i + 1).last() == entries@[i as int]);
        proof {
            lemma_counts(entries@.take(i as int));
        }
        if let SessionEntry::Message(entry) = &entries[i] {
            match &entry.message {
                AgentMessage::Llm(Message::User(_)) => {
                    user = user.saturating_add(1);
                },
                AgentMessage::Llm(Message::ToolResult(_)) => {
                    results = results.saturating_add(1);
                },
                AgentMessage::Llm(Message::Assistant(message)) => {
                    assistant = assistant.saturating_add(1);
                    calls = calls.saturating_add(count_tool_calls(&message.content) as u64);
                },
                _ => {},
            }
        }
        i += 1;
    }
    assert(entries@.take(n as int) =~= entries@);
    (user, assistant, calls, results)
}

/// The tokens that an entry reports, where they tell how full the context is after a compaction: an
/// answer that neither failed nor was aborted, with any tokens at all.
pub open spec fn usable_tokens(entry: SessionEntry) -> Option<u64> {
    match entry {
        SessionEntry::Message(m) => match m.message {
            AgentMessage::Llm(Message::Assistant(a)) => if a.stop_reason == StopReason::Aborted
                || a.stop_reason == StopReason::Error || context_tokens(a.usage) == 0 {
                None
            } else {
                Some(context_tokens(a.usage) as u64)
            },
            _ => None,
        },
        _ => None,
    }
}

/// The tokens that an entry reports, where they tell how full the context is after a compaction.
fn post_compaction_usage_tokens(entry: &SessionEntry) -> (r: Option<u64>)
    ensures
        r == usable_tokens(*entry),
{
    let message_entry = match entry {
        SessionEntry::Message(message_entry) => message_entry,
        _ => return None,
    };
    let assistant = match &message_entry.message {
        AgentMessage::Llm(Message::Assistant(assistant)) => assistant,
        _ => return None,
    };
    if assistant.stop_reason == StopReason::Aborted || assistant.stop_reason == StopReason::Error {
        return None;
    }
    let tokens: u64 = calculate_context_tokens(&assistant.usage);
    if tokens == 0 {
        return None;
    }
    Some(tokens)
}

/// A compaction is the last word on how full the context is: after the latest compaction of the
/// branch there is no entry with usable tokens.
pub open spec fn freshly_compacted(branch: Seq<SessionEntry>) -> bool
    decreases branch.len(),
{
    if branch.len() == 0 {
        false
    } else if branch.last() is Compaction {
        true
    } else if usable_tokens(branch.last()) is Some {
        false
    } else {
        freshly_compacted(branch.drop_last())
    }
}

/// A branch is freshly compacted just where it has a compaction with no usable answer after it.
pub proof fn law_compaction_clears_the_count(branch: Seq<SessionEntry>)
    ensures
        freshly_compacted(branch) <==> exists|i: int|
            0 <= i < branch.len() && #[trigger] branch[i] is Compaction && forall|j: int|
                i < j < branch.len() ==> usable_tokens(#[trigger] branch[j]) is None,
    decreases branch.len(),
{
    if branch.len() > 0 {
        let rest = branch.drop_last();
        law_compaction_clears_the_count(rest);
        let last = branch.len() - 1;
        if branch.last() is Compaction {
            assert(branch[last] is Compaction);
        } else if usable_tokens(branch.last()) is Some {
            assert(usable_tokens(branch[last]) is Some);
        } else {
            if freshly_compacted(rest) {
                let i = choose|i: int|
                    0 <= i < rest.len() && #[trigger] rest[i] is Compaction && forall|j: int|
                        i < j < rest.len() ==> usable_tokens(#[trigger] rest[j]) is None;
                assert(branch[i] is Compaction);
                assert forall|j: int| i < j < branch.len() implies usable_tokens(
                    #[trigger] branch[j],
                ) is None by {
                    if j < last {
                        assert(rest[j] == branch[j]);
                    }
                }
            }
            if exists|i: int|
                0 <= i < branch.len() && #[trigger] branch[i] is Compaction && forall|j: int|
                    i < j < branch.len() ==> usable_tokens(#[trigger] branch[j]) is None {
                let i = choose|i: int|
                    0 <= i < branch.len() && #[trigger] branch[i] is Compaction && forall|j: int|
                        i < j < branch.len() ==> usable_tokens(#[trigger] branch[j]) is None;
                assert(rest[i] is Compaction);
                assert forall|j: int| i < j < rest.len() implies usable_tokens(
                    #[trigger] rest[j],
                ) is None by {
                    assert(rest[j] == branch[j]);
                }
            }
        }
    }
}

fn is_freshly_compacted(branch: &Vec<SessionEntry>) -> (r: bool)
    ensures
        r == freshly_compacted(branch@),
{
    let mut i: usize = branch.len();
    assert(branch@.take(i as int) =~= branch@);
    while i > 0
        invariant
            i <= branch@.len(),
            freshly_compacted(branch@) == freshly_compacted(branch@.take(i as int)),
        decreases i,
    {
        i -= 1;
        assert(branch@.take(i + 1).drop_last() =~= branch@.take(i as int));
        assert(branch@.take(i + 1).last() == branch@[i as int]);
        if let SessionEntry::Compaction(_) = &branch[i] {
            return true;
        }
        if post_compaction_usage_tokens(&branch[i]).is_some() {
            return false;
        }
    }
    false
}

/// The use of a window: none without a window; without tokens right after a compaction; else the
/// estimate.
pub open spec fn context_use(
    window: u64,
    branch: Seq<SessionEntry>,
    estimated_tokens: u64,
) -> Option<ContextUsage> {
    if window == 0 {
        None
    } else if freshly_compacted(branch) {
        Some(ContextUsage { tokens: None, context_window: window })
    } else {
        Some(ContextUsage { tokens: Some(estimated_tokens), context_window: window })
    }
}

impl AgentSession {
    /// The statistics over all `entries` of the session. `branch` holds those of the active branch,
    /// and `estimated_tokens` is the estimate for the messages of the agent.
    pub fn get_session_stats(
        &self,
        session_file: Option<String>,
        session_id: String,
        entries: &Vec<SessionEntry>,
        branch: &Vec<SessionEntry>,
        estimated_tokens: u64,
    ) -> (r: SessionStats)
        ensures
            r.session_file == session_file,
            r.session_id == session_id,
            counts_hold(r, entries@),
            totals_hold(r.tokens, entries@),
            r.tokens.total == capped(
                r.tokens.input + r.tokens.output + r.tokens.cache_read + r.tokens.cache_write,
            ),
            r.context_usage == context_use(
                self@.agent.model.context_window,
                branch@,
                estimated_tokens,
            ),
    {
        let (user, assistant, calls, results) = message_counts(entries);
        proof {
            lemma_counts(entries@);
        }
        let total: u64 = user.saturating_add(assistant).saturating_add(results);
        SessionStats {
            session_file,
            session_id,
            user_messages: user,
            assistant_messages: assistant,
            tool_calls: calls,
            tool_results: results,
            total_messages: total,
            tokens: token_totals(entries),
            context_usage: self.get_context_usage(branch, estimated_tokens),
        }
    }

    /// The use of the current model's context window.
    pub fn get_context_usage(&self, branch: &Vec<SessionEntry>, estimated_tokens: u64) -> (r: Option<
        ContextUsage,
    >)
        ensures
            r == context_use(self@.agent.model.context_window, branch@, estimated_tokens),
    {
        let context_window: u64 = self.agent.model.context_window;
        if context_window == 0 {
            return None;
        }
        if is_freshly_compacted(branch) {
            return Some(ContextUsage { tokens: None, context_window });
        }
        Some(ContextUsage { tokens: Some(estimated_tokens), context_window })
    }
}

/// Totals only grow: what was billed before a compaction stays billed, and the entries of two parts
/// of a session add up.
pub proof fn law_totals_add_up(a: Seq<SessionEntry>, b: Seq<SessionEntry>, part: spec_fn(Usage) -> int)
    ensures
        billed_sum(a + b, part) == billed_sum(a, part) + billed_sum(b, part),
        counts(a + b).0 == counts(a).0 + counts(b).0,
        counts(a + b).1 == counts(a).1 + counts(b).1,
        counts(a + b).2 == counts(a).2 + counts(b).2,
        counts(a + b).3 == counts(a).3 + counts(b).3,
    decreases b.len(),
{
    if b.len() == 0 {
        assert(a + b =~= a);
    } else {
        law_totals_add_up(a, b.drop_last(), part);
        assert((a + b).drop_last() =~= a + b.drop_last());
        assert((a + b).last() == b.last());
    }
}

/// `after` is `before` with `n` more, as far as 64 bits go.
pub open spec fn grown_by(before: u64, after: u64, n: int) -> bool {
    if before + n <= u64::MAX {
        after == before + n
    } else {
        after == u64::MAX
    }
}

/// The tokens of the context after an answer: the total that it reports, and where it reports none
/// the sum of all four parts.
pub proof fn law_context_tokens_are_the_total_or_the_sum(usage: &Usage, tokens: u64)
    requires
        call_ensures(calculate_context_tokens, (usage,), tokens),
    ensures
        usage.total_tokens > 0 ==> tokens == usage.total_tokens,
        usage.total_tokens == 0 && usage.input + usage.output + usage.cache_read + usage.cache_write
            <= u64::MAX ==> tokens == usage.input + usage.output + usage.cache_read
            + usage.cache_write,
        usage.total_tokens == 0 && usage.input + usage.output + usage.cache_read + usage.cache_write
            > u64::MAX ==> tokens == u64::MAX,
{
}

/// A session without entries has counted and billed nothing.
pub proof fn law_an_empty_session_counts_nothing(
    session: &AgentSession,
    file: Option<String>,
    id: String,
    entries: &Vec<SessionEntry>,
    branch: &Vec<SessionEntry>,
    tokens: u64,
    stats: SessionStats,
)
    requires
        call_ensures(
            AgentSession::get_session_stats,
            (session, file, id, entries, branch, tokens),
            stats,
        ),
    ensures
        stats.session_file == file,
        stats.session_id == id,
        entries@.len() == 0 ==> stats.user_messages == 0 && stats.assistant_messages == 0
            && stats.tool_calls == 0 && stats.tool_results == 0 && stats.total_messages == 0
            && stats.tokens.input == 0 && stats.tokens.output == 0 && stats.tokens.cache_read == 0
            && stats.tokens.cache_write == 0 && stats.tokens.total == 0,
{
}

/// One more entry counts once, as what it is: a user's message, an answer or a tool's result each as
/// one, also among all messages, and any other entry not at all.
pub proof fn law_each_entry_is_counted_once(
    session: &AgentSession,
    file: Option<String>,
    id: String,
    entries: &Vec<SessionEntry>,
    more: &Vec<SessionEntry>,
    branch: &Vec<SessionEntry>,
    tokens: u64,
    before: SessionStats,
    after: SessionStats,
)
    requires
        call_ensures(
            AgentSession::get_session_stats,
            (session, file, id, entries, branch, tokens),
            before,
        ),
        call_ensures(
            AgentSession::get_session_stats,
            (session, file, id, more, branch, tokens),
            after,
        ),
        more@.len() == entries@.len() + 1,
        more@.drop_last() == entries@,
    ensures
        ({
            let last = more@.last();
            let user = last matches SessionEntry::Message(m) && m.message
                matches AgentMessage::Llm(Message::User(_));
            let answer = last matches SessionEntry::Message(m) && m.message
                matches AgentMessage::Llm(Message::Assistant(_));
            let result = last matches SessionEntry::Message(m) && m.message
                matches AgentMessage::Llm(Message::ToolResult(_));
            &&& grown_by(
                before.user_messages,
                after.user_messages,
                if user {
                    1
                } else {
                    0
                },
            )
            &&& grown_by(
                before.assistant_messages,
                after.assistant_messages,
                if answer {
                    1
                } else {
                    0
                },
            )
            &&& grown_by(
                before.tool_results,
                after.tool_results,
                if result {
                    1
                } else {
                    0
                },
            )
            &&& grown_by(
                before.total_messages,
                after.total_messages,
                if user || answer || result {
                    1
                } else {
                    0
                },
            )
            &&& !answer ==> after.tool_calls == before.tool_calls
            &&& after.tool_calls >= before.tool_calls
        }),
{
    lemma_counts(entries@);
    if let SessionEntry::Message(m) = more@.last() {
        if let AgentMessage::Llm(Message::Assistant(a)) = m.message {
            lemma_tool_calls(a.content@);
        }
    }
}

/// An answer with one more block counts one tool call more where the block is one, and as many where
/// it is not; an answer without blocks counts none.
pub proof fn law_each_tool_call_is_counted_once(
    session: &AgentSession,
    file: Option<String>,
    id: String,
    entries: &Vec<SessionEntry>,
    short: &Vec<SessionEntry>,
    long: &Vec<SessionEntry>,
    branch: &Vec<SessionEntry>,
    tokens: u64,
    none: SessionStats,
    before: SessionStats,
    after: SessionStats,
    a: crate::messages::AssistantMessage,
    b: crate::messages::AssistantMessage,
)
    requires
        call_ensures(
            AgentSession::get_session_stats,
            (session, file, id, entries, branch, tokens),
            none,
        ),
        call_ensures(
            AgentSession::get_session_stats,
            (session, file, id, short, branch, tokens),
            before,
        ),
        call_ensures(
            AgentSession::get_session_stats,
            (session, file, id, long, branch, tokens),
            after,
        ),
        short@.len() == entries@.len() + 1,
        short@.drop_last() == entries@,
        long@.len() == entries@.len() + 1,
        long@.drop_last() == entries@,
        short@.last() matches SessionEntry::Message(m) && m.message == AgentMessage::Llm(
            Message::Assistant(a),
        ),
        long@.last() matches SessionEntry::Message(m) && m.message == AgentMessage::Llm(
            Message::Assistant(b),
        ),
        b.content@.len() == a.content@.len() + 1,
        b.content@.drop_last() == a.content@,
    ensures
        grown_by(
            before.tool_calls,
            after.tool_calls,
            if b.content@.last() is ToolCall {
                1
            } else {
                0
            },
        ),
        a.content@.len() == 0 ==> before.tool_calls == none.tool_calls,
{
    lemma_counts(entries@);
    lemma_tool_calls(a.content@);
    lemma_tool_calls(b.content@);
}

/// One more entry adds what it was billed for to each part of the totals: an answer its usage, a
/// compaction and a branch summary that of the call that wrote it where that is known, and any other
/// entry nothing. The total is the sum of the four parts.
pub proof fn law_each_bill_is_added_once(
    session: &AgentSession,
    file: Option<String>,
    id: String,
    entries: &Vec<SessionEntry>,
    more: &Vec<SessionEntry>,
    branch: &Vec<SessionEntry>,
    tokens: u64,
    before: SessionStats,
    after: SessionStats,
    bill: Option<Usage>,
)
    requires
        call_ensures(
            AgentSession::get_session_stats,
            (session, file, id, entries, branch, tokens),
            before,
        ),
        call_ensures(
            AgentSession::get_session_stats,
            (session, file, id, more, branch, tokens),
            after,
        ),
        more@.len() == entries@.len() + 1,
        more@.drop_last() == entries@,
        bill == match more@.last() {
            SessionEntry::Message(m) => match m.message {
                AgentMessage::Llm(Message::Assistant(a)) => Some(a.usage),
                _ => None,
            },
            SessionEntry::Compaction(c) => c.usage,
            SessionEntry::BranchSummary(b) => b.usage,
            _ => None,
        },
    ensures
        bill is None ==> after.tokens == before.tokens,
        bill matches Some(usage) ==> {
            &&& grown_by(before.tokens.input, after.tokens.input, usage.input as int)
            &&& grown_by(before.tokens.output, after.tokens.output, usage.output as int)
            &&& grown_by(before.tokens.cache_read, after.tokens.cache_read, usage.cache_read as int)
            &&& grown_by(
                before.tokens.cache_write,
                after.tokens.cache_write,
                usage.cache_write as int,
            )
        },
        grown_by(
            0,
            after.tokens.total,
            after.tokens.input + after.tokens.output + after.tokens.cache_read
                + after.tokens.cache_write,
        ),
{
    lemma_billed_sums(entries@);
    lemma_billed_sums(more@);
}

/// How full the context is: not known without a window; not known right after a compaction, that is
/// where no answer behind it reports tokens, failed and aborted ones aside; otherwise the estimate.
pub proof fn law_a_compaction_hides_the_count(
    session: &AgentSession,
    branch: &Vec<SessionEntry>,
    tokens: u64,
    i: int,
    usage: Option<ContextUsage>,
)
    requires
        call_ensures(AgentSession::get_context_usage, (session, branch, tokens), usage),
    ensures
        usage is None <==> session@.agent.model.context_window == 0,
        usage is Some ==> usage->0.context_window == session@.agent.model.context_window,
        usage is Some ==> usage->0.tokens is None || usage->0.tokens == Some(tokens),
        (forall|k: int| 0 <= k < branch@.len() ==> !(#[trigger] branch@[k] is Compaction))
            && session@.agent.model.context_window > 0 ==> usage->0.tokens == Some(tokens),
        (0 <= i < branch@.len() && branch@[i] is Compaction && (forall|k: int|
            i < k < branch@.len() ==> !(#[trigger] branch@[k] is Message))
            && session@.agent.model.context_window > 0) ==> usage->0.tokens is None,
{
    law_compaction_clears_the_count(branch@);
    if 0 <= i < branch@.len() && branch@[i] is Compaction && (forall|k: int|
        i < k < branch@.len() ==> !(#[trigger] branch@[k] is Message)) {
        assert forall|j: int| i < j < branch@.len() implies usable_tokens(
            #[trigger] branch@[j],
        ) is None by {
            assert(!(branch@[j] is Message));
        }
    }
}

/// An answer at the end of a branch makes the count known again, unless it failed, was aborted or
/// reports no tokens at all: then the count is known where it was before.
pub proof fn law_an_answer_shows_the_count(
    session: &AgentSession,
    branch: &Vec<SessionEntry>,
    more: &Vec<SessionEntry>,
    tokens: u64,
    a: crate::messages::AssistantMessage,
    reported: u64,
    before: Option<ContextUsage>,
    after: Option<ContextUsage>,
)
    requires
        call_ensures(AgentSession::get_context_usage, (session, branch, tokens), before),
        call_ensures(AgentSession::get_context_usage, (session, more, tokens), after),
        call_ensures(calculate_context_tokens, (&a.usage,), reported),
        more@.len() == branch@.len() + 1,
        more@.drop_last() == branch@,
        more@.last() matches SessionEntry::Message(m) && m.message == AgentMessage::Llm(
            Message::Assistant(a),
        ),
        session@.agent.model.context_window > 0,
    ensures
        a.stop_reason == StopReason::Error || a.stop_reason == StopReason::Aborted || reported == 0
            ==> after == before,
        a.stop_reason != StopReason::Error && a.stop_reason != StopReason::Aborted && reported > 0
            ==> after is Some && after->0.tokens == Some(tokens),
{
}

/// The statistics show the use of the context as the session tells it.
pub proof fn law_statistics_show_the_context(
    session: &AgentSession,
    file: Option<String>,
    id: String,
    entries: &Vec<SessionEntry>,
    branch: &Vec<SessionEntry>,
    tokens: u64,
    stats: SessionStats,
    usage: Option<ContextUsage>,
)
    requires
        call_ensures(
            AgentSession::get_session_stats,
            (session, file, id, entries, branch, tokens),
            stats,
        ),
        call_ensures(AgentSession::get_context_usage, (session, branch, tokens), usage),
    ensures
        stats.context_usage == usage,
{
}

} // verus!
