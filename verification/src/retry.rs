//! Which failures of a provider are worth another try, and how long to wait for it.

use crate::events::AgentSessionEvent;
use crate::messages::{clone_text, AgentMessage, AssistantMessage, Message, StopReason};
use crate::overflow;
use crate::pattern;
use crate::session;
use crate::session::{
    AbortSlots, AgentSession, CancelToken, Effect, SessionCounters, SessionModel,
};
use crate::text;
use vstd::arithmetic::power2;
use vstd::prelude::*;

verus! {

/// The wait before a retry: `base` doubled for each attempt after the first, as far as 64 bits go.
pub open spec fn backoff(base: nat, attempt: nat) -> nat {
    if attempt == 0 {
        0
    } else {
        let delay = base * power2::pow2((attempt - 1) as nat);
        if delay <= u64::MAX {
            delay
        } else {
            u64::MAX as nat
        }
    }
}

/// Once the wait has reached the end of 64 bits, it stays there.
proof fn lemma_saturated(base: nat, low: nat, high: nat)
    requires
        low <= high,
        base * power2::pow2(low) >= u64::MAX,
    ensures
        base * power2::pow2(high) >= u64::MAX,
{
    if low < high {
        power2::lemma_pow2_strictly_increases(low, high);
    }
    vstd::arithmetic::mul::lemma_mul_inequality(power2::pow2(low) as int, power2::pow2(high) as int, base as int);
    vstd::arithmetic::mul::lemma_mul_is_commutative(power2::pow2(low) as int, base as int);
    vstd::arithmetic::mul::lemma_mul_is_commutative(power2::pow2(high) as int, base as int);
}

/// Computes the wait before a retry, in milliseconds.
pub fn backoff_delay_ms(base_delay_ms: u64, attempt: u32) -> (delay: u64)
    ensures
        delay == backoff(base_delay_ms as nat, attempt as nat),
{
    if attempt == 0 {
        return 0;
    }
    let ghost base = base_delay_ms as nat;
    let mut delay: u64 = base_delay_ms;
    let mut done: u32 = 0;
    proof {
        power2::lemma2_to64();
        assert(base * 1 == base) by (nonlinear_arith);
    }
    while done < attempt - 1 && delay != 0 && delay != u64::MAX
        invariant
            attempt > 0,
            done <= attempt - 1,
            base == base_delay_ms as nat,
            delay == backoff(base, (done + 1) as nat),
        decreases attempt - 1 - done,
    {
        proof {
            power2::lemma_pow2_unfold((done + 1) as nat);
            assert(base * (2 * power2::pow2(done as nat)) == 2 * (base * power2::pow2(done as nat)))
                by (nonlinear_arith);
        }
        delay = delay.saturating_add(delay);
        done += 1;
    }
    proof {
        if done < attempt - 1 {
            if delay == 0 {
                power2::lemma_pow2_pos(done as nat);
                assert(base == 0) by (nonlinear_arith)
                    requires
                        base * power2::pow2(done as nat) == 0,
                        power2::pow2(done as nat) > 0,
                ;
                assert(0 * power2::pow2((attempt - 1) as nat) == 0) by (nonlinear_arith);
            } else {
                lemma_saturated(base, done as nat, (attempt - 1) as nat);
            }
        }
    }
    delay
}

/// Every wait after the first is twice the one before, or the longest there is; no wait is shorter
/// than the one before it.
pub proof fn law_backoff_doubles(base: nat, attempt: nat)
    requires
        attempt >= 1,
        base <= u64::MAX,
    ensures
        backoff(base, 1) == base,
        backoff(base, attempt + 1) == if 2 * backoff(base, attempt) <= u64::MAX {
            2 * backoff(base, attempt)
        } else {
            u64::MAX as nat
        },
        backoff(base, attempt) <= backoff(base, attempt + 1),
{
    power2::lemma2_to64();
    power2::lemma_pow2_unfold(attempt);
    assert(base * (2 * power2::pow2((attempt - 1) as nat)) == 2 * (base * power2::pow2((attempt - 1) as nat)))
        by (nonlinear_arith);
    assert(base * 1 == base) by (nonlinear_arith);
}

/// Words of a provider's limits: a quota, a budget, a subscription or a bill. Another try does not
/// help against them, whatever status code comes with them.
pub open spec fn provider_limit_patterns() -> Seq<Seq<char>> {
    seq![
        "GoUsageLimitError"@,
        "FreeUsageLimitError"@,
        "Monthly usage limit reached"@,
        "available balance"@,
        "insufficient_quota"@,
        "out of budget"@,
        "quota exceeded"@,
        "billing"@,
    ]
}

/// Words of a passing failure of the provider, the network or the stream.
pub open spec fn transient_patterns() -> Seq<Seq<char>> {
    seq![
        "overloaded"@,
        "rate.?limit"@,
        "too many requests"@,
        "service.?unavailable"@,
        "server.?error"@,
        "internal.?error"@,
        "provider.?returned.?error"@,
        "network.?error"@,
        "connection.?error"@,
        "connection.?refused"@,
        "connection.?lost"@,
        "other side closed"@,
        "fetch failed"@,
        "upstream.?connect"@,
        "reset before headers"@,
        "socket hang up"@,
        "socket connection was closed"@,
        "timed? out"@,
        "timeout"@,
        "terminated"@,
        "websocket.?closed"@,
        "websocket.?error"@,
        "ended without"@,
        "stream ended before message_stop"@,
        "stream ended before a terminal response event"@,
        "http2 request did not get a response"@,
        "retry delay"@,
        "you can retry your request"@,
        "try your request again"@,
        "please retry your request"@,
        "ResourceExhausted"@,
    ]
}

/// One pattern that is found where any of `patterns` is, in capital or small letters.
pub open spec fn any_of(patterns: Seq<Seq<char>>) -> Seq<char> {
    "(?i)(?:"@ + pattern::joined(patterns, "|"@) + ")"@
}

fn provider_limit_pattern() -> (r: String)
    ensures
        r@ == any_of(provider_limit_patterns()),
{
    let patterns = vec![
        "GoUsageLimitError",
        "FreeUsageLimitError",
        "Monthly usage limit reached",
        "available balance",
        "insufficient_quota",
        "out of budget",
        "quota exceeded",
        "billing",
    ];
    assert(pattern::views(patterns@) =~= provider_limit_patterns());
    text::concat3("(?i)(?:", pattern::join(&patterns, "|").as_str(), ")")
}

fn transient_pattern() -> (r: String)
    ensures
        r@ == any_of(transient_patterns()),
{
    let patterns = vec![
        "overloaded",
        "rate.?limit",
        "too many requests",
        "service.?unavailable",
        "server.?error",
        "internal.?error",
        "provider.?returned.?error",
        "network.?error",
        "connection.?error",
        "connection.?refused",
        "connection.?lost",
        "other side closed",
        "fetch failed",
        "upstream.?connect",
        "reset before headers",
        "socket hang up",
        "socket connection was closed",
        "timed? out",
        "timeout",
        "terminated",
        "websocket.?closed",
        "websocket.?error",
        "ended without",
        "stream ended before message_stop",
        "stream ended before a terminal response event",
        "http2 request did not get a response",
        "retry delay",
        "you can retry your request",
        "try your request again",
        "please retry your request",
        "ResourceExhausted",
    ];
    assert(pattern::views(patterns@) =~= transient_patterns());
    text::concat3("(?i)(?:", pattern::join(&patterns, "|").as_str(), ")")
}

/// No digit stands directly before `from` or directly behind `to`.
pub open spec fn stands_alone(s: Seq<char>, from: int, to: int) -> bool {
    &&& !(0 < from <= s.len() && text::is_ascii_digit(s[from - 1]))
    &&& !(0 <= to < s.len() && text::is_ascii_digit(s[to]))
}

/// Whether an occurrence of `status` that stands alone is met in a search from `from` on that goes
/// on behind each occurrence.
pub open spec fn status_from(s: Seq<char>, status: Seq<char>, from: int) -> bool
    decreases s.len() - from,
{
    if from + status.len() > s.len() {
        false
    } else if text::occurs_at(s, status, from) {
        stands_alone(s, from, from + status.len()) || (from < s.len() && status_from(
            s,
            status,
            from + (if status.len() == 0 { 1 } else { status.len() as int }),
        ))
    } else {
        from < s.len() && status_from(s, status, from + 1)
    }
}

/// A status code is found exactly where it occurs with no digit before or behind it.
pub proof fn law_status_codes_stand_alone(s: Seq<char>, status: Seq<char>)
    requires
        status.len() > 0,
        forall|i: int| 0 <= i < status.len() ==> text::is_ascii_digit(#[trigger] status[i]),
    ensures
        status_from(s, status, 0) <==> exists|i: int|
            #[trigger] text::occurs_at(s, status, i) && stands_alone(s, i, i + status.len()),
{
    lemma_status_from(s, status, 0);
    assert(forall|i: int| text::occurs_at(s, status, i) ==> i >= 0);
}

proof fn lemma_status_from(s: Seq<char>, status: Seq<char>, from: int)
    requires
        0 <= from,
        status.len() > 0,
        forall|i: int| 0 <= i < status.len() ==> text::is_ascii_digit(#[trigger] status[i]),
    ensures
        status_from(s, status, from) <==> exists|i: int|
            i >= from && #[trigger] text::occurs_at(s, status, i) && stands_alone(
                s,
                i,
                i + status.len(),
            ),
    decreases s.len() - from,
{
    let n = status.len();
    if from + n > s.len() {
        return;
    }
    if text::occurs_at(s, status, from) {
        lemma_status_from(s, status, from + n);
        // An occurrence that overlaps this one has one of its digits directly before it.
        assert forall|i: int| #[trigger]
            text::occurs_at(s, status, i) && from < i < from + n implies !stands_alone(
            s,
            i,
            i + n,
        ) by {
            assert(s.subrange(from, from + n)[i - 1 - from] == status[i - 1 - from]);
            assert(text::is_ascii_digit(status[i - 1 - from]));
        }
        if stands_alone(s, from, from + n) {
            assert(from >= from && text::occurs_at(s, status, from));
        }
    } else {
        lemma_status_from(s, status, from + 1);
    }
}

/// Whether `c` is an ASCII digit.
fn ascii_digit(c: char) -> (b: bool)
    ensures
        b == text::is_ascii_digit(c),
{
    '0' <= c && c <= '9'
}

/// Whether `text` holds `status` as a decimal number of its own.
pub fn contains_status_code(text: &str, status: &str) -> (b: bool)
    ensures
        b == status_from(text@, status@, 0),
{
    let t = text::to_chars(text);
    let p = text::to_chars(status);
    let n: usize = p.len();
    let len: usize = t.len();
    let mut i: usize = 0;
    while i <= len && n <= len - i
        invariant
            t@ == text@,
            p@ == status@,
            n == p@.len(),
            len == t@.len(),
            i <= len,
            status_from(text@, status@, 0) == status_from(text@, status@, i as int),
        ensures
            !status_from(text@, status@, 0),
        decreases len - i,
    {
        let mut step: usize = 1;
        if text::occurs(&t, &p, i) {
            let before: bool = i > 0 && ascii_digit(t[i - 1]);
            let behind: bool = i + n < len && ascii_digit(t[i + n]);
            if !before && !behind {
                return true;
            }
            if n > 0 {
                step = n;
            }
        }
        if i == len {
            return false;
        }
        i += step;
    }
    false
}

/// The status codes of failures that pass.
pub open spec fn has_transient_status(lower: Seq<char>) -> bool {
    ||| status_from(lower, "429"@, 0)
    ||| status_from(lower, "500"@, 0)
    ||| status_from(lower, "502"@, 0)
    ||| status_from(lower, "503"@, 0)
    ||| status_from(lower, "504"@, 0)
    ||| status_from(lower, "524"@, 0)
}

/// Words of a failure that waiting does not mend: a wrong key, or a context that is too long.
pub open spec fn names_lasting_failure(lower: Seq<char>) -> bool {
    ||| text::contains_seq(lower, "invalid_api_key"@)
    ||| text::contains_seq(lower, "invalid api key"@)
    ||| text::contains_seq(lower, "context overflow"@)
    ||| text::contains_seq(lower, "context length"@)
    ||| text::contains_seq(lower, "maximum context"@)
}

/// Whether an error text in small letters names a failure that passes, given whether it holds words
/// of a provider's limits and words of a passing failure.
pub open spec fn transient_text(lower: Seq<char>, limit: bool, transient: bool) -> bool {
    !limit && !names_lasting_failure(lower) && (transient || has_transient_status(lower))
}

/// Decides on an error text in small letters from the answers of the two pattern searches.
pub fn is_transient_text(lower: &str, limit: bool, transient: bool) -> (b: bool)
    ensures
        b == transient_text(lower@, limit, transient),
{
    if limit {
        return false;
    }
    if text::contains_text(lower, "invalid_api_key") || text::contains_text(
        lower,
        "invalid api key",
    ) || text::contains_text(lower, "context overflow") || text::contains_text(
        lower,
        "context length",
    ) || text::contains_text(lower, "maximum context") {
        return false;
    }
    transient || contains_status_code(lower, "429") || contains_status_code(lower, "500")
        || contains_status_code(lower, "502") || contains_status_code(lower, "503")
        || contains_status_code(lower, "504") || contains_status_code(lower, "524")
}

/// Whether an assistant message is a failure that another try may mend.
pub open spec fn retryable_error(m: AssistantMessage) -> bool {
    &&& m.stop_reason == StopReason::Error
    &&& m.error_message matches Some(error)
    &&& ({
        let lower = text::ascii_lower(error@);
        transient_text(
            lower,
            pattern::pattern_found(any_of(provider_limit_patterns()), lower),
            pattern::pattern_found(any_of(transient_patterns()), lower),
        )
    })
}

/// Whether the assistant message is a failure that another try may mend.
pub fn is_retryable_assistant_error(message: &AssistantMessage) -> (b: bool)
    ensures
        b == retryable_error(*message),
{
    if message.stop_reason != StopReason::Error {
        return false;
    }
    match &message.error_message {
        Some(error) => {
            let lower = text::to_ascii_lower(error.as_str());
            let limit = pattern::find_pattern(provider_limit_pattern().as_str(), lower.as_str());
            let transient = pattern::find_pattern(transient_pattern().as_str(), lower.as_str());
            is_transient_text(lower.as_str(), limit, transient)
        },
        None => false,
    }
}

/// A failure that names a limit of the provider, a wrong key or a context that is too long is not
/// tried again, whatever else its text holds.
pub proof fn law_lasting_failures_are_not_retried(m: AssistantMessage)
    requires
        m.error_message is Some,
        pattern::pattern_found(
            any_of(provider_limit_patterns()),
            text::ascii_lower(m.error_message->0@),
        ) || names_lasting_failure(text::ascii_lower(m.error_message->0@)),
    ensures
        !retryable_error(m),
{
}

/// Whether the session tries again after an answer: the failure may pass, and it is not that the
/// context was too long, which compaction takes care of.
pub open spec fn session_retries(m: AssistantMessage, window: u64) -> bool {
    !overflow::context_overflow(m, window) && retryable_error(m)
}

/// A context that was too long is left to compaction.
pub proof fn law_overflow_is_not_retried(m: AssistantMessage, window: u64)
    requires
        overflow::context_overflow(m, window),
    ensures
        !session_retries(m, window),
{
}

/// `event` tells the start of a retry.
pub open spec fn is_retry_start(
    event: AgentSessionEvent,
    attempt: u32,
    max_attempts: u32,
    delay_ms: u64,
    error: Seq<char>,
) -> bool {
    event matches AgentSessionEvent::AutoRetryStart {
        attempt: a,
        max_attempts: m,
        delay_ms: d,
        error_message: e,
    } && a == attempt && m == max_attempts && d == delay_ms && e@ == error
}

/// `event` tells the end of retrying.
pub open spec fn is_retry_end(
    event: AgentSessionEvent,
    success: bool,
    attempt: u32,
    error: Option<Seq<char>>,
) -> bool {
    event matches AgentSessionEvent::AutoRetryEnd { success: s, attempt: a, final_error: e } && s
        == success && a == attempt && session::text_view(e) == error
}

/// Another retry is allowed.
pub open spec fn may_retry(s: SessionModel) -> bool {
    s.lifecycle.auto_retry_enabled && s.counters.retry_attempt < s.counters.max_retries
}

/// The text of a failed answer.
pub open spec fn failure_text(m: AssistantMessage) -> Seq<char> {
    match m.error_message {
        Some(e) => e@,
        None => "Unknown error"@,
    }
}

/// The wait before the next retry.
pub open spec fn next_delay(s: SessionModel) -> u64 {
    backoff(s.settings.retry.base_delay_ms as nat, (s.counters.retry_attempt + 1) as nat) as u64
}

/// `event` tells the start of the next retry of `s`.
pub open spec fn starts_retry(
    event: AgentSessionEvent,
    s: SessionModel,
    m: AssistantMessage,
) -> bool {
    is_retry_start(
        event,
        (s.counters.retry_attempt + 1) as u32,
        s.counters.max_retries,
        next_delay(s),
        failure_text(m),
    )
}

/// A session at the start of its next retry: it is counted and told, the failed answer leaves the
/// transcript, and the wait can be cancelled by `token`.
pub open spec fn retry_after(
    s: SessionModel,
    event: AgentSessionEvent,
    token: CancelToken,
) -> SessionModel {
    session::begun_retry(
        SessionModel {
            counters: SessionCounters {
                retry_attempt: (s.counters.retry_attempt + 1) as u32,
                ..s.counters
            },
            agent: session::popped_assistant(s.agent),
            ..s
        }.put(Effect::Emit(event)),
        token,
    )
}

/// `t` is `s` at the start of its next retry.
pub open spec fn retry_begun(
    s: SessionModel,
    t: SessionModel,
    m: AssistantMessage,
    token: CancelToken,
) -> bool {
    exists|event: AgentSessionEvent| #[trigger]
        starts_retry(event, s, m) && t == retry_after(s, event, token)
}

/// A session that no longer retries.
pub open spec fn no_longer_retrying(s: SessionModel) -> SessionModel {
    SessionModel { counters: SessionCounters { retry_attempt: 0, ..s.counters }, ..s }
}

/// `t` is `s` with the end of retrying told.
pub open spec fn with_retry_end(
    s: SessionModel,
    t: SessionModel,
    success: bool,
    attempt: u32,
    error: Option<Seq<char>>,
) -> bool {
    exists|event: AgentSessionEvent| #[trigger]
        is_retry_end(event, success, attempt, error) && t == s.put(Effect::Emit(event))
}

/// The retries of a run of failures are numbered from 1, there are at most as many as allowed, and
/// the failure after the last of them ends them with their number: a start keeps the count within
/// the limit, and where no further retry is allowed the end is told and the count is 0 again.
pub proof fn law_retries_are_counted_and_bounded(
    s: SessionModel,
    t: SessionModel,
    m: AssistantMessage,
    token: CancelToken,
)
    requires
        may_retry(s),
        retry_begun(s, t, m, token),
    ensures
        t.counters.retry_attempt == s.counters.retry_attempt + 1,
        t.counters.retry_attempt <= t.counters.max_retries,
        t.counters.max_retries == s.counters.max_retries,
        t.counters.retry_attempt == t.counters.max_retries ==> !may_retry(t),
{
}

impl AgentSession {
    /// The current retry, 0 where there is none.
    pub fn retry_attempt(&self) -> (r: u32)
        ensures
            r == self@.counters.retry_attempt,
    {
        self.counters.retry_attempt
    }

    /// Whether an answer is a failure that the session tries again after.
    pub fn is_retryable_error(&self, message: &AssistantMessage) -> (b: bool)
        ensures
            b == session_retries(*message, self@.agent.model.context_window),
    {
        if overflow::is_context_overflow(message, self.agent.model.context_window) {
            return false;
        }
        is_retryable_assistant_error(message)
    }

    /// Whether the session goes on with a retry after the last answer, which the end of a run is told
    /// with.
    pub fn will_retry(&self) -> (b: bool)
        ensures
            b == match session::last_assistant_in(self@.agent.transcript) {
                Some(m) => session_retries(m, self@.agent.model.context_window) && may_retry(self@),
                None => false,
            },
    {
        match self.last_assistant() {
            Some(message) => self.is_retryable_error(&message) && self.lifecycle.auto_retry_enabled
                && self.counters.retry_attempt < self.counters.max_retries,
            None => false,
        }
    }

    /// Starts a retry after a failed answer, and gives how many milliseconds to wait for it; none
    /// where retrying is off or there were as many as allowed. The caller waits, until `token` is
    /// cancelled at most, and then calls [`AgentSession::retry_wait_ended`].
    pub fn prepare_retry(&mut self, message: &AssistantMessage, token: CancelToken) -> (r: Option<
        u64,
    >)
        ensures
            if may_retry(old(self)@) {
                &&& r == Some(next_delay(old(self)@))
                &&& retry_begun(old(self)@, final(self)@, *message, token)
            } else {
                &&& r is None
                &&& final(self)@ == old(self)@
            },
    {
        if !self.lifecycle.auto_retry_enabled {
            return None;
        }
        if self.counters.retry_attempt >= self.counters.max_retries {
            return None;
        }
        let attempt: u32 = self.counters.retry_attempt + 1;
        let max_attempts: u32 = self.counters.max_retries;
        let delay_ms: u64 = backoff_delay_ms(self.settings.retry.base_delay_ms, attempt);
        self.counters.retry_attempt = attempt;
        let error_message = match &message.error_message {
            Some(e) => e.clone(),
            None => "Unknown error".to_owned(),
        };
        let event = AgentSessionEvent::AutoRetryStart {
            attempt,
            max_attempts,
            delay_ms,
            error_message,
        };
        assert(starts_retry(event, old(self)@, *message));
        let ghost told = event;
        self.emit_public(event);
        self.pop_last_if_assistant();
        self.begin_retry_abort(token);
        assert(self@ == retry_after(old(self)@, told, token));
        Some(delay_ms)
    }

    /// Ends the wait for a retry, and tells whether the run goes on: where the wait was cancelled it
    /// does not, and retrying is over.
    pub fn retry_wait_ended(&mut self, cancelled: bool) -> (r: bool)
        ensures
            r == !cancelled,
            ({
                let cleared = SessionModel {
                    slots: AbortSlots { retry: None, ..old(self)@.slots },
                    ..old(self)@
                };
                if cancelled {
                    with_retry_end(
                        no_longer_retrying(cleared),
                        final(self)@,
                        false,
                        old(self)@.counters.retry_attempt,
                        Some("Retry cancelled"@),
                    )
                } else {
                    final(self)@ == cleared
                }
            }),
    {
        if cancelled {
            let attempt: u32 = self.counters.retry_attempt;
            self.counters.retry_attempt = 0;
            self.clear_retry_abort();
            let event = AgentSessionEvent::AutoRetryEnd {
                success: false,
                attempt,
                final_error: Some("Retry cancelled".to_owned()),
            };
            assert(is_retry_end(event, false, attempt, Some("Retry cancelled"@)));
            self.emit_public(event);
            false
        } else {
            self.clear_retry_abort();
            true
        }
    }

    /// Ends retrying where a failure follows retries and there is no further one.
    pub fn emit_retry_exhausted(&mut self, message: &AssistantMessage)
        ensures
            if message.stop_reason == StopReason::Error && old(self)@.counters.retry_attempt > 0 {
                with_retry_end(
                    no_longer_retrying(old(self)@),
                    final(self)@,
                    false,
                    old(self)@.counters.retry_attempt,
                    session::text_view(message.error_message),
                )
            } else {
                final(self)@ == old(self)@
            },
    {
        if message.stop_reason == StopReason::Error && self.counters.retry_attempt > 0 {
            let attempt: u32 = self.counters.retry_attempt;
            self.counters.retry_attempt = 0;
            let event = AgentSessionEvent::AutoRetryEnd {
                success: false,
                attempt,
                final_error: clone_text(&message.error_message),
            };
            assert(is_retry_end(
                event,
                false,
                attempt,
                session::text_view(message.error_message),
            ));
            self.emit_public(event);
        }
    }
}

/// Making capitals small moves no digit: a status code stands in the text where it stands in its
/// small letters, and it stands alone there where it does here.
proof fn lemma_digits_stay(text: Seq<char>, code: Seq<char>, i: int)
    requires
        forall|k: int| 0 <= k < code.len() ==> text::is_ascii_digit(#[trigger] code[k]),
    ensures
        text::ascii_lower(text).len() == text.len(),
        text::occurs_at(text::ascii_lower(text), code, i) == text::occurs_at(text, code, i),
        forall|k: int|
            0 <= k < text.len() ==> text::is_ascii_digit(#[trigger] text::ascii_lower(text)[k])
                == text::is_ascii_digit(text[k]),
{
    let lower = text::ascii_lower(text);
    let n = code.len() as int;
    if 0 <= i && i + n <= text.len() {
        if text::occurs_at(text, code, i) {
            assert forall|k: int| 0 <= k < n implies lower.subrange(i, i + n)[k] == code[k] by {
                assert(text.subrange(i, i + n)[k] == code[k]);
                assert(text::is_ascii_digit(code[k]));
            }
            assert(lower.subrange(i, i + n) =~= code);
        }
        if text::occurs_at(lower, code, i) {
            assert forall|k: int| 0 <= k < n implies text.subrange(i, i + n)[k] == code[k] by {
                assert(lower.subrange(i, i + n)[k] == code[k]);
                assert(text::is_ascii_digit(code[k]));
            }
            assert(text.subrange(i, i + n) =~= code);
        }
    }
}

/// The text of a failure holds the code at `i`, with no digit directly before or behind it.
pub open spec fn code_stands_at(text: Seq<char>, code: Seq<char>, i: int) -> bool {
    &&& text::occurs_at(text, code, i)
    &&& i > 0 ==> !('0' <= text[i - 1] <= '9')
    &&& i + code.len() < text.len() ==> !('0' <= text[i + code.len()] <= '9')
}

proof fn lemma_code_found(text: Seq<char>, code: Seq<char>)
    requires
        code.len() > 0,
        forall|k: int| 0 <= k < code.len() ==> text::is_ascii_digit(#[trigger] code[k]),
    ensures
        status_from(text::ascii_lower(text), code, 0) <==> exists|i: int| #[trigger]
            code_stands_at(text, code, i),
{
    let lower = text::ascii_lower(text);
    law_status_codes_stand_alone(lower, code);
    assert forall|i: int| #[trigger] code_stands_at(text, code, i) implies text::occurs_at(
        lower,
        code,
        i,
    ) && stands_alone(lower, i, i + code.len()) by {
        lemma_digits_stay(text, code, i);
    }
    assert forall|i: int| #[trigger]
        text::occurs_at(lower, code, i) && stands_alone(
            lower,
            i,
            i + code.len(),
        ) implies code_stands_at(text, code, i) by {
        lemma_digits_stay(text, code, i);
    }
}

proof fn lemma_codes(text: Seq<char>)
    ensures
        forall|code: Seq<char>|
            code == "429"@ || code == "500"@ || code == "502"@ || code == "503"@ || code == "504"@
                || code == "524"@ ==> (#[trigger] status_from(text::ascii_lower(text), code, 0)
                <==> exists|i: int| #[trigger] code_stands_at(text, code, i)),
{
    reveal_strlit("429");
    reveal_strlit("500");
    reveal_strlit("502");
    reveal_strlit("503");
    reveal_strlit("504");
    reveal_strlit("524");
    lemma_code_found(text, "429"@);
    lemma_code_found(text, "500"@);
    lemma_code_found(text, "502"@);
    lemma_code_found(text, "503"@);
    lemma_code_found(text, "504"@);
    lemma_code_found(text, "524"@);
}

/// A failed answer whose text holds one of the codes of a passing failure, with no digit directly
/// before or behind it, is worth another try, wherever in the text it stands, as long as the text
/// speaks of no limit of the provider, no wrong key and no context that is too long.
pub proof fn law_passing_status_codes_are_retried(
    message: &AssistantMessage,
    code: Seq<char>,
    i: int,
    retryable: bool,
)
    requires
        call_ensures(is_retryable_assistant_error, (message,), retryable),
        code == "429"@ || code == "500"@ || code == "502"@ || code == "503"@ || code == "504"@
            || code == "524"@,
        message.stop_reason == StopReason::Error,
        message.error_message is Some,
        text::occurs_at(message.error_message->0@, code, i),
        i > 0 ==> !('0' <= message.error_message->0@[i - 1] <= '9'),
        i + 3 < message.error_message->0@.len() ==> !('0' <= message.error_message->0@[i + 3]
            <= '9'),
        !pattern::pattern_found(
            any_of(provider_limit_patterns()),
            text::ascii_lower(message.error_message->0@),
        ),
        !text::contains_seq(text::ascii_lower(message.error_message->0@), "invalid_api_key"@),
        !text::contains_seq(text::ascii_lower(message.error_message->0@), "invalid api key"@),
        !text::contains_seq(text::ascii_lower(message.error_message->0@), "context overflow"@),
        !text::contains_seq(text::ascii_lower(message.error_message->0@), "context length"@),
        !text::contains_seq(text::ascii_lower(message.error_message->0@), "maximum context"@),
    ensures
        retryable,
{
    let text = message.error_message->0@;
    reveal_strlit("429");
    reveal_strlit("500");
    reveal_strlit("502");
    reveal_strlit("503");
    reveal_strlit("504");
    reveal_strlit("524");
    assert(code.len() == 3);
    lemma_codes(text);
    assert(code_stands_at(text, code, i));
    assert(status_from(text::ascii_lower(text), code, 0));
}

/// A failed answer whose text holds words of a passing failure is worth another try as well, under
/// the same conditions; one that holds neither such words nor such a code is not.
pub proof fn law_passing_words_are_retried(message: &AssistantMessage, retryable: bool)
    requires
        call_ensures(is_retryable_assistant_error, (message,), retryable),
        message.stop_reason == StopReason::Error,
        message.error_message is Some,
    ensures
        ({
            let text = message.error_message->0@;
            let lower = text::ascii_lower(text);
            let words = pattern::pattern_found(any_of(transient_patterns()), lower);
            let lasts = pattern::pattern_found(any_of(provider_limit_patterns()), lower)
                || text::contains_seq(lower, "invalid_api_key"@) || text::contains_seq(
                lower,
                "invalid api key"@,
            ) || text::contains_seq(lower, "context overflow"@) || text::contains_seq(
                lower,
                "context length"@,
            ) || text::contains_seq(lower, "maximum context"@);
            &&& words && !lasts ==> retryable
            &&& lasts ==> !retryable
            &&& !words && (forall|code: Seq<char>, i: int|
                code == "429"@ || code == "500"@ || code == "502"@ || code == "503"@ || code
                    == "504"@ || code == "524"@ ==> !#[trigger] code_stands_at(text, code, i))
                ==> !retryable
        }),
{
    lemma_codes(message.error_message->0@);
}

/// An answer that did not fail, or failed without a text, is not worth another try.
pub proof fn law_only_failures_with_a_text_are_retried(message: &AssistantMessage, retryable: bool)
    requires
        call_ensures(is_retryable_assistant_error, (message,), retryable),
    ensures
        retryable ==> message.stop_reason == StopReason::Error && message.error_message is Some,
{
}

/// The words that count as those of a passing failure.
pub proof fn law_passing_words_are_known(p: Seq<char>)
    ensures
        transient_patterns().len() == 31,
        transient_patterns().contains(p) <==> (
        p == "overloaded"@
        || p == "rate.?limit"@
        || p == "too many requests"@
        || p == "service.?unavailable"@
        || p == "server.?error"@
        || p == "internal.?error"@
        || p == "provider.?returned.?error"@
        || p == "network.?error"@
        || p == "connection.?error"@
        || p == "connection.?refused"@
        || p == "connection.?lost"@
        || p == "other side closed"@
        || p == "fetch failed"@
        || p == "upstream.?connect"@
        || p == "reset before headers"@
        || p == "socket hang up"@
        || p == "socket connection was closed"@
        || p == "timed? out"@
        || p == "timeout"@
        || p == "terminated"@
        || p == "websocket.?closed"@
        || p == "websocket.?error"@
        || p == "ended without"@
        || p == "stream ended before message_stop"@
        || p == "stream ended before a terminal response event"@
        || p == "http2 request did not get a response"@
        || p == "retry delay"@
        || p == "you can retry your request"@
        || p == "try your request again"@
        || p == "please retry your request"@
        || p == "ResourceExhausted"@
        ),
{
    assert(transient_patterns()[0] == "overloaded"@);
    assert(transient_patterns()[1] == "rate.?limit"@);
    assert(transient_patterns()[2] == "too many requests"@);
    assert(transient_patterns()[3] == "service.?unavailable"@);
    assert(transient_patterns()[4] == "server.?error"@);
    assert(transient_patterns()[5] == "internal.?error"@);
    assert(transient_patterns()[6] == "provider.?returned.?error"@);
    assert(transient_patterns()[7] == "network.?error"@);
    assert(transient_patterns()[8] == "connection.?error"@);
    assert(transient_patterns()[9] == "connection.?refused"@);
    assert(transient_patterns()[10] == "connection.?lost"@);
    assert(transient_patterns()[11] == "other side closed"@);
    assert(transient_patterns()[12] == "fetch failed"@);
    assert(transient_patterns()[13] == "upstream.?connect"@);
    assert(transient_patterns()[14] == "reset before headers"@);
    assert(transient_patterns()[15] == "socket hang up"@);
    assert(transient_patterns()[16] == "socket connection was closed"@);
    assert(transient_patterns()[17] == "timed? out"@);
    assert(transient_patterns()[18] == "timeout"@);
    assert(transient_patterns()[19] == "terminated"@);
    assert(transient_patterns()[20] == "websocket.?closed"@);
    assert(transient_patterns()[21] == "websocket.?error"@);
    assert(transient_patterns()[22] == "ended without"@);
    assert(transient_patterns()[23] == "stream ended before message_stop"@);
    assert(transient_patterns()[24] == "stream ended before a terminal response event"@);
    assert(transient_patterns()[25] == "http2 request did not get a response"@);
    assert(transient_patterns()[26] == "retry delay"@);
    assert(transient_patterns()[27] == "you can retry your request"@);
    assert(transient_patterns()[28] == "try your request again"@);
    assert(transient_patterns()[29] == "please retry your request"@);
    assert(transient_patterns()[30] == "ResourceExhausted"@);
}

/// The words that count as those of a provider's limit.
pub proof fn law_limit_words_are_known(p: Seq<char>)
    ensures
        provider_limit_patterns().len() == 8,
        provider_limit_patterns().contains(p) <==> (
        p == "GoUsageLimitError"@
        || p == "FreeUsageLimitError"@
        || p == "Monthly usage limit reached"@
        || p == "available balance"@
        || p == "insufficient_quota"@
        || p == "out of budget"@
        || p == "quota exceeded"@
        || p == "billing"@
        ),
{
    assert(provider_limit_patterns()[0] == "GoUsageLimitError"@);
    assert(provider_limit_patterns()[1] == "FreeUsageLimitError"@);
    assert(provider_limit_patterns()[2] == "Monthly usage limit reached"@);
    assert(provider_limit_patterns()[3] == "available balance"@);
    assert(provider_limit_patterns()[4] == "insufficient_quota"@);
    assert(provider_limit_patterns()[5] == "out of budget"@);
    assert(provider_limit_patterns()[6] == "quota exceeded"@);
    assert(provider_limit_patterns()[7] == "billing"@);
}

/// The decision on a text in small letters follows its words: a limit always speaks against another
/// try, words of a passing failure speak for one where none of a lasting failure stand in the text,
/// and without either a code of a passing failure has to stand alone.
pub proof fn law_texts_are_judged_by_their_words(
    lower: &str,
    limit: bool,
    transient: bool,
    worth: bool,
    without_limit: bool,
)
    requires
        call_ensures(is_transient_text, (lower, limit, transient), worth),
        call_ensures(is_transient_text, (lower, false, transient), without_limit),
    ensures
        limit ==> !worth,
        !limit ==> worth == without_limit,
        without_limit ==> !text::contains_seq(lower@, "invalid_api_key"@) && !text::contains_seq(
            lower@,
            "invalid api key"@,
        ) && !text::contains_seq(lower@, "context overflow"@) && !text::contains_seq(
            lower@,
            "context length"@,
        ) && !text::contains_seq(lower@, "maximum context"@),
{
}

/// The session tries again after a failure that is worth it, unless it shows that the context was too
/// long for the selected model.
pub proof fn law_session_retries_what_passes(
    session: &AgentSession,
    message: &AssistantMessage,
    tries: bool,
    overflow: bool,
    worth: bool,
)
    requires
        call_ensures(AgentSession::is_retryable_error, (session, message), tries),
        call_ensures(
            overflow::is_context_overflow,
            (message, session@.agent.model.context_window),
            overflow,
        ),
        call_ensures(is_retryable_assistant_error, (message,), worth),
    ensures
        tries <==> worth && !overflow,
{
}

/// What the end of a run says of a retry is what happens: it says that one follows exactly where the
/// last answer of the transcript is tried again after and the next retry is allowed.
pub proof fn law_a_retry_is_told_as_it_follows(
    session: &AgentSession,
    last: &AssistantMessage,
    tries: bool,
    told: bool,
)
    requires
        call_ensures(AgentSession::will_retry, (session,), told),
        call_ensures(AgentSession::is_retryable_error, (session, last), tries),
        session@.agent.transcript.len() > 0,
        session@.agent.transcript.last() == AgentMessage::Llm(
            Message::Assistant(*last),
        ),
    ensures
        told <==> tries && session@.lifecycle.auto_retry_enabled && session@.counters.retry_attempt
            < session@.counters.max_retries,
{
}

/// The waits before retries: the first is the base, each further one twice the one before it, up to
/// the longest that 64 bits can tell.
pub proof fn law_waits_double(base: u64, attempt: u32, first: u64, wait: u64, next: u64)
    requires
        call_ensures(backoff_delay_ms, (base, 1u32), first),
        1 <= attempt < u32::MAX,
        call_ensures(backoff_delay_ms, (base, attempt), wait),
        call_ensures(backoff_delay_ms, (base, (attempt + 1) as u32), next),
    ensures
        first == base,
        2 * wait <= u64::MAX ==> next == 2 * wait,
        2 * wait > u64::MAX ==> next == u64::MAX,
{
    law_backoff_doubles(base as nat, attempt as nat);
}

/// A retry that is allowed is counted, told and waited for: the count goes up by one and stays within
/// the limit, the told number is the new count, the told wait is the one that is given and the one of
/// that number, the told error is the failure's, the failed answer leaves the transcript, and the wait
/// can be cancelled by the token.
pub proof fn law_a_retry_is_counted_told_and_waited_for(
    session: &mut AgentSession,
    message: &AssistantMessage,
    token: CancelToken,
    wait: Option<u64>,
    delay: u64,
)
    requires
        call_ensures(AgentSession::prepare_retry, (session, message, token), wait),
        old(session)@.counters.retry_attempt < old(session)@.counters.max_retries,
        call_ensures(
            backoff_delay_ms,
            (
                old(session)@.settings.retry.base_delay_ms,
                (old(session)@.counters.retry_attempt + 1) as u32,
            ),
            delay,
        ),
    ensures
        !old(session)@.lifecycle.auto_retry_enabled ==> wait is None && final(session)@ == old(session)@,
        old(session)@.lifecycle.auto_retry_enabled ==> {
            let s = old(session)@;
            let t = final(session)@;
            let n = s.outbox.len() as int;
            &&& wait == Some(delay)
            &&& t.counters.retry_attempt == s.counters.retry_attempt + 1
            &&& t.slots.retry == Some(token)
            &&& t.outbox.len() > n && t.outbox.take(n) == s.outbox
            &&& t.outbox[n] matches Effect::Emit(
                AgentSessionEvent::AutoRetryStart {
                    attempt,
                    max_attempts,
                    delay_ms,
                    error_message,
                },
            ) && attempt == s.counters.retry_attempt + 1 && max_attempts == s.counters.max_retries
                && delay_ms == delay && error_message@ == match message.error_message {
                Some(error) => error@,
                None => "Unknown error"@,
            }
            &&& s.slots.retry matches Some(before) ==> t.outbox.last() == Effect::Cancel(before)
            &&& (s.agent.transcript.len() > 0 && (s.agent.transcript.last() matches AgentMessage::Llm(
                Message::Assistant(_),
            ))) ==> t.agent.transcript == s.agent.transcript.drop_last()
            &&& t.settings == s.settings && t.lifecycle == s.lifecycle
        },
{
    let s = old(session)@;
    let t = final(session)@;
    if s.lifecycle.auto_retry_enabled {
        assert(t.outbox.take(s.outbox.len() as int) =~= s.outbox);
    }
}

/// There is no retry past the limit.
pub proof fn law_no_retry_past_the_limit(
    session: &mut AgentSession,
    message: &AssistantMessage,
    token: CancelToken,
    wait: Option<u64>,
)
    requires
        call_ensures(AgentSession::prepare_retry, (session, message, token), wait),
        old(session)@.counters.retry_attempt >= old(session)@.counters.max_retries,
    ensures
        wait is None,
        final(session)@ == old(session)@,
{
}

/// A wait that was not cancelled leads on to the retry, with its count; one that was cancelled ends
/// retrying without success, told with the number of the retry, and the count starts anew.
pub proof fn law_a_cancelled_wait_ends_retrying(
    session: &mut AgentSession,
    cancelled: bool,
    goes_on: bool,
)
    requires
        call_ensures(AgentSession::retry_wait_ended, (session, cancelled), goes_on),
    ensures
        goes_on != cancelled,
        final(session)@.slots.retry is None,
        final(session)@.agent == old(session)@.agent,
        !cancelled ==> final(session)@.counters == old(session)@.counters && final(session)@.outbox
            == old(session)@.outbox,
        cancelled ==> {
            &&& final(session)@.counters.retry_attempt == 0
            &&& final(session)@.outbox.len() == old(session)@.outbox.len() + 1
            &&& final(session)@.outbox.last() matches Effect::Emit(
                AgentSessionEvent::AutoRetryEnd { success, attempt, final_error },
            ) && !success && attempt == old(session)@.counters.retry_attempt && final_error is Some
                && final_error->0@ == "Retry cancelled"@
        },
{
}

/// A failure after retries with no further one ends retrying: this is told once, without success,
/// with the number of retries and the failure's text, and the count starts anew. An answer that is no
/// failure, or a failure without retries, changes nothing here.
pub proof fn law_the_last_failure_ends_retrying(
    session: &mut AgentSession,
    message: &AssistantMessage,
    done: (),
)
    requires
        call_ensures(AgentSession::emit_retry_exhausted, (session, message), done),
    ensures
        message.stop_reason != StopReason::Error || old(session)@.counters.retry_attempt == 0
            ==> final(session)@ == old(session)@,
        message.stop_reason == StopReason::Error && old(session)@.counters.retry_attempt > 0 ==> {
            &&& final(session)@.counters.retry_attempt == 0
            &&& final(session)@.outbox.len() == old(session)@.outbox.len() + 1
            &&& final(session)@.outbox.last() matches Effect::Emit(
                AgentSessionEvent::AutoRetryEnd { success, attempt, final_error },
            ) && !success && attempt == old(session)@.counters.retry_attempt && (final_error is Some
                <==> message.error_message is Some) && (final_error is Some ==> final_error->0@
                == message.error_message->0@)
        },
{
}

/// Words are looked for together, in capital or small letters: as a pattern, one word stands in a
/// group that does not tell letters apart, and each further one stands behind a bar.
pub proof fn law_words_are_looked_for_together(words: Seq<Seq<char>>, word: Seq<char>)
    ensures
        any_of(seq![word]) == "(?i)(?:"@ + word + ")"@,
        words.len() > 0 ==> any_of(words.push(word)) == any_of(words).drop_last() + "|"@ + word
            + ")"@,
{
    reveal_strlit(")");
    let one = seq![word];
    assert(pattern::joined(one, "|"@) == word);
    if words.len() > 0 {
        assert(words.push(word).drop_last() =~= words);
        let j = pattern::joined(words, "|"@);
        assert(any_of(words).drop_last() =~= "(?i)(?:"@ + j);
        assert(any_of(words.push(word)) =~= any_of(words).drop_last() + "|"@ + word + ")"@);
    }
}

/// A code is held where its digits stand with no other digit before or behind them, and only there.
pub proof fn law_a_code_is_a_number_of_its_own(
    text: &str,
    status: &str,
    before: Seq<char>,
    behind: Seq<char>,
    held: bool,
)
    requires
        call_ensures(contains_status_code, (text, status), held),
        status@.len() > 0,
        forall|k: int| 0 <= k < status@.len() ==> '0' <= #[trigger] status@[k] <= '9',
    ensures
        text@ == before + status@ + behind && (before.len() > 0 ==> !('0' <= before.last() <= '9'))
            && (behind.len() > 0 ==> !('0' <= behind[0] <= '9')) ==> held,
        held ==> exists|i: int|
            0 <= i && i + status@.len() <= text@.len() && #[trigger] text@.subrange(
                i,
                i + status@.len(),
            ) == status@ && (i > 0 ==> !('0' <= text@[i - 1] <= '9')) && (i + status@.len()
                < text@.len() ==> !('0' <= text@[i + status@.len()] <= '9')),
{
    law_status_codes_stand_alone(text@, status@);
    let n = status@.len() as int;
    if text@ == before + status@ + behind && (before.len() > 0 ==> !('0' <= before.last() <= '9'))
        && (behind.len() > 0 ==> !('0' <= behind[0] <= '9')) {
        let i = before.len() as int;
        assert(text@.subrange(i, i + n) =~= status@);
        if i > 0 {
            assert(text@[i - 1] == before.last());
        }
        if behind.len() > 0 {
            assert(text@[i + n] == behind[0]);
        }
        assert(text::occurs_at(text@, status@, i));
        assert(stands_alone(text@, i, i + n));
    }
    if held {
        let i = choose|i: int| #[trigger]
            text::occurs_at(text@, status@, i) && stands_alone(text@, i, i + status@.len());
        assert(text@.subrange(i, i + status@.len()) == status@);
    }
}

/// The retry that a session tells of is the one that it counts.
pub proof fn law_the_retry_is_told(session: &AgentSession, attempt: u32)
    requires
        call_ensures(AgentSession::retry_attempt, (session,), attempt),
    ensures
        attempt == session@.counters.retry_attempt,
{
}

} // verus!
