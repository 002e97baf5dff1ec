//! Answers that say, or show, that the context was too long for the model.

use crate::messages::{AssistantMessage, Model, StopReason};
use crate::pattern;
use crate::text;
use vstd::prelude::*;

verus! {

/// Words of an error about a context that is too long.
pub open spec fn overflow_patterns() -> Seq<Seq<char>> {
    seq![
        r"(?i)prompt is too long"@,
        r"(?i)request_too_large"@,
        r"(?i)input is too long for requested model"@,
        r"(?i)exceeds the context window"@,
        r"(?i)exceeds (?:the )?(?:model'?s )?maximum context length(?: of [\d,]+ tokens?|\s*\([\d,]+\))"@,
        r"(?i)input token count.*exceeds the maximum"@,
        r"(?i)maximum prompt length is \d+"@,
        r"(?i)reduce the length of the messages"@,
        r"(?i)maximum context length is \d+ tokens"@,
        r"(?i)exceeds (?:the )?maximum allowed input length of [\d,]+ tokens?"@,
        r"(?i)input \(\d+ tokens\) is longer than the model'?s context length \(\d+ tokens\)"@,
        r"(?i)exceeds the limit of \d+"@,
        r"(?i)exceeds the available context size"@,
        r"(?i)greater than the context length"@,
        r"(?i)context window exceeds limit"@,
        r"(?i)exceeded model token limit"@,
        r"(?i)too large for model with \d+ maximum context length"@,
        r"(?i)prompt has [\d,]+ tokens?, but the configured context size is [\d,]+ tokens?"@,
        r"(?i)model_context_window_exceeded"@,
        r"(?i)prompt too long; exceeded (?:max )?context length"@,
        r"(?i)context[_ ]length[_ ]exceeded"@,
        r"(?i)too many tokens"@,
        r"(?i)token limit exceeded"@,
        r"(?i)^4(?:00|13)\s*(?:status code)?\s*\(no body\)"@,
    ]
}

/// Words of an error that is about something else, though it may look alike.
pub open spec fn non_overflow_patterns() -> Seq<Seq<char>> {
    seq![
        r"(?i)^(Throttling error|Service unavailable):"@,
        r"(?i)rate limit"@,
        r"(?i)too many requests"@,
    ]
}

fn names_overflow(error: &str) -> (b: bool)
    ensures
        b == pattern::any_found(overflow_patterns(), error@),
{
    let patterns = vec![
        r"(?i)prompt is too long",
        r"(?i)request_too_large",
        r"(?i)input is too long for requested model",
        r"(?i)exceeds the context window",
        r"(?i)exceeds (?:the )?(?:model'?s )?maximum context length(?: of [\d,]+ tokens?|\s*\([\d,]+\))",
        r"(?i)input token count.*exceeds the maximum",
        r"(?i)maximum prompt length is \d+",
        r"(?i)reduce the length of the messages",
        r"(?i)maximum context length is \d+ tokens",
        r"(?i)exceeds (?:the )?maximum allowed input length of [\d,]+ tokens?",
        r"(?i)input \(\d+ tokens\) is longer than the model'?s context length \(\d+ tokens\)",
        r"(?i)exceeds the limit of \d+",
        r"(?i)exceeds the available context size",
        r"(?i)greater than the context length",
        r"(?i)context window exceeds limit",
        r"(?i)exceeded model token limit",
        r"(?i)too large for model with \d+ maximum context length",
        r"(?i)prompt has [\d,]+ tokens?, but the configured context size is [\d,]+ tokens?",
        r"(?i)model_context_window_exceeded",
        r"(?i)prompt too long; exceeded (?:max )?context length",
        r"(?i)context[_ ]length[_ ]exceeded",
        r"(?i)too many tokens",
        r"(?i)token limit exceeded",
        r"(?i)^4(?:00|13)\s*(?:status code)?\s*\(no body\)",
    ];
    assert(pattern::views(patterns@) =~= overflow_patterns());
    pattern::find_any(&patterns, error)
}

fn names_other_failure(error: &str) -> (b: bool)
    ensures
        b == pattern::any_found(non_overflow_patterns(), error@),
{
    let patterns = vec![
        r"(?i)^(Throttling error|Service unavailable):",
        r"(?i)rate limit",
        r"(?i)too many requests",
    ];
    assert(pattern::views(patterns@) =~= non_overflow_patterns());
    pattern::find_any(&patterns, error)
}

/// The tokens that a request put into the context, as far as 64 bits go.
pub open spec fn input_tokens(m: AssistantMessage) -> int {
    let sum = m.usage.input + m.usage.cache_read;
    if sum <= u64::MAX {
        sum
    } else {
        u64::MAX as int
    }
}

/// Whether an answer shows that the context was too long, given whether its error text holds words
/// of that and words of something else:
/// an error that says so; an answer whose input is larger than the window; an answer that was cut
/// before its first word, with an input of at least 99 hundredths of the window.
pub open spec fn overflow_from(
    m: AssistantMessage,
    window: u64,
    named: bool,
    other: bool,
) -> bool {
    ||| m.stop_reason == StopReason::Error && m.error_message is Some && named && !other
    ||| window > 0 && m.stop_reason == StopReason::Stop && input_tokens(m) > window
    ||| window > 0 && m.stop_reason == StopReason::Length && m.usage.output == 0 && input_tokens(m)
        >= window as int * 99 / 100
}

/// Whether an answer shows that the context was too long.
pub open spec fn context_overflow(m: AssistantMessage, window: u64) -> bool {
    match m.error_message {
        Some(error) => overflow_from(
            m,
            window,
            pattern::any_found(overflow_patterns(), error@),
            pattern::any_found(non_overflow_patterns(), error@),
        ),
        None => overflow_from(m, window, false, false),
    }
}

/// Decides on an answer from what its error text holds.
pub fn overflow_decision(
    message: &AssistantMessage,
    context_window: u64,
    named: bool,
    other: bool,
) -> (b: bool)
    ensures
        b == overflow_from(*message, context_window, named, other),
{
    if message.stop_reason == StopReason::Error && message.error_message.is_some() && !other
        && named {
        return true;
    }
    let input: u64 = message.usage.input.saturating_add(message.usage.cache_read);
    if context_window > 0 && message.stop_reason == StopReason::Stop {
        if input > context_window {
            return true;
        }
    }
    if context_window > 0 && message.stop_reason == StopReason::Length && message.usage.output
        == 0 {
        let threshold: u64 = context_window / 100 * 99 + context_window % 100 * 99 / 100;
        assert(threshold == context_window as int * 99 / 100);
        if input >= threshold {
            return true;
        }
    }
    false
}

/// Whether an answer shows that the context was too long for a window of this size.
pub fn is_context_overflow(message: &AssistantMessage, context_window: u64) -> (b: bool)
    ensures
        b == context_overflow(*message, context_window),
{
    match &message.error_message {
        Some(error) => {
            let failed: bool = message.stop_reason == StopReason::Error;
            let other: bool = failed && names_other_failure(error.as_str());
            let named: bool = failed && !other && names_overflow(error.as_str());
            overflow_decision(message, context_window, named, other)
        },
        None => overflow_decision(message, context_window, false, false),
    }
}

/// The answer came from this model.
pub open spec fn from_model(model: Model, m: AssistantMessage) -> bool {
    m.provider@ == model.provider@ && m.model@ == model.id@
}

/// Whether an answer came from the selected model.
pub fn same_model(model: &Model, assistant: &AssistantMessage) -> (b: bool)
    ensures
        b == from_model(*model, *assistant),
{
    text::same_text(assistant.provider.as_str(), model.provider.as_str()) && text::same_text(
        assistant.model.as_str(),
        model.id.as_str(),
    )
}

/// An answer that stopped of itself shows a context that was too long exactly where the tokens that
/// were sent and those that were read from the cache come to more than the window. Without a window
/// nothing does. (A sum past 64 bits is only compared with a window that it can be larger than.)
pub proof fn law_cached_tokens_fill_the_window(
    message: &AssistantMessage,
    window: u64,
    named: bool,
    other: bool,
    overflow: bool,
    decided: bool,
)
    requires
        call_ensures(is_context_overflow, (message, window), overflow),
        call_ensures(overflow_decision, (message, window, named, other), decided),
        message.stop_reason == StopReason::Stop,
        window < u64::MAX,
    ensures
        overflow <==> 0 < window < message.usage.input + message.usage.cache_read,
        decided == overflow,
{
}

/// An answer that was cut shows a context that was too long exactly where it holds no word, and the
/// tokens that were sent and read from the cache leave less than one hundredth of the window free.
pub proof fn law_cut_answers_without_room_overflow(
    message: &AssistantMessage,
    window: u64,
    named: bool,
    other: bool,
    overflow: bool,
    decided: bool,
)
    requires
        call_ensures(is_context_overflow, (message, window), overflow),
        call_ensures(overflow_decision, (message, window, named, other), decided),
        message.stop_reason == StopReason::Length,
    ensures
        overflow <==> window > 0 && message.usage.output == 0 && 100 * (message.usage.input
            + message.usage.cache_read) + 100 > 99 * window,
        decided == overflow,
{
}

/// Whether tokens were sent or read from the cache makes no difference, and more of either never
/// makes an overflow none.
pub proof fn law_overflow_goes_by_the_whole_input(
    a: &AssistantMessage,
    b: &AssistantMessage,
    window: u64,
    overflow_a: bool,
    overflow_b: bool,
)
    requires
        call_ensures(is_context_overflow, (a, window), overflow_a),
        call_ensures(is_context_overflow, (b, window), overflow_b),
        a.stop_reason == b.stop_reason,
        a.error_message == b.error_message,
        a.usage.output == b.usage.output,
        a.usage.input + a.usage.cache_read <= b.usage.input + b.usage.cache_read,
    ensures
        overflow_a ==> overflow_b,
        a.usage.input + a.usage.cache_read == b.usage.input + b.usage.cache_read ==> overflow_a
            == overflow_b,
{
}

/// A failure shows a context that was too long by its words alone, whatever was sent: one of the
/// wordings for that stands in its text, and none of those of another failure. Answers that asked for
/// a tool or were aborted, and failures without a text, never do.
pub proof fn law_failures_overflow_by_their_words(
    message: &AssistantMessage,
    window: u64,
    overflow: bool,
)
    requires
        call_ensures(is_context_overflow, (message, window), overflow),
    ensures
        message.stop_reason == StopReason::ToolUse || message.stop_reason == StopReason::Aborted
            ==> !overflow,
        message.stop_reason == StopReason::Error && message.error_message is None ==> !overflow,
        message.stop_reason == StopReason::Error && message.error_message is Some ==> {
            let text = message.error_message->0@;
            overflow <==> (exists|p: Seq<char>|
                #[trigger] is_overflow_wording(p) && pattern::pattern_found(p, text))
                && !pattern::pattern_found(
                r"(?i)^(Throttling error|Service unavailable):"@,
                text,
            ) && !pattern::pattern_found(r"(?i)rate limit"@, text) && !pattern::pattern_found(
                r"(?i)too many requests"@,
                text,
            )
        },
{
    if message.stop_reason == StopReason::Error && message.error_message is Some {
        let text = message.error_message->0@;
        lemma_overflow_wordings();
        assert(non_overflow_patterns()[0] == r"(?i)^(Throttling error|Service unavailable):"@);
        assert(non_overflow_patterns()[1] == r"(?i)rate limit"@);
        assert(non_overflow_patterns()[2] == r"(?i)too many requests"@);
        if pattern::any_found(overflow_patterns(), text) {
            let i = choose|i: int|
                0 <= i < overflow_patterns().len() && pattern::pattern_found(
                    #[trigger] overflow_patterns()[i],
                    text,
                );
            assert(is_overflow_wording(overflow_patterns()[i]));
        }
        if exists|p: Seq<char>|
            #[trigger] is_overflow_wording(p) && pattern::pattern_found(p, text) {
            let p = choose|p: Seq<char>|
                #[trigger] is_overflow_wording(p) && pattern::pattern_found(p, text);
            assert(overflow_patterns().contains(p));
            let i = choose|i: int| 0 <= i < overflow_patterns().len() && overflow_patterns()[i] == p;
            assert(pattern::pattern_found(overflow_patterns()[i], text));
        }
    }
}

/// A wording by which providers say that the context was too long.
pub open spec fn is_overflow_wording(p: Seq<char>) -> bool {
    ||| p == r"(?i)prompt is too long"@
    ||| p == r"(?i)request_too_large"@
    ||| p == r"(?i)input is too long for requested model"@
    ||| p == r"(?i)exceeds the context window"@
    ||| p == r"(?i)exceeds (?:the )?(?:model'?s )?maximum context length(?: of [\d,]+ tokens?|\s*\([\d,]+\))"@
    ||| p == r"(?i)input token count.*exceeds the maximum"@
    ||| p == r"(?i)maximum prompt length is \d+"@
    ||| p == r"(?i)reduce the length of the messages"@
    ||| p == r"(?i)maximum context length is \d+ tokens"@
    ||| p == r"(?i)exceeds (?:the )?maximum allowed input length of [\d,]+ tokens?"@
    ||| p == r"(?i)input \(\d+ tokens\) is longer than the model'?s context length \(\d+ tokens\)"@
    ||| p == r"(?i)exceeds the limit of \d+"@
    ||| p == r"(?i)exceeds the available context size"@
    ||| p == r"(?i)greater than the context length"@
    ||| p == r"(?i)context window exceeds limit"@
    ||| p == r"(?i)exceeded model token limit"@
    ||| p == r"(?i)too large for model with \d+ maximum context length"@
    ||| p == r"(?i)prompt has [\d,]+ tokens?, but the configured context size is [\d,]+ tokens?"@
    ||| p == r"(?i)model_context_window_exceeded"@
    ||| p == r"(?i)prompt too long; exceeded (?:max )?context length"@
    ||| p == r"(?i)context[_ ]length[_ ]exceeded"@
    ||| p == r"(?i)too many tokens"@
    ||| p == r"(?i)token limit exceeded"@
    ||| p == r"(?i)^4(?:00|13)\s*(?:status code)?\s*\(no body\)"@
}

proof fn lemma_overflow_wordings()
    ensures
        overflow_patterns().len() == 24,
        forall|i: int|
            0 <= i < overflow_patterns().len() ==> is_overflow_wording(
                #[trigger] overflow_patterns()[i],
            ),
        forall|p: Seq<char>|
            #[trigger] is_overflow_wording(p) ==> overflow_patterns().contains(p),
{
    assert(overflow_patterns()[0] == r"(?i)prompt is too long"@);
    assert(overflow_patterns()[1] == r"(?i)request_too_large"@);
    assert(overflow_patterns()[2] == r"(?i)input is too long for requested model"@);
    assert(overflow_patterns()[3] == r"(?i)exceeds the context window"@);
    assert(overflow_patterns()[4] == r"(?i)exceeds (?:the )?(?:model'?s )?maximum context length(?: of [\d,]+ tokens?|\s*\([\d,]+\))"@);
    assert(overflow_patterns()[5] == r"(?i)input token count.*exceeds the maximum"@);
    assert(overflow_patterns()[6] == r"(?i)maximum prompt length is \d+"@);
    assert(overflow_patterns()[7] == r"(?i)reduce the length of the messages"@);
    assert(overflow_patterns()[8] == r"(?i)maximum context length is \d+ tokens"@);
    assert(overflow_patterns()[9] == r"(?i)exceeds (?:the )?maximum allowed input length of [\d,]+ tokens?"@);
    assert(overflow_patterns()[10] == r"(?i)input \(\d+ tokens\) is longer than the model'?s context length \(\d+ tokens\)"@);
    assert(overflow_patterns()[11] == r"(?i)exceeds the limit of \d+"@);
    assert(overflow_patterns()[12] == r"(?i)exceeds the available context size"@);
    assert(overflow_patterns()[13] == r"(?i)greater than the context length"@);
    assert(overflow_patterns()[14] == r"(?i)context window exceeds limit"@);
    assert(overflow_patterns()[15] == r"(?i)exceeded model token limit"@);
    assert(overflow_patterns()[16] == r"(?i)too large for model with \d+ maximum context length"@);
    assert(overflow_patterns()[17] == r"(?i)prompt has [\d,]+ tokens?, but the configured context size is [\d,]+ tokens?"@);
    assert(overflow_patterns()[18] == r"(?i)model_context_window_exceeded"@);
    assert(overflow_patterns()[19] == r"(?i)prompt too long; exceeded (?:max )?context length"@);
    assert(overflow_patterns()[20] == r"(?i)context[_ ]length[_ ]exceeded"@);
    assert(overflow_patterns()[21] == r"(?i)too many tokens"@);
    assert(overflow_patterns()[22] == r"(?i)token limit exceeded"@);
    assert(overflow_patterns()[23] == r"(?i)^4(?:00|13)\s*(?:status code)?\s*\(no body\)"@);
}

/// An answer is the selected model's exactly where both the provider and the id agree.
pub proof fn law_answers_belong_to_provider_and_id(
    model: &Model,
    assistant: &AssistantMessage,
    same: bool,
)
    requires
        call_ensures(same_model, (model, assistant), same),
    ensures
        same <==> assistant.provider@ == model.provider@ && assistant.model@ == model.id@,
{
}

} // verus!
