//! Events from JSON.
//!
//! The session's own events are read as they stand. An event that holds messages, models or entries
//! is read with what the caller made of those members, given as [`EventParts`].

use crate::events;
use crate::events::{AgentSessionEvent, ModelSelectSource};
use crate::json;
use crate::json::Json;
use crate::messages::{
    AgentMessage, AgentToolResult, CompactionResult, JsonObject, Model, SessionEntry,
    ToolResultMessage,
};
use crate::text;
use crate::wire;
use crate::wire::{Shape, WireParts};
use std::sync::Arc;
use vstd::prelude::*;

verus! {

/// What the caller read of the members of an event, each where the member is there and could be
/// read.
#[derive(Debug, PartialEq)]
pub struct EventParts {
    /// The value of `messages`.
    pub messages: Option<Arc<Vec<AgentMessage>>>,
    /// The value of `message`.
    pub message: Option<AgentMessage>,
    /// The value of `assistantMessageEvent`, where it is an event of a provider's stream.
    pub assistant_message_event: Option<Json>,
    /// The value of `toolResults`.
    pub tool_results: Option<Arc<Vec<ToolResultMessage>>>,
    /// The value of `partialResult`, or that of `result` at the end of a tool.
    pub tool_result: Option<AgentToolResult>,
    /// The value of `model`.
    pub model: Option<Model>,
    /// The value of `previousModel`.
    pub previous_model: Option<Model>,
    /// The value of `result` at the end of a compaction.
    pub compaction: Option<CompactionResult>,
    /// The value of `entry`.
    pub entry: Option<SessionEntry>,
}

impl Default for EventParts {
    fn default() -> (r: Self)
        ensures
            r == no_parts(),
    {
        EventParts {
            messages: None,
            message: None,
            assistant_message_event: None,
            tool_results: None,
            tool_result: None,
            model: None,
            previous_model: None,
            compaction: None,
            entry: None,
        }
    }
}

/// Nothing that the caller read.
pub open spec fn no_parts() -> EventParts {
    EventParts {
        messages: None,
        message: None,
        assistant_message_event: None,
        tool_results: None,
        tool_result: None,
        model: None,
        previous_model: None,
        compaction: None,
        entry: None,
    }
}

/// What the caller read of a member that has to be there.
pub open spec fn part_at<T>(f: Seq<(Seq<char>, Shape)>, key: Seq<char>, part: Option<T>) -> Option<T> {
    match wire::found(f, key) {
        Some(_) => part,
        None => None,
    }
}

/// What the caller read of a member that may be missing or null. Where it is there, it has to be
/// read.
pub open spec fn optional_part_at<T>(
    f: Seq<(Seq<char>, Shape)>,
    key: Seq<char>,
    part: Option<T>,
) -> Option<Option<T>> {
    match wire::found(f, key) {
        None => Some(None),
        Some(Shape::Null) => Some(None),
        Some(_) => match part {
            Some(value) => Some(Some(value)),
            None => None,
        },
    }
}

/// The object under a key.
pub open spec fn object_at(f: Seq<(Seq<char>, Shape)>, key: Seq<char>) -> Option<JsonObject> {
    match wire::found(f, key) {
        Some(Shape::Other(Json::Object(members))) => Some(members),
        _ => None,
    }
}

/// The source of a selection with this name.
pub open spec fn select_source_named(name: Option<Seq<char>>) -> Option<ModelSelectSource> {
    if name == Some("set"@) {
        Some(ModelSelectSource::Chosen)
    } else if name == Some("cycle"@) {
        Some(ModelSelectSource::Cycle)
    } else if name == Some("restore"@) {
        Some(ModelSelectSource::Restore)
    } else {
        None
    }
}

/// Whether an event with this name is read with parts of the caller, or holds more than texts,
/// numbers and flags.
pub open spec fn is_part_name(name: Seq<char>) -> bool {
    is_message_name(name) || is_tool_name(name) || is_record_name(name)
}

/// The names of the events that hold messages.
pub open spec fn is_message_name(name: Seq<char>) -> bool {
    ||| name == "agent_end"@
    ||| name == "turn_end"@
    ||| name == "message_start"@
    ||| name == "message_update"@
    ||| name == "message_end"@
}

/// The names of the events of tools.
pub open spec fn is_tool_name(name: Seq<char>) -> bool {
    ||| name == "tool_execution_start"@
    ||| name == "tool_execution_update"@
    ||| name == "tool_execution_end"@
}

/// The names of the events that hold a model, an entry or a result of a compaction.
pub open spec fn is_record_name(name: Seq<char>) -> bool {
    ||| name == "model_select"@
    ||| name == "compaction_end"@
    ||| name == "entry_appended"@
}

/// `r` is the event with this name that holds messages: each member it needs is there and was read.
pub open spec fn message_event_read(
    r: Option<AgentSessionEvent>,
    name: Seq<char>,
    f: Seq<(Seq<char>, Shape)>,
    parts: EventParts,
) -> bool {
    let message = part_at(f, "message"@, parts.message);
    if name == "agent_end"@ {
        match (part_at(f, "messages"@, parts.messages), wire::flag_at(f, "willRetry"@)) {
            (Some(messages), Some(will_retry)) => r == Some(
                AgentSessionEvent::AgentEnd { messages, will_retry },
            ),
            _ => r is None,
        }
    } else if name == "turn_end"@ {
        match (message, part_at(f, "toolResults"@, parts.tool_results)) {
            (Some(message), Some(tool_results)) => r == Some(
                AgentSessionEvent::TurnEnd { message, tool_results },
            ),
            _ => r is None,
        }
    } else if name == "message_start"@ {
        match message {
            Some(message) => r == Some(AgentSessionEvent::MessageStart { message }),
            None => r is None,
        }
    } else if name == "message_end"@ {
        match message {
            Some(message) => r == Some(AgentSessionEvent::MessageEnd { message }),
            None => r is None,
        }
    } else {
        match (message, part_at(f, "assistantMessageEvent"@, parts.assistant_message_event)) {
            (Some(message), Some(assistant_message_event)) => r == Some(
                AgentSessionEvent::MessageUpdate { message, assistant_message_event },
            ),
            _ => r is None,
        }
    }
}

/// `r` is the event of a tool with this name: each member it needs is there and was read.
pub open spec fn tool_event_read(
    r: Option<AgentSessionEvent>,
    name: Seq<char>,
    f: Seq<(Seq<char>, Shape)>,
    parts: EventParts,
) -> bool {
    match (wire::text_at(f, "toolCallId"@), wire::text_at(f, "toolName"@)) {
        (Some(id), Some(tool)) => if name == "tool_execution_start"@ {
            match object_at(f, "args"@) {
                Some(a) => {
                    &&& r matches Some(
                        AgentSessionEvent::ToolExecutionStart { tool_call_id, tool_name, args },
                    )
                    &&& tool_call_id@ == id && tool_name@ == tool && args == a
                },
                None => r is None,
            }
        } else if name == "tool_execution_update"@ {
            match (object_at(f, "args"@), part_at(f, "partialResult"@, parts.tool_result)) {
                (Some(a), Some(p)) => {
                    &&& r matches Some(
                        AgentSessionEvent::ToolExecutionUpdate {
                            tool_call_id,
                            tool_name,
                            args,
                            partial_result,
                        },
                    )
                    &&& tool_call_id@ == id && tool_name@ == tool && args == a && partial_result
                        == p
                },
                _ => r is None,
            }
        } else {
            match (part_at(f, "result"@, parts.tool_result), wire::flag_at(f, "isError"@)) {
                (Some(p), Some(e)) => {
                    &&& r matches Some(
                        AgentSessionEvent::ToolExecutionEnd {
                            tool_call_id,
                            tool_name,
                            result,
                            is_error,
                        },
                    )
                    &&& tool_call_id@ == id && tool_name@ == tool && result == p && is_error == e
                },
                _ => r is None,
            }
        },
        _ => r is None,
    }
}

/// `r` is the event with this name that holds a model, an entry or the result of a compaction: each
/// member it needs is there and was read.
pub open spec fn record_event_read(
    r: Option<AgentSessionEvent>,
    name: Seq<char>,
    f: Seq<(Seq<char>, Shape)>,
    parts: EventParts,
) -> bool {
    if name == "model_select"@ {
        match (
            part_at(f, "model"@, parts.model),
            optional_part_at(f, "previousModel"@, parts.previous_model),
            select_source_named(wire::text_at(f, "source"@)),
        ) {
            (Some(model), Some(previous_model), Some(source)) => r == Some(
                AgentSessionEvent::ModelSelect { model, previous_model, source },
            ),
            _ => r is None,
        }
    } else if name == "compaction_end"@ {
        match (
            wire::compaction_reason_named(wire::text_at(f, "reason"@)),
            optional_part_at(f, "result"@, parts.compaction),
            wire::flag_at(f, "aborted"@),
            wire::flag_at(f, "willRetry"@),
            wire::optional_at(f, "errorMessage"@),
        ) {
            (Some(why), Some(res), Some(stopped), Some(retry), Some(error)) => {
                &&& r matches Some(
                    AgentSessionEvent::CompactionEnd {
                        reason,
                        result,
                        aborted,
                        will_retry,
                        error_message,
                    },
                )
                &&& reason == why && result == res && aborted == stopped && will_retry == retry
                &&& crate::session::text_view(error_message) == error
            },
            _ => r is None,
        }
    } else {
        match part_at(f, "entry"@, parts.entry) {
            Some(entry) => r == Some(AgentSessionEvent::EntryAppended { entry }),
            None => r is None,
        }
    }
}

/// `r` is what the members of an object are read as: the event with the name under `type`, none
/// where there is no such event or a member is not as it should be. Members that are not known are
/// passed over.
pub open spec fn event_read(
    r: Option<AgentSessionEvent>,
    members: Seq<(String, Json)>,
    parts: EventParts,
) -> bool {
    let f = wire::shapes(members);
    match wire::text_at(f, "type"@) {
        None => r is None,
        Some(name) => if is_message_name(name) {
            message_event_read(r, name, f, parts)
        } else if is_tool_name(name) {
            tool_event_read(r, name, f, parts)
        } else if is_record_name(name) {
            record_event_read(r, name, f, parts)
        } else {
            match wire::read_fields(f) {
                Some(fields) => r matches Some(event) && forall|parts: WireParts| #[trigger]
                    wire::wire_fields(event, parts) == fields,
                None => r is None,
            }
        },
    }
}

fn take_part<T>(members: &Vec<(String, Json)>, key: &str, part: Option<T>) -> (r: Option<T>)
    ensures
        r == part_at(wire::shapes(members@), key@, part),
{
    match wire::look(members, key) {
        Some(_) => part,
        None => None,
    }
}

fn take_optional_part<T>(members: &Vec<(String, Json)>, key: &str, part: Option<T>) -> (r: Option<
    Option<T>,
>)
    ensures
        r == optional_part_at(wire::shapes(members@), key@, part),
{
    match wire::look(members, key) {
        None => Some(None),
        Some(Json::Null) => Some(None),
        Some(_) => match part {
            Some(value) => Some(Some(value)),
            None => None,
        },
    }
}

fn read_object(members: &Vec<(String, Json)>, key: &str) -> (r: Option<JsonObject>)
    ensures
        r == object_at(wire::shapes(members@), key@),
{
    match wire::look(members, key) {
        Some(Json::Object(object)) => Some(json::share(object)),
        _ => None,
    }
}

fn read_select_source(name: &Option<String>) -> (r: Option<ModelSelectSource>)
    ensures
        r == select_source_named(crate::session::text_view(*name)),
{
    if wire::is_named(name, "set") {
        Some(ModelSelectSource::Chosen)
    } else if wire::is_named(name, "cycle") {
        Some(ModelSelectSource::Cycle)
    } else if wire::is_named(name, "restore") {
        Some(ModelSelectSource::Restore)
    } else {
        None
    }
}

fn read_message_event(name: &str, members: &Vec<(String, Json)>, parts: EventParts) -> (r: Option<
    AgentSessionEvent,
>)
    requires
        is_message_name(name@),
    ensures
        message_event_read(r, name@, wire::shapes(members@), parts),
{
    if text::same_text(name, "agent_end") {
        let messages = take_part(members, "messages", parts.messages);
        let will_retry = wire::read_flag(members, "willRetry");
        return match (messages, will_retry) {
            (Some(messages), Some(will_retry)) => Some(
                AgentSessionEvent::AgentEnd { messages, will_retry },
            ),
            _ => None,
        };
    }
    let message = match take_part(members, "message", parts.message) {
        Some(message) => message,
        None => return None,
    };
    if text::same_text(name, "turn_end") {
        match take_part(members, "toolResults", parts.tool_results) {
            Some(tool_results) => Some(AgentSessionEvent::TurnEnd { message, tool_results }),
            None => None,
        }
    } else if text::same_text(name, "message_start") {
        Some(AgentSessionEvent::MessageStart { message })
    } else if text::same_text(name, "message_end") {
        Some(AgentSessionEvent::MessageEnd { message })
    } else {
        match take_part(members, "assistantMessageEvent", parts.assistant_message_event) {
            Some(assistant_message_event) => Some(
                AgentSessionEvent::MessageUpdate { message, assistant_message_event },
            ),
            None => None,
        }
    }
}

fn read_tool_event(name: &str, members: &Vec<(String, Json)>, parts: EventParts) -> (r: Option<
    AgentSessionEvent,
>)
    ensures
        tool_event_read(r, name@, wire::shapes(members@), parts),
{
    let id = wire::read_text(members, "toolCallId");
    let tool = wire::read_text(members, "toolName");
    let (tool_call_id, tool_name) = match (id, tool) {
        (Some(id), Some(tool)) => (id, tool),
        _ => return None,
    };
    if text::same_text(name, "tool_execution_start") {
        match read_object(members, "args") {
            Some(args) => Some(
                AgentSessionEvent::ToolExecutionStart { tool_call_id, tool_name, args },
            ),
            None => None,
        }
    } else if text::same_text(name, "tool_execution_update") {
        let args = read_object(members, "args");
        let partial = take_part(members, "partialResult", parts.tool_result);
        match (args, partial) {
            (Some(args), Some(partial_result)) => Some(
                AgentSessionEvent::ToolExecutionUpdate {
                    tool_call_id,
                    tool_name,
                    args,
                    partial_result,
                },
            ),
            _ => None,
        }
    } else {
        let result = take_part(members, "result", parts.tool_result);
        let is_error = wire::read_flag(members, "isError");
        match (result, is_error) {
            (Some(result), Some(is_error)) => Some(
                AgentSessionEvent::ToolExecutionEnd { tool_call_id, tool_name, result, is_error },
            ),
            _ => None,
        }
    }
}

fn read_record_event(name: &str, members: &Vec<(String, Json)>, parts: EventParts) -> (r: Option<
    AgentSessionEvent,
>)
    ensures
        record_event_read(r, name@, wire::shapes(members@), parts),
{
    if text::same_text(name, "model_select") {
        let model = take_part(members, "model", parts.model);
        let previous = take_optional_part(members, "previousModel", parts.previous_model);
        let source = read_select_source(&wire::read_text(members, "source"));
        match (model, previous, source) {
            (Some(model), Some(previous_model), Some(source)) => Some(
                AgentSessionEvent::ModelSelect { model, previous_model, source },
            ),
            _ => None,
        }
    } else if text::same_text(name, "compaction_end") {
        let reason = wire::read_compaction_reason(&wire::read_text(members, "reason"));
        let result = take_optional_part(members, "result", parts.compaction);
        let aborted = wire::read_flag(members, "aborted");
        let will_retry = wire::read_flag(members, "willRetry");
        let error_message = wire::read_optional(members, "errorMessage");
        match (reason, result, aborted, will_retry, error_message) {
            (
                Some(reason),
                Some(result),
                Some(aborted),
                Some(will_retry),
                Some(error_message),
            ) => Some(
                AgentSessionEvent::CompactionEnd {
                    reason,
                    result,
                    aborted,
                    will_retry,
                    error_message,
                },
            ),
            _ => None,
        }
    } else {
        match take_part(members, "entry", parts.entry) {
            Some(entry) => Some(AgentSessionEvent::EntryAppended { entry }),
            None => None,
        }
    }
}

fn message_name(name: &str) -> (r: bool)
    ensures
        r == is_message_name(name@),
{
    text::same_text(name, "agent_end") || text::same_text(name, "turn_end") || text::same_text(
        name,
        "message_start",
    ) || text::same_text(name, "message_update") || text::same_text(name, "message_end")
}

fn tool_name(name: &str) -> (r: bool)
    ensures
        r == is_tool_name(name@),
{
    text::same_text(name, "tool_execution_start") || text::same_text(name, "tool_execution_update")
        || text::same_text(name, "tool_execution_end")
}

fn record_name(name: &str) -> (r: bool)
    ensures
        r == is_record_name(name@),
{
    text::same_text(name, "model_select") || text::same_text(name, "compaction_end")
        || text::same_text(name, "entry_appended")
}

/// Reads an event, with what the caller read of its messages, provider's event, models, entries and
/// results; none for a value that is no event.
pub fn read_event(value: &Json, parts: EventParts) -> (r: Option<AgentSessionEvent>)
    ensures
        match *value {
            Json::Object(members) => event_read(r, members@, parts),
            _ => r is None,
        },
{
    match value {
        Json::Object(members) => match wire::read_text(members, "type") {
            Some(name) => if message_name(name.as_str()) {
                read_message_event(name.as_str(), members, parts)
            } else if tool_name(name.as_str()) {
                read_tool_event(name.as_str(), members, parts)
            } else if record_name(name.as_str()) {
                read_record_event(name.as_str(), members, parts)
            } else {
                wire::read_own_event(value)
            },
            None => None,
        },
        _ => None,
    }
}

/// What the caller reads of the members of an event that is written.
pub open spec fn parts_of(event: AgentSessionEvent) -> EventParts {
    match event {
        AgentSessionEvent::AgentEnd { messages, .. } => EventParts {
            messages: Some(messages),
            ..no_parts()
        },
        AgentSessionEvent::TurnEnd { message, tool_results } => EventParts {
            message: Some(message),
            tool_results: Some(tool_results),
            ..no_parts()
        },
        AgentSessionEvent::MessageStart { message } => EventParts {
            message: Some(message),
            ..no_parts()
        },
        AgentSessionEvent::MessageUpdate { message, assistant_message_event } => EventParts {
            message: Some(message),
            assistant_message_event: Some(assistant_message_event),
            ..no_parts()
        },
        AgentSessionEvent::MessageEnd { message } => EventParts {
            message: Some(message),
            ..no_parts()
        },
        AgentSessionEvent::ToolExecutionUpdate { partial_result, .. } => EventParts {
            tool_result: Some(partial_result),
            ..no_parts()
        },
        AgentSessionEvent::ToolExecutionEnd { result, .. } => EventParts {
            tool_result: Some(result),
            ..no_parts()
        },
        AgentSessionEvent::ModelSelect { model, previous_model, .. } => EventParts {
            model: Some(model),
            previous_model,
            ..no_parts()
        },
        AgentSessionEvent::CompactionEnd { result, .. } => EventParts {
            compaction: result,
            ..no_parts()
        },
        AgentSessionEvent::EntryAppended { entry } => EventParts {
            entry: Some(entry),
            ..no_parts()
        },
        _ => no_parts(),
    }
}

/// The caller writes no null for a model before or a result of a compaction that is there.
pub open spec fn written_as_there(event: AgentSessionEvent, written: WireParts) -> bool {
    match event {
        AgentSessionEvent::ModelSelect { previous_model: Some(_), .. } => written.other !is Null,
        AgentSessionEvent::CompactionEnd { result: Some(_), .. } => written.main !is Null,
        _ => true,
    }
}

/// A member is found at the first place where its key stands.
proof fn lemma_found_at(f: Seq<(Seq<char>, Shape)>, key: Seq<char>, k: int, from: int)
    requires
        0 <= from <= k < f.len(),
        f[k].0 == key,
        forall|j: int| from <= j < k ==> #[trigger] f[j].0 != key,
    ensures
        wire::key_from(f, key, from) == k,
        from == 0 ==> wire::found(f, key) == Some(f[k].1),
    decreases k - from,
{
    if from < k {
        assert(f[from].0 != key);
        lemma_found_at(f, key, k, from + 1);
    }
}

/// A member whose key stands nowhere is not found.
proof fn lemma_not_found(f: Seq<(Seq<char>, Shape)>, key: Seq<char>, from: int)
    requires
        0 <= from <= f.len(),
        forall|j: int| from <= j < f.len() ==> #[trigger] f[j].0 != key,
    ensures
        wire::key_from(f, key, from) == f.len(),
        from == 0 ==> wire::found(f, key) is None,
    decreases f.len() - from,
{
    if from < f.len() {
        assert(f[from].0 != key);
        lemma_not_found(f, key, from + 1);
    }
}

/// What tells the wire names apart.
proof fn lemma_part_names()
    ensures
        "agent_end"@.len() == 9,
        "turn_end"@.len() == 8,
        "message_start"@.len() == 13,
        "message_update"@.len() == 14,
        "message_end"@.len() == 11,
        "tool_execution_start"@.len() == 20,
        "tool_execution_update"@.len() == 21,
        "tool_execution_end"@.len() == 18,
        "model_select"@.len() == 12,
        "compaction_end"@.len() == 14,
        "entry_appended"@.len() == 14,
        "agent_end"@[0] == 'a',
        "turn_end"@[0] == 't',
        "message_start"@[0] == 'm',
        "message_update"@[0] == 'm',
        "message_end"@[0] == 'm',
        "tool_execution_start"@[0] == 't',
        "tool_execution_update"@[0] == 't',
        "tool_execution_end"@[0] == 't',
        "model_select"@[0] == 'm',
        "compaction_end"@[0] == 'c',
        "entry_appended"@[0] == 'e',
        "session_start"@[0] == 's',
        "agent_settled"@[0] == 'a',
        "auto_retry_end"@[0] == 'a',
        "agent_start"@[0] == 'a',
        "session_info_changed"@[0] == 's',
        "session_before_switch"@[0] == 's',
        "bash_execution_update"@[0] == 'b',
        "queue_update"@[0] == 'q',
{
    reveal_strlit("agent_end");
    reveal_strlit("turn_end");
    reveal_strlit("message_start");
    reveal_strlit("message_update");
    reveal_strlit("message_end");
    reveal_strlit("tool_execution_start");
    reveal_strlit("tool_execution_update");
    reveal_strlit("tool_execution_end");
    reveal_strlit("model_select");
    reveal_strlit("compaction_end");
    reveal_strlit("entry_appended");
    reveal_strlit("session_start");
    reveal_strlit("agent_settled");
    reveal_strlit("auto_retry_end");
    reveal_strlit("agent_start");
    reveal_strlit("session_info_changed");
    reveal_strlit("session_before_switch");
    reveal_strlit("bash_execution_update");
    reveal_strlit("queue_update");
}

/// What tells the keys of each event apart.
proof fn lemma_part_keys()
    ensures
        "type"@.len() == 4,
        "messages"@.len() == 8,
        "willRetry"@.len() == 9,
        "message"@.len() == 7,
        "toolResults"@.len() == 11,
        "assistantMessageEvent"@.len() == 21,
        "toolCallId"@.len() == 10,
        "toolName"@.len() == 8,
        "args"@.len() == 4,
        "partialResult"@.len() == 13,
        "result"@.len() == 6,
        "isError"@.len() == 7,
        "model"@.len() == 5,
        "previousModel"@.len() == 13,
        "source"@.len() == 6,
        "reason"@.len() == 6,
        "aborted"@.len() == 7,
        "errorMessage"@.len() == 12,
        "entry"@.len() == 5,
        "messages"@[0] == 'm',
        "toolName"@[0] == 't',
        "source"@[0] == 's',
        "result"@[0] == 'r',
        "reason"@[0] == 'r',
        "reason"@[2] == 'a',
        "result"@[2] == 's',
        "message"@[0] == 'm',
        "isError"@[0] == 'i',
        "aborted"@[0] == 'a',
        "type"@[0] == 't',
        "args"@[0] == 'a',
        "model"@[0] == 'm',
        "entry"@[0] == 'e',
{
    reveal_strlit("type");
    reveal_strlit("messages");
    reveal_strlit("willRetry");
    reveal_strlit("message");
    reveal_strlit("toolResults");
    reveal_strlit("assistantMessageEvent");
    reveal_strlit("toolCallId");
    reveal_strlit("toolName");
    reveal_strlit("args");
    reveal_strlit("partialResult");
    reveal_strlit("result");
    reveal_strlit("isError");
    reveal_strlit("model");
    reveal_strlit("previousModel");
    reveal_strlit("source");
    reveal_strlit("reason");
    reveal_strlit("aborted");
    reveal_strlit("errorMessage");
    reveal_strlit("entry");
}

/// The sources of a selection are all different, so each is read back.
proof fn lemma_sources()
    ensures
        forall|source: ModelSelectSource|
            select_source_named(Some(#[trigger] wire::select_source_name(source))) == Some(source),
{
    reveal_strlit("set");
    reveal_strlit("cycle");
    reveal_strlit("restore");
    assert("set"@.len() == 3 && "cycle"@.len() == 5 && "restore"@.len() == 7);
}

/// What is read is `event` again: it is written the same, and holds the same messages, models,
/// entries and results.
pub open spec fn reads_back(
    r: Option<AgentSessionEvent>,
    event: AgentSessionEvent,
    written: WireParts,
) -> bool {
    &&& r matches Some(e)
    &&& wire::wire_fields(e, written) == wire::wire_fields(event, written)
    &&& parts_of(e) == parts_of(event)
}

proof fn lemma_message_reads_back(
    event: AgentSessionEvent,
    written: WireParts,
    members: Seq<(String, Json)>,
    r: Option<AgentSessionEvent>,
)
    requires
        is_message_name(events::event_name(event)),
        !wire::is_own_event(event),
        wire::shapes(members) == wire::wire_fields(event, written),
        event_read(r, members, parts_of(event)),
    ensures
        reads_back(r, event, written),
{
    lemma_part_names();
    lemma_part_keys();
    let f = wire::shapes(members);
    lemma_found_at(f, "type"@, 0, 0);
    match event {
        AgentSessionEvent::AgentEnd { will_retry, .. } => {
            assert(f[1].0 == "messages"@ && f[2].0 == "willRetry"@);
            lemma_found_at(f, "messages"@, 1, 0);
            lemma_found_at(f, "willRetry"@, 2, 0);
        },
        AgentSessionEvent::TurnEnd { .. } => {
            assert(f[1].0 == "message"@ && f[2].0 == "toolResults"@);
            lemma_found_at(f, "message"@, 1, 0);
            lemma_found_at(f, "toolResults"@, 2, 0);
        },
        AgentSessionEvent::MessageUpdate { .. } => {
            assert(f[1].0 == "message"@ && f[2].0 == "assistantMessageEvent"@);
            lemma_found_at(f, "message"@, 1, 0);
            lemma_found_at(f, "assistantMessageEvent"@, 2, 0);
        },
        _ => {
            assert(f[1].0 == "message"@);
            lemma_found_at(f, "message"@, 1, 0);
        },
    }
}

proof fn lemma_tool_reads_back(
    event: AgentSessionEvent,
    written: WireParts,
    members: Seq<(String, Json)>,
    r: Option<AgentSessionEvent>,
)
    requires
        is_tool_name(events::event_name(event)),
        !wire::is_own_event(event),
        wire::shapes(members) == wire::wire_fields(event, written),
        event_read(r, members, parts_of(event)),
    ensures
        reads_back(r, event, written),
{
    lemma_part_names();
    lemma_part_keys();
    let f = wire::shapes(members);
    lemma_found_at(f, "type"@, 0, 0);
    assert(f[1].0 == "toolCallId"@ && f[2].0 == "toolName"@);
    lemma_found_at(f, "toolCallId"@, 1, 0);
    lemma_found_at(f, "toolName"@, 2, 0);
    match event {
        AgentSessionEvent::ToolExecutionStart { args, .. } => {
            assert(f[3] == ("args"@, wire::shape(Json::Object(args))));
            lemma_found_at(f, "args"@, 3, 0);
        },
        AgentSessionEvent::ToolExecutionUpdate { args, .. } => {
            assert(f[3] == ("args"@, wire::shape(Json::Object(args))));
            assert(f[4].0 == "partialResult"@);
            lemma_found_at(f, "args"@, 3, 0);
            lemma_found_at(f, "partialResult"@, 4, 0);
        },
        AgentSessionEvent::ToolExecutionEnd { is_error, .. } => {
            assert(f[3].0 == "result"@);
            assert(f[4] == ("isError"@, Shape::Bool(is_error)));
            lemma_found_at(f, "result"@, 3, 0);
            lemma_found_at(f, "isError"@, 4, 0);
        },
        _ => {},
    }
}

proof fn lemma_model_select_reads_back(
    event: AgentSessionEvent,
    written: WireParts,
    members: Seq<(String, Json)>,
    r: Option<AgentSessionEvent>,
)
    requires
        event is ModelSelect,
        written_as_there(event, written),
        wire::shapes(members) == wire::wire_fields(event, written),
        event_read(r, members, parts_of(event)),
    ensures
        reads_back(r, event, written),
{
    lemma_part_names();
    lemma_part_keys();
    lemma_sources();
    let f = wire::shapes(members);
    lemma_found_at(f, "type"@, 0, 0);
    assert(f[1].0 == "model"@);
    lemma_found_at(f, "model"@, 1, 0);
    if let AgentSessionEvent::ModelSelect { previous_model, source, .. } = event {
        let named = ("source"@, Shape::Text(wire::select_source_name(source)));
        if previous_model is Some {
            assert(f[2] == ("previousModel"@, wire::shape(written.other)));
            assert(f[3] == named);
            lemma_found_at(f, "previousModel"@, 2, 0);
            lemma_found_at(f, "source"@, 3, 0);
        } else {
            assert(f[2] == named && f.len() == 3);
            lemma_not_found(f, "previousModel"@, 0);
            lemma_found_at(f, "source"@, 2, 0);
        }
    }
}

proof fn lemma_compaction_end_reads_back(
    event: AgentSessionEvent,
    written: WireParts,
    members: Seq<(String, Json)>,
    r: Option<AgentSessionEvent>,
)
    requires
        event is CompactionEnd,
        written_as_there(event, written),
        wire::shapes(members) == wire::wire_fields(event, written),
        event_read(r, members, parts_of(event)),
    ensures
        reads_back(r, event, written),
{
    lemma_part_names();
    lemma_part_keys();
    wire::lemma_reasons();
    let f = wire::shapes(members);
    lemma_found_at(f, "type"@, 0, 0);
    if let AgentSessionEvent::CompactionEnd { reason, result, aborted, will_retry, error_message } =
        event {
        assert(f[1] == ("reason"@, Shape::Text(reason.name())));
        lemma_found_at(f, "reason"@, 1, 0);
        let k: int = if result is Some {
            3
        } else {
            2
        };
        if result is Some {
            assert(f[2] == ("result"@, wire::shape(written.main)));
            lemma_found_at(f, "result"@, 2, 0);
        }
        assert(f[k] == ("aborted"@, Shape::Bool(aborted)));
        assert(f[k + 1] == ("willRetry"@, Shape::Bool(will_retry)));
        lemma_found_at(f, "aborted"@, k, 0);
        lemma_found_at(f, "willRetry"@, k + 1, 0);
        if let Some(t) = error_message {
            assert(f[k + 2] == ("errorMessage"@, Shape::Text(t@)));
            assert(f.len() == k + 3);
            lemma_found_at(f, "errorMessage"@, k + 2, 0);
        } else {
            assert(f.len() == k + 2);
            lemma_not_found(f, "errorMessage"@, 0);
        }
        if result is None {
            lemma_not_found(f, "result"@, 0);
        }
    }
}

/// What is written of an event is read back as that event, where the caller reads back what it wrote
/// of messages, events of a provider, models, entries and results.
pub proof fn law_events_read_back(
    event: AgentSessionEvent,
    written: WireParts,
    members: Seq<(String, Json)>,
    r: Option<AgentSessionEvent>,
)
    requires
        written_as_there(event, written),
        wire::shapes(members) == wire::wire_fields(event, written),
        event_read(r, members, parts_of(event)),
    ensures
        reads_back(r, event, written),
{
    lemma_part_names();
    wire::lemma_names();
    let name = events::event_name(event);
    let f = wire::shapes(members);
    if wire::is_own_event(event) {
        wire::law_own_events_read_back(event, written);
        lemma_found_at(f, "type"@, 0, 0);
        assert(!is_part_name(name));
        let e = r->0;
        assert(wire::wire_fields(e, written) == f);
        assert(f[0] == ("type"@, Shape::Text(events::event_name(e))));
    } else if is_message_name(name) {
        lemma_message_reads_back(event, written, members, r);
    } else if is_tool_name(name) {
        lemma_tool_reads_back(event, written, members, r);
    } else if event is ModelSelect {
        lemma_model_select_reads_back(event, written, members, r);
    } else if event is CompactionEnd {
        lemma_compaction_end_reads_back(event, written, members, r);
    } else {
        lemma_part_keys();
        lemma_found_at(f, "type"@, 0, 0);
        assert(f[1].0 == "entry"@);
        lemma_found_at(f, "entry"@, 1, 0);
    }
}

// ---------------------------------------------------------------------------
// What the operations promise
// ---------------------------------------------------------------------------

/// What is written of an event is always read, where the caller reads back what it wrote. The event
/// that is read holds the same messages, models, entries and results, and written again it has the
/// same members in the same order.
pub proof fn law_written_events_come_back(
    event: &AgentSessionEvent,
    parts: &WireParts,
    written: Json,
    caller: EventParts,
    read: Option<AgentSessionEvent>,
    back: &AgentSessionEvent,
    again: Json,
    i: int,
)
    requires
        written_as_there(*event, *parts),
        call_ensures(wire::write_event, (event, parts), written),
        caller == parts_of(*event),
        call_ensures(read_event, (&written, caller), read),
        read is Some ==> *back == read->0,
        call_ensures(wire::write_event, (back, parts), again),
    ensures
        read is Some,
        parts_of(*back) == parts_of(*event),
        wire::members_of(again).len() == wire::members_of(written).len(),
        0 <= i < wire::members_of(written).len() ==> wire::members_of(again)[i].0@
            == wire::members_of(written)[i].0@ && wire::shape(wire::members_of(again)[i].1)
            == wire::shape(wire::members_of(written)[i].1),
{
    let m = wire::members_of(written);
    law_events_read_back(*event, *parts, m, read);
    let n = wire::members_of(again);
    assert(wire::shapes(m) == wire::shapes(n));
    assert(wire::shapes(m).len() == m.len());
    assert(wire::shapes(n).len() == n.len());
    if 0 <= i < m.len() {
        assert(wire::shapes(m)[i] == (m[i].0@, wire::shape(m[i].1)));
        assert(wire::shapes(n)[i] == (n[i].0@, wire::shape(n[i].1)));
    }
}

/// What is no object, or an object without a text under `type`, is no event.
pub proof fn law_values_without_a_name_are_no_events(
    value: &Json,
    parts: EventParts,
    r: Option<AgentSessionEvent>,
    own: Option<AgentSessionEvent>,
)
    requires
        call_ensures(read_event, (value, parts), r),
        call_ensures(wire::read_own_event, (value,), own),
        forall|k: int|
            0 <= k < wire::members_of(*value).len() ==> (#[trigger] wire::members_of(*value)[k]).0@
                != "type"@ || !(wire::members_of(*value)[k].1 is Text),
    ensures
        r is None,
        own is None,
{
    if let Json::Object(members) = *value {
        let f = wire::shapes(members@);
        assert forall|k: int| 0 <= k < f.len() implies (#[trigger] f[k]).0 != "type"@ || !(f[k].1
            is Text) by {
            assert(wire::members_of(*value)[k] == members@[k]);
            assert(f[k] == (members@[k].0@, wire::shape(members@[k].1)));
        }
        lemma_no_text(f, "type"@, 0);
    }
}

proof fn lemma_no_text(f: Seq<(Seq<char>, Shape)>, key: Seq<char>, from: int)
    requires
        0 <= from <= f.len(),
        forall|k: int| 0 <= k < f.len() ==> (#[trigger] f[k]).0 != key || !(f[k].1 is Text),
    ensures
        from <= wire::key_from(f, key, from) <= f.len(),
        wire::key_from(f, key, from) < f.len() ==> !(f[wire::key_from(f, key, from)].1 is Text),
    decreases f.len() - from,
{
    if from < f.len() && f[from].0 != key {
        lemma_no_text(f, key, from + 1);
    }
}

/// A wait for a retry is read only where its numbers fit, and then with these numbers.
pub proof fn law_waits_are_read_where_they_fit(
    value: &Json,
    attempt: i128,
    max_attempts: i128,
    delay_ms: i128,
    error: Seq<char>,
    r: Option<AgentSessionEvent>,
)
    requires
        call_ensures(wire::read_own_event, (value,), r),
        ({
            let m = wire::members_of(*value);
            &&& m.len() == 5
            &&& wire::is_text(m[0], "type"@, "auto_retry_start"@)
            &&& m[1].0@ == "attempt"@ && m[1].1 == Json::Integer(attempt)
            &&& m[2].0@ == "maxAttempts"@ && m[2].1 == Json::Integer(max_attempts)
            &&& m[3].0@ == "delayMs"@ && m[3].1 == Json::Integer(delay_ms)
            &&& wire::is_text(m[4], "errorMessage"@, error)
        }),
    ensures
        r is Some <==> 0 <= attempt <= u32::MAX && 0 <= max_attempts <= u32::MAX && 0 <= delay_ms
            <= u64::MAX,
        r is Some ==> (r->0 matches AgentSessionEvent::AutoRetryStart {
            attempt: a,
            max_attempts: m,
            delay_ms: d,
            error_message: e,
        } && a == attempt && m == max_attempts && d == delay_ms && e@ == error),
{
    let m = wire::members_of(*value);
    let f = wire::shapes(m);
    assert(f.len() == 5);
    assert(f[0] == ("type"@, Shape::Text("auto_retry_start"@)));
    assert(f[1] == ("attempt"@, Shape::Number(attempt as int)));
    assert(f[2] == ("maxAttempts"@, Shape::Number(max_attempts as int)));
    assert(f[3] == ("delayMs"@, Shape::Number(delay_ms as int)));
    assert(f[4] == ("errorMessage"@, Shape::Text(error)));
    wire::lemma_names();
    wire::lemma_keys();
    lemma_found_at(f, "type"@, 0, 0);
    lemma_found_at(f, "attempt"@, 1, 0);
    lemma_found_at(f, "maxAttempts"@, 2, 0);
    lemma_found_at(f, "delayMs"@, 3, 0);
    lemma_found_at(f, "errorMessage"@, 4, 0);
    if r is Some {
        let parts = WireParts { main: Json::Null, other: Json::Null };
        let w = wire::wire_fields(r->0, parts);
        lemma_part_names();
        assert(w == wire::text_field("type"@, "auto_retry_start"@) + wire::wait_fields(
            attempt as int,
            max_attempts as int,
            delay_ms as int,
            error,
        ));
        assert(w[0] == ("type"@, Shape::Text(events::event_name(r->0))));
        assert(w[0] == ("type"@, Shape::Text("auto_retry_start"@)));
        assert(r->0 is AutoRetryStart);
        assert(w[1] == ("attempt"@, Shape::Number(attempt as int)));
        assert(w[2] == ("maxAttempts"@, Shape::Number(max_attempts as int)));
        assert(w[3] == ("delayMs"@, Shape::Number(delay_ms as int)));
        assert(w[4] == ("errorMessage"@, Shape::Text(error)));
    }
}

} // verus!
