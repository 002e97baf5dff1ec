//! The events of a session as JSON, the form in which other processes see them.
//!
//! An event is an object with its wire name under `type`. What an event holds of messages, models and
//! entries is written by the caller, and given as [`WireParts`]; how such an event is read is in
//! `wire_read`.

use crate::events;
use crate::events::{
    AgentSessionEvent, CompactionReason, ModelSelectSource, SessionBeforeForkPosition,
    SessionBeforeSwitchReason, SessionShutdownReason, SessionStartReason, SummarizationRetrySource,
};
use crate::json;
use crate::json::Json;
use crate::model;
use crate::session;
use crate::text;
use std::sync::Arc;
use vstd::prelude::*;

verus! {

/// A JSON value as far as the session's own events need it.
#[verifier::ext_equal]
pub enum Shape {
    Null,
    Bool(bool),
    Number(int),
    Text(Seq<char>),
    /// An array of texts.
    Texts(Seq<Seq<char>>),
    /// Anything else.
    Other(Json),
}

/// The texts of an array.
pub open spec fn texts_of(items: Seq<Json>) -> Seq<Seq<char>> {
    items.map_values(
        |item: Json|
            match item {
                Json::Text(t) => t@,
                _ => seq![],
            },
    )
}

/// Whether all items are texts.
pub open spec fn all_texts(items: Seq<Json>) -> bool {
    forall|i: int| 0 <= i < items.len() ==> #[trigger] items[i] is Text
}

/// What a JSON value is.
pub open spec fn shape(value: Json) -> Shape {
    match value {
        Json::Null => Shape::Null,
        Json::Bool(b) => Shape::Bool(b),
        Json::Integer(n) => Shape::Number(n as int),
        Json::Text(t) => Shape::Text(t@),
        Json::Array(items) => if all_texts(items@) {
            Shape::Texts(texts_of(items@))
        } else {
            Shape::Other(value)
        },
        _ => Shape::Other(value),
    }
}

/// What the members of an object are.
pub open spec fn shapes(members: Seq<(String, Json)>) -> Seq<(Seq<char>, Shape)> {
    members.map_values(|m: (String, Json)| (m.0@, shape(m.1)))
}

/// What an event holds of messages, models and entries, as JSON.
#[derive(Debug, PartialEq)]
pub struct WireParts {
    /// The messages, the message, the model, the entry or the result of the event.
    pub main: Json,
    /// The tool results or the model before.
    pub other: Json,
}

impl Default for WireParts {
    fn default() -> (r: Self)
        ensures
            r == (WireParts { main: Json::Null, other: Json::Null }),
    {
        WireParts { main: Json::Null, other: Json::Null }
    }
}

/// The wire name of the reason for a switch.
pub open spec fn switch_reason_name(reason: SessionBeforeSwitchReason) -> Seq<char> {
    match reason {
        SessionBeforeSwitchReason::New => "new"@,
        SessionBeforeSwitchReason::Resume => "resume"@,
    }
}

fn switch_reason_str(reason: SessionBeforeSwitchReason) -> (r: &'static str)
    ensures
        r@ == switch_reason_name(reason),
{
    match reason {
        SessionBeforeSwitchReason::New => "new",
        SessionBeforeSwitchReason::Resume => "resume",
    }
}

/// The wire name of a fork's position.
pub open spec fn fork_position_name(position: SessionBeforeForkPosition) -> Seq<char> {
    match position {
        SessionBeforeForkPosition::Before => "before"@,
        SessionBeforeForkPosition::At => "at"@,
    }
}

fn fork_position_str(position: SessionBeforeForkPosition) -> (r: &'static str)
    ensures
        r@ == fork_position_name(position),
{
    match position {
        SessionBeforeForkPosition::Before => "before",
        SessionBeforeForkPosition::At => "at",
    }
}

/// The wire name of what selected a model.
pub open spec fn select_source_name(source: ModelSelectSource) -> Seq<char> {
    match source {
        ModelSelectSource::Chosen => "set"@,
        ModelSelectSource::Cycle => "cycle"@,
        ModelSelectSource::Restore => "restore"@,
    }
}

fn select_source_str(source: ModelSelectSource) -> (r: &'static str)
    ensures
        r@ == select_source_name(source),
{
    match source {
        ModelSelectSource::Chosen => "set",
        ModelSelectSource::Cycle => "cycle",
        ModelSelectSource::Restore => "restore",
    }
}

/// A member with a text.
pub open spec fn text_field(key: Seq<char>, value: Seq<char>) -> Seq<(Seq<char>, Shape)> {
    seq![(key, Shape::Text(value))]
}

/// A member with a text, left out where there is none.
pub open spec fn optional_text(key: Seq<char>, value: Option<Seq<char>>) -> Seq<
    (Seq<char>, Shape),
> {
    match value {
        Some(t) => text_field(key, t),
        None => seq![],
    }
}

/// A member with a text, left out where there is none.
pub open spec fn optional_field(key: Seq<char>, value: Option<String>) -> Seq<(Seq<char>, Shape)> {
    optional_text(key, session::text_view(value))
}

/// A member with a number.
pub open spec fn number_field(key: Seq<char>, value: int) -> Seq<(Seq<char>, Shape)> {
    seq![(key, Shape::Number(value))]
}

/// A member with a flag.
pub open spec fn flag_field(key: Seq<char>, value: bool) -> Seq<(Seq<char>, Shape)> {
    seq![(key, Shape::Bool(value))]
}

/// A member that the caller has written.
pub open spec fn part_field(key: Seq<char>, value: Json) -> Seq<(Seq<char>, Shape)> {
    seq![(key, shape(value))]
}

/// A member that the caller has written, left out where it is not there.
pub open spec fn optional_part(key: Seq<char>, value: Json, there: bool) -> Seq<
    (Seq<char>, Shape),
> {
    if there {
        part_field(key, value)
    } else {
        seq![]
    }
}

/// The members of a retry that is waited for.
pub open spec fn wait_fields(attempt: int, max_attempts: int, delay_ms: int, error: Seq<char>) -> Seq<
    (Seq<char>, Shape),
> {
    number_field("attempt"@, attempt) + number_field("maxAttempts"@, max_attempts) + number_field(
        "delayMs"@,
        delay_ms,
    ) + text_field("errorMessage"@, error)
}

/// The members of what a retried summary is for.
pub open spec fn source_fields(source: SummarizationRetrySource) -> Seq<(Seq<char>, Shape)> {
    match source {
        SummarizationRetrySource::BranchSummary => text_field("source"@, "branchSummary"@),
        SummarizationRetrySource::Compaction { reason } => text_field("source"@, "compaction"@)
            + text_field("reason"@, reason.name()),
    }
}

/// The texts of a list of strings.
pub open spec fn string_views(texts: Seq<String>) -> Seq<Seq<char>> {
    texts.map_values(|t: String| t@)
}

/// The members of an event behind its name.
pub open spec fn payload_fields(event: AgentSessionEvent, parts: WireParts) -> Seq<
    (Seq<char>, Shape),
> {
    match event {
        AgentSessionEvent::SessionBeforeSwitch { reason, target_session_file } => text_field(
            "reason"@,
            switch_reason_name(reason),
        ) + optional_field("targetSessionFile"@, target_session_file),
        AgentSessionEvent::SessionBeforeFork { entry_id, position } => text_field(
            "entryId"@,
            entry_id@,
        ) + text_field("position"@, fork_position_name(position)),
        AgentSessionEvent::SessionStart { reason, previous_session_file } => text_field(
            "reason"@,
            reason.name(),
        ) + optional_field("previousSessionFile"@, previous_session_file),
        AgentSessionEvent::SessionShutdown { reason, target_session_file } => text_field(
            "reason"@,
            reason.name(),
        ) + optional_field("targetSessionFile"@, target_session_file),
        AgentSessionEvent::ModelSelect { previous_model, source, .. } => part_field(
            "model"@,
            parts.main,
        ) + optional_part("previousModel"@, parts.other, previous_model is Some) + text_field(
            "source"@,
            select_source_name(source),
        ),
        AgentSessionEvent::AgentStart => seq![],
        AgentSessionEvent::AgentEnd { will_retry, .. } => part_field("messages"@, parts.main)
            + flag_field("willRetry"@, will_retry),
        AgentSessionEvent::TurnStart => seq![],
        AgentSessionEvent::TurnEnd { .. } => part_field("message"@, parts.main) + part_field(
            "toolResults"@,
            parts.other,
        ),
        AgentSessionEvent::MessageStart { .. } => part_field("message"@, parts.main),
        AgentSessionEvent::MessageUpdate { assistant_message_event, .. } => part_field(
            "message"@,
            parts.main,
        ) + part_field("assistantMessageEvent"@, assistant_message_event),
        AgentSessionEvent::MessageEnd { .. } => part_field("message"@, parts.main),
        AgentSessionEvent::ToolExecutionStart { tool_call_id, tool_name, args } => text_field(
            "toolCallId"@,
            tool_call_id@,
        ) + text_field("toolName"@, tool_name@) + part_field("args"@, Json::Object(args)),
        AgentSessionEvent::ToolExecutionUpdate { tool_call_id, tool_name, args, .. } => text_field(
            "toolCallId"@,
            tool_call_id@,
        ) + text_field("toolName"@, tool_name@) + part_field("args"@, Json::Object(args))
            + part_field("partialResult"@, parts.main),
        AgentSessionEvent::ToolExecutionEnd { tool_call_id, tool_name, is_error, .. } => text_field(
            "toolCallId"@,
            tool_call_id@,
        ) + text_field("toolName"@, tool_name@) + part_field("result"@, parts.main) + flag_field(
            "isError"@,
            is_error,
        ),
        AgentSessionEvent::AgentSettled => seq![],
        AgentSessionEvent::QueueUpdate { steering, follow_up } => seq![
            ("steering"@, Shape::Texts(string_views(steering@))),
            ("followUp"@, Shape::Texts(string_views(follow_up@))),
        ],
        AgentSessionEvent::CompactionStart { reason } => text_field("reason"@, reason.name()),
        AgentSessionEvent::CompactionEnd { reason, result, aborted, will_retry, error_message } =>
            text_field("reason"@, reason.name()) + optional_part(
            "result"@,
            parts.main,
            result is Some,
        ) + flag_field("aborted"@, aborted) + flag_field("willRetry"@, will_retry)
            + optional_field("errorMessage"@, error_message),
        AgentSessionEvent::EntryAppended { .. } => part_field("entry"@, parts.main),
        AgentSessionEvent::SessionInfoChanged { name } => optional_field("name"@, name),
        AgentSessionEvent::ThinkingLevelChanged { level } => text_field(
            "level"@,
            model::level_name(level),
        ),
        AgentSessionEvent::AutoRetryStart { attempt, max_attempts, delay_ms, error_message } =>
            wait_fields(
            attempt as int,
            max_attempts as int,
            delay_ms as int,
            error_message@,
        ),
        AgentSessionEvent::AutoRetryEnd { success, attempt, final_error } => flag_field(
            "success"@,
            success,
        ) + number_field("attempt"@, attempt as int) + optional_field("finalError"@, final_error),
        AgentSessionEvent::SummarizationRetryScheduled {
            attempt,
            max_attempts,
            delay_ms,
            error_message,
        } => wait_fields(
            attempt as int,
            max_attempts as int,
            delay_ms as int,
            error_message@,
        ),
        AgentSessionEvent::SummarizationRetryAttemptStart { source } => source_fields(source),
        AgentSessionEvent::SummarizationRetryFinished => seq![],
        AgentSessionEvent::BashExecutionUpdate { id, delta } => optional_field("id"@, id)
            + text_field("delta"@, delta@),
    }
}

/// The members of an event.
pub open spec fn wire_fields(event: AgentSessionEvent, parts: WireParts) -> Seq<
    (Seq<char>, Shape),
> {
    text_field("type"@, events::event_name(event)) + payload_fields(event, parts)
}

fn put(members: &mut Vec<(String, Json)>, key: &str, value: Json)
    ensures
        shapes(final(members)@) == shapes(old(members)@).push((key@, shape(value))),
{
    let ghost before = members@;
    members.push((key.to_owned(), value));
    assert(shapes(members@) =~= shapes(before).push((key@, shape(value))));
}

fn put_text(members: &mut Vec<(String, Json)>, key: &str, value: &str)
    ensures
        shapes(final(members)@) == shapes(old(members)@) + text_field(key@, value@),
{
    let ghost before = shapes(members@);
    put(members, key, Json::Text(value.to_owned()));
    assert(shapes(members@) =~= before + text_field(key@, value@));
}

fn put_optional(members: &mut Vec<(String, Json)>, key: &str, value: &Option<String>)
    ensures
        shapes(final(members)@) == shapes(old(members)@) + optional_field(key@, *value),
{
    let ghost before = shapes(members@);
    if let Some(t) = value {
        put_text(members, key, t.as_str());
    }
    assert(shapes(members@) =~= before + optional_field(key@, *value));
}

fn put_number(members: &mut Vec<(String, Json)>, key: &str, value: u64)
    ensures
        shapes(final(members)@) == shapes(old(members)@) + number_field(key@, value as int),
{
    let ghost before = shapes(members@);
    put(members, key, Json::Integer(value as i128));
    assert(shapes(members@) =~= before + number_field(key@, value as int));
}

fn put_flag(members: &mut Vec<(String, Json)>, key: &str, value: bool)
    ensures
        shapes(final(members)@) == shapes(old(members)@) + flag_field(key@, value),
{
    let ghost before = shapes(members@);
    put(members, key, Json::Bool(value));
    assert(shapes(members@) =~= before + flag_field(key@, value));
}

fn put_part(members: &mut Vec<(String, Json)>, key: &str, value: &Json)
    ensures
        shapes(final(members)@) == shapes(old(members)@) + part_field(key@, *value),
{
    let ghost before = shapes(members@);
    put(members, key, value.clone());
    assert(shapes(members@) =~= before + part_field(key@, *value));
}

fn put_optional_part(members: &mut Vec<(String, Json)>, key: &str, value: &Json, there: bool)
    ensures
        shapes(final(members)@) == shapes(old(members)@) + optional_part(key@, *value, there),
{
    let ghost before = shapes(members@);
    if there {
        put_part(members, key, value);
    }
    assert(shapes(members@) =~= before + optional_part(key@, *value, there));
}

fn text_items(texts: &Vec<String>) -> (r: Json)
    ensures
        shape(r) == Shape::Texts(string_views(texts@)),
{
    let n: usize = texts.len();
    let mut items: Vec<Json> = Vec::new();
    let mut i: usize = 0;
    while i < n
        invariant
            n == texts@.len(),
            i <= n,
            items@.len() == i,
            forall|j: int| 0 <= j < i ==> #[trigger] items@[j] == Json::Text(texts@[j]),
        decreases n - i,
    {
        items.push(Json::Text(texts[i].clone()));
        i += 1;
    }
    assert(texts_of(items@) =~= string_views(texts@));
    Json::Array(Arc::new(items))
}

fn put_wait(
    members: &mut Vec<(String, Json)>,
    attempt: u32,
    max_attempts: u32,
    delay_ms: u64,
    error: &String,
)
    ensures
        shapes(final(members)@) == shapes(old(members)@) + wait_fields(
            attempt as int,
            max_attempts as int,
            delay_ms as int,
            error@,
        ),
{
    let ghost before = shapes(members@);
    put_number(members, "attempt", attempt as u64);
    put_number(members, "maxAttempts", max_attempts as u64);
    put_number(members, "delayMs", delay_ms);
    put_text(members, "errorMessage", error.as_str());
    assert(shapes(members@) =~= before + wait_fields(
        attempt as int,
        max_attempts as int,
        delay_ms as int,
        error@,
    ));
}

fn put_source(members: &mut Vec<(String, Json)>, source: SummarizationRetrySource)
    ensures
        shapes(final(members)@) == shapes(old(members)@) + source_fields(source),
{
    let ghost before = shapes(members@);
    match source {
        SummarizationRetrySource::BranchSummary => put_text(members, "source", "branchSummary"),
        SummarizationRetrySource::Compaction { reason } => {
            put_text(members, "source", "compaction");
            put_text(members, "reason", reason.as_str());
        },
    }
    assert(shapes(members@) =~= before + source_fields(source));
}

/// The members of the events of the agent run.
fn put_agent_payload(members: &mut Vec<(String, Json)>, event: &AgentSessionEvent, parts: &WireParts)
    requires
        is_agent_event(*event),
    ensures
        shapes(final(members)@) == shapes(old(members)@) + payload_fields(*event, *parts),
{
    let ghost before = shapes(members@);
    match event {
        AgentSessionEvent::AgentEnd { messages: _, will_retry } => {
            put_part(members, "messages", &parts.main);
            put_flag(members, "willRetry", *will_retry);
        },
        AgentSessionEvent::TurnEnd { .. } => {
            put_part(members, "message", &parts.main);
            put_part(members, "toolResults", &parts.other);
        },
        AgentSessionEvent::MessageStart { .. } | AgentSessionEvent::MessageEnd { .. } => {
            put_part(members, "message", &parts.main);
        },
        AgentSessionEvent::MessageUpdate { message: _, assistant_message_event } => {
            put_part(members, "message", &parts.main);
            put_part(members, "assistantMessageEvent", assistant_message_event);
        },
        AgentSessionEvent::ToolExecutionStart { tool_call_id, tool_name, args } => {
            put_text(members, "toolCallId", tool_call_id.as_str());
            put_text(members, "toolName", tool_name.as_str());
            put_part(members, "args", &Json::Object(json::share(args)));
        },
        AgentSessionEvent::ToolExecutionUpdate {
            tool_call_id,
            tool_name,
            args,
            partial_result: _,
        } => {
            put_text(members, "toolCallId", tool_call_id.as_str());
            put_text(members, "toolName", tool_name.as_str());
            put_part(members, "args", &Json::Object(json::share(args)));
            put_part(members, "partialResult", &parts.main);
        },
        AgentSessionEvent::ToolExecutionEnd { tool_call_id, tool_name, result: _, is_error } => {
            put_text(members, "toolCallId", tool_call_id.as_str());
            put_text(members, "toolName", tool_name.as_str());
            put_part(members, "result", &parts.main);
            put_flag(members, "isError", *is_error);
        },
        _ => {},
    }
    assert(shapes(members@) =~= before + payload_fields(*event, *parts));
}

/// The events of the agent run.
pub open spec fn is_agent_event(event: AgentSessionEvent) -> bool {
    match event {
        AgentSessionEvent::AgentStart => true,
        AgentSessionEvent::AgentEnd { .. } => true,
        AgentSessionEvent::TurnStart => true,
        AgentSessionEvent::TurnEnd { .. } => true,
        AgentSessionEvent::MessageStart { .. } => true,
        AgentSessionEvent::MessageUpdate { .. } => true,
        AgentSessionEvent::MessageEnd { .. } => true,
        AgentSessionEvent::ToolExecutionStart { .. } => true,
        AgentSessionEvent::ToolExecutionUpdate { .. } => true,
        AgentSessionEvent::ToolExecutionEnd { .. } => true,
        _ => false,
    }
}

/// The members of the events that tell of the session's life and of its model.
fn put_life_payload(members: &mut Vec<(String, Json)>, event: &AgentSessionEvent, parts: &WireParts) -> (r:
    bool)
    ensures
        r ==> shapes(final(members)@) == shapes(old(members)@) + payload_fields(*event, *parts),
        !r ==> final(members)@ == old(members)@,
        r == is_life_event(*event),
{
    let ghost before = shapes(members@);
    match event {
        AgentSessionEvent::SessionBeforeSwitch { reason, target_session_file } => {
            put_text(members, "reason", switch_reason_str(*reason));
            put_optional(members, "targetSessionFile", target_session_file);
        },
        AgentSessionEvent::SessionBeforeFork { entry_id, position } => {
            put_text(members, "entryId", entry_id.as_str());
            put_text(members, "position", fork_position_str(*position));
        },
        AgentSessionEvent::SessionStart { reason, previous_session_file } => {
            put_text(members, "reason", reason.as_str());
            put_optional(members, "previousSessionFile", previous_session_file);
        },
        AgentSessionEvent::SessionShutdown { reason, target_session_file } => {
            put_text(members, "reason", reason.as_str());
            put_optional(members, "targetSessionFile", target_session_file);
        },
        AgentSessionEvent::ModelSelect { model: _, previous_model, source } => {
            put_part(members, "model", &parts.main);
            put_optional_part(members, "previousModel", &parts.other, previous_model.is_some());
            put_text(members, "source", select_source_str(*source));
        },
        AgentSessionEvent::EntryAppended { .. } => {
            put_part(members, "entry", &parts.main);
        },
        AgentSessionEvent::SessionInfoChanged { name } => {
            put_optional(members, "name", name);
        },
        AgentSessionEvent::ThinkingLevelChanged { level } => {
            put_text(members, "level", model::level_str(*level));
        },
        _ => {
            return false;
        },
    }
    assert(shapes(members@) =~= before + payload_fields(*event, *parts));
    true
}

/// The events that tell of the session's life and of its model.
pub open spec fn is_life_event(event: AgentSessionEvent) -> bool {
    match event {
        AgentSessionEvent::SessionBeforeSwitch { .. } => true,
        AgentSessionEvent::SessionBeforeFork { .. } => true,
        AgentSessionEvent::SessionStart { .. } => true,
        AgentSessionEvent::SessionShutdown { .. } => true,
        AgentSessionEvent::ModelSelect { .. } => true,
        AgentSessionEvent::EntryAppended { .. } => true,
        AgentSessionEvent::SessionInfoChanged { .. } => true,
        AgentSessionEvent::ThinkingLevelChanged { .. } => true,
        _ => false,
    }
}

/// The members of the other events.
fn put_work_payload(members: &mut Vec<(String, Json)>, event: &AgentSessionEvent, parts: &WireParts)
    requires
        !is_agent_event(*event),
        !is_life_event(*event),
    ensures
        shapes(final(members)@) == shapes(old(members)@) + payload_fields(*event, *parts),
{
    let ghost before = shapes(members@);
    match event {
        AgentSessionEvent::QueueUpdate { steering, follow_up } => {
            put(members, "steering", text_items(steering));
            put(members, "followUp", text_items(follow_up));
        },
        AgentSessionEvent::CompactionStart { reason } => {
            put_text(members, "reason", reason.as_str());
        },
        AgentSessionEvent::CompactionEnd {
            reason,
            result,
            aborted,
            will_retry,
            error_message,
        } => {
            put_text(members, "reason", reason.as_str());
            put_optional_part(members, "result", &parts.main, result.is_some());
            put_flag(members, "aborted", *aborted);
            put_flag(members, "willRetry", *will_retry);
            put_optional(members, "errorMessage", error_message);
        },
        AgentSessionEvent::AutoRetryStart { attempt, max_attempts, delay_ms, error_message } => {
            put_wait(members, *attempt, *max_attempts, *delay_ms, error_message);
        },
        AgentSessionEvent::AutoRetryEnd { success, attempt, final_error } => {
            put_flag(members, "success", *success);
            put_number(members, "attempt", *attempt as u64);
            put_optional(members, "finalError", final_error);
        },
        AgentSessionEvent::SummarizationRetryScheduled {
            attempt,
            max_attempts,
            delay_ms,
            error_message,
        } => {
            put_wait(members, *attempt, *max_attempts, *delay_ms, error_message);
        },
        AgentSessionEvent::SummarizationRetryAttemptStart { source } => {
            put_source(members, *source);
        },
        AgentSessionEvent::BashExecutionUpdate { id, delta } => {
            put_optional(members, "id", id);
            put_text(members, "delta", delta.as_str());
        },
        _ => {},
    }
    assert(shapes(members@) =~= before + payload_fields(*event, *parts));
}

fn agent_event(event: &AgentSessionEvent) -> (r: bool)
    ensures
        r == is_agent_event(*event),
{
    match event {
        AgentSessionEvent::AgentStart
        | AgentSessionEvent::AgentEnd { .. }
        | AgentSessionEvent::TurnStart
        | AgentSessionEvent::TurnEnd { .. }
        | AgentSessionEvent::MessageStart { .. }
        | AgentSessionEvent::MessageUpdate { .. }
        | AgentSessionEvent::MessageEnd { .. }
        | AgentSessionEvent::ToolExecutionStart { .. }
        | AgentSessionEvent::ToolExecutionUpdate { .. }
        | AgentSessionEvent::ToolExecutionEnd { .. } => true,
        _ => false,
    }
}

/// Writes an event.
pub fn write_event(event: &AgentSessionEvent, parts: &WireParts) -> (r: Json)
    ensures
        r matches Json::Object(members) && shapes(members@) == wire_fields(*event, *parts),
{
    let mut members: Vec<(String, Json)> = Vec::new();
    assert(shapes(members@) =~= seq![]);
    put_text(&mut members, "type", event.wire_name());
    if agent_event(event) {
        put_agent_payload(&mut members, event, parts);
    } else if !put_life_payload(&mut members, event, parts) {
        put_work_payload(&mut members, event, parts);
    }
    assert(shapes(members@) =~= wire_fields(*event, *parts));
    Json::Object(Arc::new(members))
}

/// The place of the first member from `from` on with this key, the length where there is none.
pub open spec fn key_from(fields: Seq<(Seq<char>, Shape)>, key: Seq<char>, from: int) -> int
    decreases fields.len() - from,
{
    if from >= fields.len() {
        fields.len() as int
    } else if fields[from].0 == key {
        from
    } else {
        key_from(fields, key, from + 1)
    }
}

/// The member with this key.
pub open spec fn found(fields: Seq<(Seq<char>, Shape)>, key: Seq<char>) -> Option<Shape> {
    let i = key_from(fields, key, 0);
    if i < fields.len() {
        Some(fields[i].1)
    } else {
        None
    }
}

proof fn lemma_key_from(members: Seq<(String, Json)>, key: Seq<char>, from: int)
    requires
        0 <= from <= members.len(),
    ensures
        key_from(shapes(members), key, from) == json::member_from(members, key, from),
        from <= json::member_from(members, key, from) <= members.len(),
    decreases members.len() - from,
{
    if from < members.len() && members[from].0@ != key {
        lemma_key_from(members, key, from + 1);
    }
}

/// The text under a key.
pub open spec fn text_at(fields: Seq<(Seq<char>, Shape)>, key: Seq<char>) -> Option<Seq<char>> {
    match found(fields, key) {
        Some(Shape::Text(t)) => Some(t),
        _ => None,
    }
}

/// The text under a key where there is one: what is missing or null is none, and anything else but a
/// text is no answer at all.
pub open spec fn optional_at(fields: Seq<(Seq<char>, Shape)>, key: Seq<char>) -> Option<
    Option<Seq<char>>,
> {
    match found(fields, key) {
        None => Some(None),
        Some(Shape::Null) => Some(None),
        Some(Shape::Text(t)) => Some(Some(t)),
        _ => None,
    }
}

/// The number under a key, from 0 to `max`.
pub open spec fn number_at(fields: Seq<(Seq<char>, Shape)>, key: Seq<char>, max: int) -> Option<int> {
    match found(fields, key) {
        Some(Shape::Number(n)) => if 0 <= n <= max {
            Some(n)
        } else {
            None
        },
        _ => None,
    }
}

/// The flag under a key.
pub open spec fn flag_at(fields: Seq<(Seq<char>, Shape)>, key: Seq<char>) -> Option<bool> {
    match found(fields, key) {
        Some(Shape::Bool(b)) => Some(b),
        _ => None,
    }
}

/// The texts under a key.
pub open spec fn texts_at(fields: Seq<(Seq<char>, Shape)>, key: Seq<char>) -> Option<
    Seq<Seq<char>>,
> {
    match found(fields, key) {
        Some(Shape::Texts(t)) => Some(t),
        _ => None,
    }
}

pub(crate) fn look<'a>(members: &'a Vec<(String, Json)>, key: &str) -> (r: Option<&'a Json>)
    ensures
        match r {
            Some(v) => found(shapes(members@), key@) == Some(shape(*v)),
            None => found(shapes(members@), key@) is None,
        },
{
    proof {
        lemma_key_from(members@, key@, 0);
    }
    json::get_member(members, key)
}

pub(crate) fn read_text(members: &Vec<(String, Json)>, key: &str) -> (r: Option<String>)
    ensures
        session::text_view(r) == text_at(shapes(members@), key@),
{
    match look(members, key) {
        Some(Json::Text(t)) => Some(t.clone()),
        _ => None,
    }
}

pub(crate) fn read_optional(members: &Vec<(String, Json)>, key: &str) -> (r: Option<Option<String>>)
    ensures
        match r {
            Some(t) => optional_at(shapes(members@), key@) == Some(session::text_view(t)),
            None => optional_at(shapes(members@), key@) is None,
        },
{
    match look(members, key) {
        None => Some(None),
        Some(Json::Null) => Some(None),
        Some(Json::Text(t)) => Some(Some(t.clone())),
        _ => None,
    }
}

fn read_number(members: &Vec<(String, Json)>, key: &str, max: u64) -> (r: Option<u64>)
    ensures
        match r {
            Some(n) => number_at(shapes(members@), key@, max as int) == Some(n as int) && n <= max,
            None => number_at(shapes(members@), key@, max as int) is None,
        },
{
    match look(members, key) {
        Some(Json::Integer(n)) => if 0 <= *n && *n <= max as i128 {
            Some(*n as u64)
        } else {
            None
        },
        _ => None,
    }
}

pub(crate) fn read_flag(members: &Vec<(String, Json)>, key: &str) -> (r: Option<bool>)
    ensures
        r == flag_at(shapes(members@), key@),
{
    match look(members, key) {
        Some(Json::Bool(b)) => Some(*b),
        _ => None,
    }
}

fn read_texts(members: &Vec<(String, Json)>, key: &str) -> (r: Option<Vec<String>>)
    ensures
        match r {
            Some(t) => texts_at(shapes(members@), key@) == Some(string_views(t@)),
            None => texts_at(shapes(members@), key@) is None,
        },
{
    let items = match look(members, key) {
        Some(Json::Array(items)) => items,
        _ => return None,
    };
    let n: usize = items.len();
    let mut texts: Vec<String> = Vec::new();
    let mut i: usize = 0;
    while i < n
        invariant
            n == items@.len(),
            i <= n,
            texts@.len() == i,
            forall|j: int| 0 <= j < i ==> #[trigger] items@[j] == Json::Text(texts@[j]),
            found(shapes(members@), key@) == Some(shape(Json::Array(*items))),
        decreases n - i,
    {
        match &items[i] {
            Json::Text(t) => texts.push(t.clone()),
            _ => {
                assert(items@[i as int] !is Text);
                assert(!all_texts(items@));
                return None;
            },
        }
        i += 1;
    }
    assert(all_texts(items@));
    assert(texts_of(items@) =~= string_views(texts@));
    Some(texts)
}

/// The reason for a switch with this name.
pub open spec fn switch_reason_named(name: Option<Seq<char>>) -> Option<SessionBeforeSwitchReason> {
    if name == Some("new"@) {
        Some(SessionBeforeSwitchReason::New)
    } else if name == Some("resume"@) {
        Some(SessionBeforeSwitchReason::Resume)
    } else {
        None
    }
}

/// The position of a fork with this name.
pub open spec fn fork_position_named(name: Option<Seq<char>>) -> Option<SessionBeforeForkPosition> {
    if name == Some("before"@) {
        Some(SessionBeforeForkPosition::Before)
    } else if name == Some("at"@) {
        Some(SessionBeforeForkPosition::At)
    } else {
        None
    }
}

/// The reason for a start with this name.
pub open spec fn start_reason_named(name: Option<Seq<char>>) -> Option<SessionStartReason> {
    if name == Some("startup"@) {
        Some(SessionStartReason::Startup)
    } else if name == Some("reload"@) {
        Some(SessionStartReason::Reload)
    } else if name == Some("new"@) {
        Some(SessionStartReason::New)
    } else if name == Some("resume"@) {
        Some(SessionStartReason::Resume)
    } else if name == Some("fork"@) {
        Some(SessionStartReason::Fork)
    } else {
        None
    }
}

/// The reason for a shutdown with this name.
pub open spec fn shutdown_reason_named(name: Option<Seq<char>>) -> Option<SessionShutdownReason> {
    if name == Some("new"@) {
        Some(SessionShutdownReason::New)
    } else if name == Some("resume"@) {
        Some(SessionShutdownReason::Resume)
    } else if name == Some("fork"@) {
        Some(SessionShutdownReason::Fork)
    } else if name == Some("reload"@) {
        Some(SessionShutdownReason::Reload)
    } else if name == Some("quit"@) {
        Some(SessionShutdownReason::Quit)
    } else {
        None
    }
}

/// The reason for a compaction with this name.
pub open spec fn compaction_reason_named(name: Option<Seq<char>>) -> Option<CompactionReason> {
    if name == Some("manual"@) {
        Some(CompactionReason::Manual)
    } else if name == Some("threshold"@) {
        Some(CompactionReason::Threshold)
    } else if name == Some("overflow"@) {
        Some(CompactionReason::Overflow)
    } else {
        None
    }
}

pub(crate) fn is_named(name: &Option<String>, expected: &str) -> (r: bool)
    ensures
        r == (session::text_view(*name) == Some(expected@)),
{
    match name {
        Some(t) => text::same_text(t.as_str(), expected),
        None => false,
    }
}

fn read_switch_reason(name: &Option<String>) -> (r: Option<SessionBeforeSwitchReason>)
    ensures
        r == switch_reason_named(session::text_view(*name)),
{
    if is_named(name, "new") {
        Some(SessionBeforeSwitchReason::New)
    } else if is_named(name, "resume") {
        Some(SessionBeforeSwitchReason::Resume)
    } else {
        None
    }
}

fn read_fork_position(name: &Option<String>) -> (r: Option<SessionBeforeForkPosition>)
    ensures
        r == fork_position_named(session::text_view(*name)),
{
    if is_named(name, "before") {
        Some(SessionBeforeForkPosition::Before)
    } else if is_named(name, "at") {
        Some(SessionBeforeForkPosition::At)
    } else {
        None
    }
}

fn read_start_reason(name: &Option<String>) -> (r: Option<SessionStartReason>)
    ensures
        r == start_reason_named(session::text_view(*name)),
{
    if is_named(name, "startup") {
        Some(SessionStartReason::Startup)
    } else if is_named(name, "reload") {
        Some(SessionStartReason::Reload)
    } else if is_named(name, "new") {
        Some(SessionStartReason::New)
    } else if is_named(name, "resume") {
        Some(SessionStartReason::Resume)
    } else if is_named(name, "fork") {
        Some(SessionStartReason::Fork)
    } else {
        None
    }
}

fn read_shutdown_reason(name: &Option<String>) -> (r: Option<SessionShutdownReason>)
    ensures
        r == shutdown_reason_named(session::text_view(*name)),
{
    if is_named(name, "new") {
        Some(SessionShutdownReason::New)
    } else if is_named(name, "resume") {
        Some(SessionShutdownReason::Resume)
    } else if is_named(name, "fork") {
        Some(SessionShutdownReason::Fork)
    } else if is_named(name, "reload") {
        Some(SessionShutdownReason::Reload)
    } else if is_named(name, "quit") {
        Some(SessionShutdownReason::Quit)
    } else {
        None
    }
}

pub(crate) fn read_compaction_reason(name: &Option<String>) -> (r: Option<CompactionReason>)
    ensures
        r == compaction_reason_named(session::text_view(*name)),
{
    if is_named(name, "manual") {
        Some(CompactionReason::Manual)
    } else if is_named(name, "threshold") {
        Some(CompactionReason::Threshold)
    } else if is_named(name, "overflow") {
        Some(CompactionReason::Overflow)
    } else {
        None
    }
}

/// What the members of a switch are read as.
pub open spec fn read_switch(f: Seq<(Seq<char>, Shape)>) -> Option<Seq<(Seq<char>, Shape)>> {
    match (
        switch_reason_named(text_at(f, "reason"@)),
        optional_at(f, "targetSessionFile"@),
    ) {
        (Some(reason), Some(file)) => Some(
            text_field("reason"@, switch_reason_name(reason)) + optional_text(
                "targetSessionFile"@,
                file,
            ),
        ),
        _ => None,
    }
}

/// What the members of a fork are read as.
pub open spec fn read_fork(f: Seq<(Seq<char>, Shape)>) -> Option<Seq<(Seq<char>, Shape)>> {
    match (text_at(f, "entryId"@), fork_position_named(text_at(f, "position"@))) {
        (Some(id), Some(position)) => Some(
            text_field("entryId"@, id) + text_field("position"@, fork_position_name(position)),
        ),
        _ => None,
    }
}

/// What the members of a start are read as.
pub open spec fn read_start(f: Seq<(Seq<char>, Shape)>) -> Option<Seq<(Seq<char>, Shape)>> {
    match (
        start_reason_named(text_at(f, "reason"@)),
        optional_at(f, "previousSessionFile"@),
    ) {
        (Some(reason), Some(file)) => Some(
            text_field("reason"@, reason.name()) + optional_text("previousSessionFile"@, file),
        ),
        _ => None,
    }
}

/// What the members of a shutdown are read as.
pub open spec fn read_shutdown(f: Seq<(Seq<char>, Shape)>) -> Option<Seq<(Seq<char>, Shape)>> {
    match (
        shutdown_reason_named(text_at(f, "reason"@)),
        optional_at(f, "targetSessionFile"@),
    ) {
        (Some(reason), Some(file)) => Some(
            text_field("reason"@, reason.name()) + optional_text("targetSessionFile"@, file),
        ),
        _ => None,
    }
}

/// What the members of the texts that wait are read as.
pub open spec fn read_queue(f: Seq<(Seq<char>, Shape)>) -> Option<Seq<(Seq<char>, Shape)>> {
    match (texts_at(f, "steering"@), texts_at(f, "followUp"@)) {
        (Some(steering), Some(follow_up)) => Some(
            seq![("steering"@, Shape::Texts(steering)), ("followUp"@, Shape::Texts(follow_up))],
        ),
        _ => None,
    }
}

/// What the members of a retry that is waited for are read as.
pub open spec fn read_wait(f: Seq<(Seq<char>, Shape)>) -> Option<Seq<(Seq<char>, Shape)>> {
    match (
        number_at(f, "attempt"@, u32::MAX as int),
        number_at(f, "maxAttempts"@, u32::MAX as int),
        number_at(f, "delayMs"@, u64::MAX as int),
        text_at(f, "errorMessage"@),
    ) {
        (Some(attempt), Some(max_attempts), Some(delay_ms), Some(error)) => Some(
            wait_fields(attempt, max_attempts, delay_ms, error),
        ),
        _ => None,
    }
}

/// What the members of the end of retrying are read as.
pub open spec fn read_retry_end(f: Seq<(Seq<char>, Shape)>) -> Option<Seq<(Seq<char>, Shape)>> {
    match (
        flag_at(f, "success"@),
        number_at(f, "attempt"@, u32::MAX as int),
        optional_at(f, "finalError"@),
    ) {
        (Some(success), Some(attempt), Some(error)) => Some(
            flag_field("success"@, success) + number_field("attempt"@, attempt) + optional_text(
                "finalError"@,
                error,
            ),
        ),
        _ => None,
    }
}

/// What the members of a retried summary are read as.
pub open spec fn read_source(f: Seq<(Seq<char>, Shape)>) -> Option<Seq<(Seq<char>, Shape)>> {
    if text_at(f, "source"@) == Some("branchSummary"@) {
        Some(source_fields(SummarizationRetrySource::BranchSummary))
    } else if text_at(f, "source"@) == Some("compaction"@) {
        match compaction_reason_named(text_at(f, "reason"@)) {
            Some(reason) => Some(source_fields(SummarizationRetrySource::Compaction { reason })),
            None => None,
        }
    } else {
        None
    }
}

/// What the members of shell output are read as.
pub open spec fn read_output(f: Seq<(Seq<char>, Shape)>) -> Option<Seq<(Seq<char>, Shape)>> {
    match (optional_at(f, "id"@), text_at(f, "delta"@)) {
        (Some(id), Some(delta)) => Some(optional_text("id"@, id) + text_field("delta"@, delta)),
        _ => None,
    }
}

/// What the members behind the name of an event are read as: none where the event is not one of the
/// session's own or a member is not as it should be. Members that are not known are passed over.
pub open spec fn read_payload(name: Seq<char>, f: Seq<(Seq<char>, Shape)>) -> Option<
    Seq<(Seq<char>, Shape)>,
> {
    if name == "session_before_switch"@ {
        read_switch(f)
    } else if name == "session_before_fork"@ {
        read_fork(f)
    } else if name == "session_start"@ {
        read_start(f)
    } else if name == "session_shutdown"@ {
        read_shutdown(f)
    } else if name == "agent_start"@ || name == "turn_start"@ || name == "agent_settled"@ || name
        == "summarization_retry_finished"@ {
        Some(seq![])
    } else if name == "queue_update"@ {
        read_queue(f)
    } else if name == "compaction_start"@ {
        match compaction_reason_named(text_at(f, "reason"@)) {
            Some(reason) => Some(text_field("reason"@, reason.name())),
            None => None,
        }
    } else if name == "session_info_changed"@ {
        match optional_at(f, "name"@) {
            Some(value) => Some(optional_text("name"@, value)),
            None => None,
        }
    } else if name == "thinking_level_changed"@ {
        match text_at(f, "level"@) {
            Some(level) => match model::level_named(level) {
                Some(l) => Some(text_field("level"@, model::level_name(l))),
                None => None,
            },
            None => None,
        }
    } else if name == "auto_retry_start"@ || name == "summarization_retry_scheduled"@ {
        read_wait(f)
    } else if name == "auto_retry_end"@ {
        read_retry_end(f)
    } else if name == "summarization_retry_attempt_start"@ {
        read_source(f)
    } else if name == "bash_execution_update"@ {
        read_output(f)
    } else {
        None
    }
}

/// What the members of an event are read as.
pub open spec fn read_fields(f: Seq<(Seq<char>, Shape)>) -> Option<Seq<(Seq<char>, Shape)>> {
    match text_at(f, "type"@) {
        Some(name) => match read_payload(name, f) {
            Some(payload) => Some(text_field("type"@, name) + payload),
            None => None,
        },
        None => None,
    }
}

/// `r` is the event that is written with these members, none where there are none.
pub open spec fn reads(r: Option<AgentSessionEvent>, name: Seq<char>, payload: Option<
    Seq<(Seq<char>, Shape)>,
>) -> bool {
    match payload {
        Some(fields) => r matches Some(event) && events::event_name(event) == name
            && forall|parts: WireParts| #[trigger] payload_fields(event, parts) == fields,
        None => r is None,
    }
}

fn read_life_event(name: &str, members: &Vec<(String, Json)>) -> (r: Option<AgentSessionEvent>)
    requires
        name@ == "session_before_switch"@ || name@ == "session_before_fork"@ || name@
            == "session_start"@ || name@ == "session_shutdown"@,
    ensures
        reads(r, name@, read_payload(name@, shapes(members@))),
{
    if text::same_text(name, "session_before_switch") {
        let reason = read_switch_reason(&read_text(members, "reason"));
        let file = read_optional(members, "targetSessionFile");
        match (reason, file) {
            (Some(reason), Some(target_session_file)) => Some(
                AgentSessionEvent::SessionBeforeSwitch { reason, target_session_file },
            ),
            _ => None,
        }
    } else if text::same_text(name, "session_before_fork") {
        let entry_id = read_text(members, "entryId");
        let position = read_fork_position(&read_text(members, "position"));
        match (entry_id, position) {
            (Some(entry_id), Some(position)) => Some(
                AgentSessionEvent::SessionBeforeFork { entry_id, position },
            ),
            _ => None,
        }
    } else if text::same_text(name, "session_start") {
        let reason = read_start_reason(&read_text(members, "reason"));
        let file = read_optional(members, "previousSessionFile");
        match (reason, file) {
            (Some(reason), Some(previous_session_file)) => Some(
                AgentSessionEvent::SessionStart { reason, previous_session_file },
            ),
            _ => None,
        }
    } else {
        let reason = read_shutdown_reason(&read_text(members, "reason"));
        let file = read_optional(members, "targetSessionFile");
        match (reason, file) {
            (Some(reason), Some(target_session_file)) => Some(
                AgentSessionEvent::SessionShutdown { reason, target_session_file },
            ),
            _ => None,
        }
    }
}

fn read_wait_parts(members: &Vec<(String, Json)>) -> (r: Option<(u32, u32, u64, String)>)
    ensures
        match r {
            Some(w) => read_wait(shapes(members@)) == Some(
                wait_fields(w.0 as int, w.1 as int, w.2 as int, w.3@),
            ),
            None => read_wait(shapes(members@)) is None,
        },
{
    let attempt = read_number(members, "attempt", u32::MAX as u64);
    let max_attempts = read_number(members, "maxAttempts", u32::MAX as u64);
    let delay_ms = read_number(members, "delayMs", u64::MAX);
    let error = read_text(members, "errorMessage");
    match (attempt, max_attempts, delay_ms, error) {
        (Some(attempt), Some(max_attempts), Some(delay_ms), Some(error)) => Some(
            (attempt as u32, max_attempts as u32, delay_ms, error),
        ),
        _ => None,
    }
}

fn read_retry_event(name: &str, members: &Vec<(String, Json)>) -> (r: Option<AgentSessionEvent>)
    requires
        name@ == "auto_retry_start"@ || name@ == "summarization_retry_scheduled"@ || name@
            == "auto_retry_end"@ || name@ == "summarization_retry_attempt_start"@,
    ensures
        reads(r, name@, read_payload(name@, shapes(members@))),
{
    proof {
        lemma_names();
    }
    if text::same_text(name, "auto_retry_start") {
        match read_wait_parts(members) {
            Some((attempt, max_attempts, delay_ms, error_message)) => Some(
                AgentSessionEvent::AutoRetryStart { attempt, max_attempts, delay_ms, error_message },
            ),
            None => None,
        }
    } else if text::same_text(name, "summarization_retry_scheduled") {
        match read_wait_parts(members) {
            Some((attempt, max_attempts, delay_ms, error_message)) => Some(
                AgentSessionEvent::SummarizationRetryScheduled {
                    attempt,
                    max_attempts,
                    delay_ms,
                    error_message,
                },
            ),
            None => None,
        }
    } else if text::same_text(name, "auto_retry_end") {
        let success = read_flag(members, "success");
        let attempt = read_number(members, "attempt", u32::MAX as u64);
        let error = read_optional(members, "finalError");
        match (success, attempt, error) {
            (Some(success), Some(attempt), Some(final_error)) => Some(
                AgentSessionEvent::AutoRetryEnd { success, attempt: attempt as u32, final_error },
            ),
            _ => None,
        }
    } else {
        let source = read_text(members, "source");
        if is_named(&source, "branchSummary") {
            Some(
                AgentSessionEvent::SummarizationRetryAttemptStart {
                    source: SummarizationRetrySource::BranchSummary,
                },
            )
        } else if is_named(&source, "compaction") {
            match read_compaction_reason(&read_text(members, "reason")) {
                Some(reason) => Some(
                    AgentSessionEvent::SummarizationRetryAttemptStart {
                        source: SummarizationRetrySource::Compaction { reason },
                    },
                ),
                None => None,
            }
        } else {
            None
        }
    }
}

fn read_state_event(name: &str, members: &Vec<(String, Json)>) -> (r: Option<AgentSessionEvent>)
    requires
        name@ == "queue_update"@ || name@ == "compaction_start"@ || name@
            == "session_info_changed"@ || name@ == "thinking_level_changed"@ || name@
            == "bash_execution_update"@,
    ensures
        reads(r, name@, read_payload(name@, shapes(members@))),
{
    proof {
        lemma_names();
    }
    if text::same_text(name, "queue_update") {
        let steering = read_texts(members, "steering");
        let follow_up = read_texts(members, "followUp");
        match (steering, follow_up) {
            (Some(steering), Some(follow_up)) => Some(
                AgentSessionEvent::QueueUpdate {
                    steering: Arc::new(steering),
                    follow_up: Arc::new(follow_up),
                },
            ),
            _ => None,
        }
    } else if text::same_text(name, "compaction_start") {
        match read_compaction_reason(&read_text(members, "reason")) {
            Some(reason) => Some(AgentSessionEvent::CompactionStart { reason }),
            None => None,
        }
    } else if text::same_text(name, "session_info_changed") {
        match read_optional(members, "name") {
            Some(name) => Some(AgentSessionEvent::SessionInfoChanged { name }),
            None => None,
        }
    } else if text::same_text(name, "thinking_level_changed") {
        match read_text(members, "level") {
            Some(level) => match model::parse_thinking_level(level.as_str()) {
                Some(level) => Some(AgentSessionEvent::ThinkingLevelChanged { level }),
                None => None,
            },
            None => None,
        }
    } else {
        let id = read_optional(members, "id");
        let delta = read_text(members, "delta");
        match (id, delta) {
            (Some(id), Some(delta)) => Some(AgentSessionEvent::BashExecutionUpdate { id, delta }),
            _ => None,
        }
    }
}

/// What tells the wire names of the session's own events apart.
pub(crate) proof fn lemma_names()
    ensures
        "session_before_switch"@.len() == 21,
        "session_before_fork"@.len() == 19,
        "session_start"@.len() == 13,
        "session_shutdown"@.len() == 16,
        "agent_start"@.len() == 11,
        "turn_start"@.len() == 10,
        "agent_settled"@.len() == 13,
        "queue_update"@.len() == 12,
        "compaction_start"@.len() == 16,
        "session_info_changed"@.len() == 20,
        "thinking_level_changed"@.len() == 22,
        "auto_retry_start"@.len() == 16,
        "auto_retry_end"@.len() == 14,
        "summarization_retry_scheduled"@.len() == 29,
        "summarization_retry_attempt_start"@.len() == 33,
        "summarization_retry_finished"@.len() == 28,
        "bash_execution_update"@.len() == 21,
        "session_before_switch"@ != "bash_execution_update"@,
        "session_start"@ != "agent_settled"@,
        "session_shutdown"@ != "compaction_start"@,
        "session_shutdown"@ != "auto_retry_start"@,
        "compaction_start"@ != "auto_retry_start"@,
{
    reveal_strlit("session_before_switch");
    reveal_strlit("session_before_fork");
    reveal_strlit("session_start");
    reveal_strlit("session_shutdown");
    reveal_strlit("agent_start");
    reveal_strlit("turn_start");
    reveal_strlit("agent_settled");
    reveal_strlit("queue_update");
    reveal_strlit("compaction_start");
    reveal_strlit("session_info_changed");
    reveal_strlit("thinking_level_changed");
    reveal_strlit("auto_retry_start");
    reveal_strlit("auto_retry_end");
    reveal_strlit("summarization_retry_scheduled");
    reveal_strlit("summarization_retry_attempt_start");
    reveal_strlit("summarization_retry_finished");
    reveal_strlit("bash_execution_update");
    assert("session_before_switch"@[0] == 's');
    assert("session_start"@[0] == 's');
    assert("session_shutdown"@[0] == 's');
    assert("agent_settled"@[0] == 'a');
    assert("compaction_start"@[0] == 'c');
    assert("auto_retry_start"@[0] == 'a');
    assert("bash_execution_update"@[0] == 'b');
}

/// Whether an event is one of the session's own, which are read without the caller's help.
pub open spec fn is_own_event(event: AgentSessionEvent) -> bool {
    match event {
        AgentSessionEvent::SessionBeforeSwitch { .. } => true,
        AgentSessionEvent::SessionBeforeFork { .. } => true,
        AgentSessionEvent::SessionStart { .. } => true,
        AgentSessionEvent::SessionShutdown { .. } => true,
        AgentSessionEvent::AgentStart => true,
        AgentSessionEvent::TurnStart => true,
        AgentSessionEvent::AgentSettled => true,
        AgentSessionEvent::QueueUpdate { .. } => true,
        AgentSessionEvent::CompactionStart { .. } => true,
        AgentSessionEvent::SessionInfoChanged { .. } => true,
        AgentSessionEvent::ThinkingLevelChanged { .. } => true,
        AgentSessionEvent::AutoRetryStart { .. } => true,
        AgentSessionEvent::AutoRetryEnd { .. } => true,
        AgentSessionEvent::SummarizationRetryScheduled { .. } => true,
        AgentSessionEvent::SummarizationRetryAttemptStart { .. } => true,
        AgentSessionEvent::SummarizationRetryFinished => true,
        AgentSessionEvent::BashExecutionUpdate { .. } => true,
        _ => false,
    }
}

fn one_of(name: &str, a: &str, b: &str, c: &str, d: &str) -> (r: bool)
    ensures
        r == (name@ == a@ || name@ == b@ || name@ == c@ || name@ == d@),
{
    text::same_text(name, a) || text::same_text(name, b) || text::same_text(name, c)
        || text::same_text(name, d)
}

/// Reads an event of the session's own with this name.
fn read_named_event(name: &str, members: &Vec<(String, Json)>) -> (r: Option<AgentSessionEvent>)
    ensures
        reads(r, name@, read_payload(name@, shapes(members@))),
{
    proof {
        lemma_names();
    }
    if one_of(
        name,
        "session_before_switch",
        "session_before_fork",
        "session_start",
        "session_shutdown",
    ) {
        read_life_event(name, members)
    } else if text::same_text(name, "agent_start") {
        Some(AgentSessionEvent::AgentStart)
    } else if text::same_text(name, "turn_start") {
        Some(AgentSessionEvent::TurnStart)
    } else if text::same_text(name, "agent_settled") {
        Some(AgentSessionEvent::AgentSettled)
    } else if text::same_text(name, "summarization_retry_finished") {
        Some(AgentSessionEvent::SummarizationRetryFinished)
    } else if one_of(
        name,
        "queue_update",
        "compaction_start",
        "session_info_changed",
        "thinking_level_changed",
    ) || text::same_text(name, "bash_execution_update") {
        read_state_event(name, members)
    } else if one_of(
        name,
        "auto_retry_start",
        "summarization_retry_scheduled",
        "auto_retry_end",
        "summarization_retry_attempt_start",
    ) {
        read_retry_event(name, members)
    } else {
        None
    }
}

/// Reads an event of the session's own, which takes nothing from the caller; none for any other
/// value.
pub fn read_own_event(value: &Json) -> (r: Option<AgentSessionEvent>)
    ensures
        match *value {
            Json::Object(members) => match read_fields(shapes(members@)) {
                Some(fields) => r matches Some(event) && forall|parts: WireParts| #[trigger]
                    wire_fields(event, parts) == fields,
                None => r is None,
            },
            _ => r is None,
        },
{
    match value {
        Json::Object(members) => match read_text(members, "type") {
            Some(name) => read_named_event(name.as_str(), members),
            None => None,
        },
        _ => None,
    }
}

proof fn lemma_key_shift(
    first: (Seq<char>, Shape),
    rest: Seq<(Seq<char>, Shape)>,
    key: Seq<char>,
    from: int,
)
    requires
        0 <= from <= rest.len(),
    ensures
        key_from(seq![first] + rest, key, from + 1) == 1 + key_from(rest, key, from),
        from <= key_from(rest, key, from) <= rest.len(),
    decreases rest.len() - from,
{
    let all = seq![first] + rest;
    if from < rest.len() {
        assert(all[from + 1] == rest[from]);
        if rest[from].0 != key {
            lemma_key_shift(first, rest, key, from + 1);
        }
    }
}

/// A member is found first where it stands first, and else behind.
proof fn lemma_found(
    first: (Seq<char>, Shape),
    rest: Seq<(Seq<char>, Shape)>,
    key: Seq<char>,
)
    ensures
        found(seq![first] + rest, key) == if first.0 == key {
            Some(first.1)
        } else {
            found(rest, key)
        },
{
    let all = seq![first] + rest;
    assert(all[0] == first);
    if first.0 != key {
        lemma_key_shift(first, rest, key, 0);
        let i = key_from(rest, key, 0);
        if i < rest.len() {
            assert(all[1 + i] == rest[i]);
        }
    }
}

/// What is found in one member, and in none.
proof fn lemma_found_single(first: (Seq<char>, Shape), key: Seq<char>)
    ensures
        found(seq![first], key) == if first.0 == key {
            Some(first.1)
        } else {
            None
        },
        found(seq![], key) is None,
{
    assert(seq![first] + seq![] =~= seq![first]);
    lemma_found(first, seq![], key);
}

/// What is found behind the name of an event.
proof fn lemma_found_payload(name: Seq<char>, payload: Seq<(Seq<char>, Shape)>, key: Seq<char>)
    ensures
        found(text_field("type"@, name) + payload, key) == if key == "type"@ {
            Some(Shape::Text(name))
        } else {
            found(payload, key)
        },
{
    lemma_found(("type"@, Shape::Text(name)), payload, key);
}

/// What is found in a text and an optional text behind it.
proof fn lemma_found_pair(
    key: Seq<char>,
    value: Seq<char>,
    optional: Seq<char>,
    content: Option<Seq<char>>,
)
    requires
        key != optional,
    ensures
        found(text_field(key, value) + optional_text(optional, content), key) == Some(
            Shape::Text(value),
        ),
        optional_at(text_field(key, value) + optional_text(optional, content), optional) == Some(
            content,
        ),
{
    lemma_found((key, Shape::Text(value)), optional_text(optional, content), key);
    lemma_found((key, Shape::Text(value)), optional_text(optional, content), optional);
    if let Some(t) = content {
        lemma_found_single((optional, Shape::Text(t)), optional);
    } else {
        lemma_found_single((optional, Shape::Null), optional);
    }
}

/// What tells the keys of each of the session's own events apart.
pub(crate) proof fn lemma_keys()
    ensures
        "type"@.len() == 4,
        "reason"@.len() == 6,
        "targetSessionFile"@.len() == 17,
        "previousSessionFile"@.len() == 19,
        "entryId"@.len() == 7,
        "position"@.len() == 8,
        "steering"@.len() == 8,
        "followUp"@.len() == 8,
        "name"@.len() == 4,
        "level"@.len() == 5,
        "attempt"@.len() == 7,
        "maxAttempts"@.len() == 11,
        "delayMs"@.len() == 7,
        "errorMessage"@.len() == 12,
        "success"@.len() == 7,
        "finalError"@.len() == 10,
        "source"@.len() == 6,
        "id"@.len() == 2,
        "delta"@.len() == 5,
        "steering"@ != "followUp"@,
        "attempt"@ != "delayMs"@,
        "attempt"@ != "success"@,
        "source"@ != "reason"@,
        "name"@ != "type"@,
{
    reveal_strlit("type");
    reveal_strlit("reason");
    reveal_strlit("targetSessionFile");
    reveal_strlit("previousSessionFile");
    reveal_strlit("entryId");
    reveal_strlit("position");
    reveal_strlit("steering");
    reveal_strlit("followUp");
    reveal_strlit("name");
    reveal_strlit("level");
    reveal_strlit("attempt");
    reveal_strlit("maxAttempts");
    reveal_strlit("delayMs");
    reveal_strlit("errorMessage");
    reveal_strlit("success");
    reveal_strlit("finalError");
    reveal_strlit("source");
    reveal_strlit("id");
    reveal_strlit("delta");
    assert("steering"@[0] == 's' && "followUp"@[0] == 'f');
    assert("attempt"@[0] == 'a' && "delayMs"@[0] == 'd' && "success"@[0] == 's');
    assert("source"@[0] == 's' && "reason"@[0] == 'r');
    assert("name"@[0] == 'n' && "type"@[0] == 't');
}

/// The names of reasons and positions are all different, so each is read back.
pub(crate) proof fn lemma_reasons()
    ensures
        forall|r: SessionBeforeSwitchReason| #[trigger]
            switch_reason_named(Some(switch_reason_name(r))) == Some(r),
        forall|p: SessionBeforeForkPosition| #[trigger]
            fork_position_named(Some(fork_position_name(p))) == Some(p),
        forall|r: SessionStartReason| start_reason_named(Some(#[trigger] r.name())) == Some(r),
        forall|r: SessionShutdownReason| shutdown_reason_named(Some(#[trigger] r.name())) == Some(
            r,
        ),
        forall|r: CompactionReason| compaction_reason_named(Some(#[trigger] r.name())) == Some(r),
{
    reveal_strlit("new");
    reveal_strlit("resume");
    reveal_strlit("before");
    reveal_strlit("at");
    reveal_strlit("startup");
    reveal_strlit("reload");
    reveal_strlit("fork");
    reveal_strlit("quit");
    reveal_strlit("manual");
    reveal_strlit("threshold");
    reveal_strlit("overflow");
    assert("new"@.len() == 3 && "resume"@.len() == 6 && "before"@.len() == 6 && "at"@.len() == 2);
    assert("startup"@.len() == 7 && "reload"@.len() == 6 && "fork"@.len() == 4 && "quit"@.len()
        == 4);
    assert("manual"@.len() == 6 && "threshold"@.len() == 9 && "overflow"@.len() == 8);
    assert("resume"@[2] == 's' && "reload"@[2] == 'l');
    assert("fork"@[0] == 'f' && "quit"@[0] == 'q');
}

proof fn lemma_life_reads_back(event: AgentSessionEvent, parts: WireParts)
    requires
        event is SessionBeforeSwitch || event is SessionBeforeFork || event is SessionStart
            || event is SessionShutdown,
    ensures
        read_fields(wire_fields(event, parts)) == Some(wire_fields(event, parts)),
{
    lemma_names();
    lemma_keys();
    lemma_reasons();
    let name = events::event_name(event);
    let payload = payload_fields(event, parts);
    lemma_found_payload(name, payload, "type"@);
    lemma_found_payload(name, payload, "reason"@);
    lemma_found_payload(name, payload, "targetSessionFile"@);
    lemma_found_payload(name, payload, "previousSessionFile"@);
    lemma_found_payload(name, payload, "entryId"@);
    lemma_found_payload(name, payload, "position"@);
    match event {
        AgentSessionEvent::SessionBeforeSwitch { reason, target_session_file } => {
            lemma_found_pair(
                "reason"@,
                switch_reason_name(reason),
                "targetSessionFile"@,
                session::text_view(target_session_file),
            );
        },
        AgentSessionEvent::SessionBeforeFork { entry_id, position } => {
            let second = text_field("position"@, fork_position_name(position));
            lemma_found(("entryId"@, Shape::Text(entry_id@)), second, "entryId"@);
            lemma_found(("entryId"@, Shape::Text(entry_id@)), second, "position"@);
            lemma_found_single(second[0], "position"@);
        },
        AgentSessionEvent::SessionStart { reason, previous_session_file } => {
            lemma_found_pair(
                "reason"@,
                reason.name(),
                "previousSessionFile"@,
                session::text_view(previous_session_file),
            );
        },
        AgentSessionEvent::SessionShutdown { reason, target_session_file } => {
            lemma_found_pair(
                "reason"@,
                reason.name(),
                "targetSessionFile"@,
                session::text_view(target_session_file),
            );
        },
        _ => {},
    }
}

/// What is found in the members of a retry that is waited for.
proof fn lemma_wait_reads_back(attempt: u32, max_attempts: u32, delay_ms: u64, error: Seq<char>)
    ensures
        read_wait(
            wait_fields(attempt as int, max_attempts as int, delay_ms as int, error),
        ) == Some(wait_fields(attempt as int, max_attempts as int, delay_ms as int, error)),
        wait_reads_alike(
            wait_fields(attempt as int, max_attempts as int, delay_ms as int, error),
        ),
{
    lemma_keys();
    let f = wait_fields(attempt as int, max_attempts as int, delay_ms as int, error);
    let a = ("attempt"@, Shape::Number(attempt as int));
    let b = ("maxAttempts"@, Shape::Number(max_attempts as int));
    let c = ("delayMs"@, Shape::Number(delay_ms as int));
    let d = ("errorMessage"@, Shape::Text(error));
    let three = seq![b] + (seq![c] + seq![d]);
    let two = seq![c] + seq![d];
    assert(f =~= seq![a] + three);
    lemma_found(a, three, "attempt"@);
    lemma_found(a, three, "maxAttempts"@);
    lemma_found(a, three, "delayMs"@);
    lemma_found(a, three, "errorMessage"@);
    lemma_found(b, two, "maxAttempts"@);
    lemma_found(b, two, "delayMs"@);
    lemma_found(b, two, "errorMessage"@);
    lemma_found(c, seq![d], "delayMs"@);
    lemma_found(c, seq![d], "errorMessage"@);
    lemma_found_single(d, "errorMessage"@);
    assert forall|name: Seq<char>| #[trigger] read_wait(text_field("type"@, name) + f) == read_wait(
        f,
    ) by {
        lemma_found_payload(name, f, "attempt"@);
        lemma_found_payload(name, f, "maxAttempts"@);
        lemma_found_payload(name, f, "delayMs"@);
        lemma_found_payload(name, f, "errorMessage"@);
    }
}

/// The name of an event before its members changes nothing of what they are read as.
spec fn wait_reads_alike(f: Seq<(Seq<char>, Shape)>) -> bool {
    forall|name: Seq<char>| #[trigger] read_wait(text_field("type"@, name) + f) == read_wait(f)
}

proof fn lemma_retry_reads_back(event: AgentSessionEvent, parts: WireParts)
    requires
        event is AutoRetryStart || event is SummarizationRetryScheduled || event is AutoRetryEnd
            || event is SummarizationRetryAttemptStart,
    ensures
        read_fields(wire_fields(event, parts)) == Some(wire_fields(event, parts)),
{
    lemma_names();
    lemma_keys();
    lemma_reasons();
    let name = events::event_name(event);
    let payload = payload_fields(event, parts);
    lemma_found_payload(name, payload, "type"@);
    match event {
        AgentSessionEvent::AutoRetryStart { attempt, max_attempts, delay_ms, error_message } => {
            lemma_wait_reads_back(attempt, max_attempts, delay_ms, error_message@);
            assert(read_wait(text_field("type"@, name) + payload) == read_wait(payload));
        },
        AgentSessionEvent::SummarizationRetryScheduled {
            attempt,
            max_attempts,
            delay_ms,
            error_message,
        } => {
            lemma_wait_reads_back(attempt, max_attempts, delay_ms, error_message@);
            assert(read_wait(text_field("type"@, name) + payload) == read_wait(payload));
        },
        AgentSessionEvent::AutoRetryEnd { success, attempt, final_error } => {
            lemma_found_payload(name, payload, "success"@);
            lemma_found_payload(name, payload, "attempt"@);
            lemma_found_payload(name, payload, "finalError"@);
            let a = ("success"@, Shape::Bool(success));
            let b = ("attempt"@, Shape::Number(attempt as int));
            let c = optional_field("finalError"@, final_error);
            assert(payload =~= seq![a] + (seq![b] + c));
            lemma_found(a, seq![b] + c, "success"@);
            lemma_found(a, seq![b] + c, "attempt"@);
            lemma_found(a, seq![b] + c, "finalError"@);
            lemma_found(b, c, "attempt"@);
            lemma_found(b, c, "finalError"@);
            if let Some(t) = final_error {
                lemma_found_single(("finalError"@, Shape::Text(t@)), "finalError"@);
            } else {
                lemma_found_single(a, "finalError"@);
            }
        },
        AgentSessionEvent::SummarizationRetryAttemptStart { source } => {
            reveal_strlit("branchSummary");
            reveal_strlit("compaction");
            assert("branchSummary"@.len() == 13 && "compaction"@.len() == 10);
            lemma_found_payload(name, payload, "source"@);
            lemma_found_payload(name, payload, "reason"@);
            match source {
                SummarizationRetrySource::BranchSummary => {
                    lemma_found_single(("source"@, Shape::Text("branchSummary"@)), "source"@);
                },
                SummarizationRetrySource::Compaction { reason } => {
                    let a = ("source"@, Shape::Text("compaction"@));
                    let b = ("reason"@, Shape::Text(reason.name()));
                    lemma_found(a, seq![b], "source"@);
                    lemma_found(a, seq![b], "reason"@);
                    lemma_found_single(b, "reason"@);
                },
            }
        },
        _ => {},
    }
}

proof fn lemma_state_reads_back(event: AgentSessionEvent, parts: WireParts)
    requires
        event is QueueUpdate || event is CompactionStart || event is SessionInfoChanged
            || event is ThinkingLevelChanged || event is BashExecutionUpdate,
    ensures
        read_fields(wire_fields(event, parts)) == Some(wire_fields(event, parts)),
{
    lemma_names();
    lemma_keys();
    lemma_reasons();
    let name = events::event_name(event);
    let payload = payload_fields(event, parts);
    lemma_found_payload(name, payload, "type"@);
    match event {
        AgentSessionEvent::QueueUpdate { steering, follow_up } => {
            lemma_found_payload(name, payload, "steering"@);
            lemma_found_payload(name, payload, "followUp"@);
            let a = ("steering"@, Shape::Texts(string_views(steering@)));
            let b = ("followUp"@, Shape::Texts(string_views(follow_up@)));
            assert(payload =~= seq![a] + seq![b]);
            lemma_found(a, seq![b], "steering"@);
            lemma_found(a, seq![b], "followUp"@);
            lemma_found_single(b, "followUp"@);
        },
        AgentSessionEvent::CompactionStart { reason } => {
            lemma_found_payload(name, payload, "reason"@);
            lemma_found_single(("reason"@, Shape::Text(reason.name())), "reason"@);
        },
        AgentSessionEvent::SessionInfoChanged { name: value } => {
            lemma_found_payload(name, payload, "name"@);
            if let Some(t) = value {
                lemma_found_single(("name"@, Shape::Text(t@)), "name"@);
            } else {
                lemma_found_single(("name"@, Shape::Null), "name"@);
            }
        },
        AgentSessionEvent::ThinkingLevelChanged { level } => {
            lemma_found_payload(name, payload, "level"@);
            lemma_found_single(("level"@, Shape::Text(model::level_name(level))), "level"@);
            model::law_level_names_read_back(level, model::level_name(level));
        },
        AgentSessionEvent::BashExecutionUpdate { id, delta } => {
            lemma_found_payload(name, payload, "id"@);
            lemma_found_payload(name, payload, "delta"@);
            let b = ("delta"@, Shape::Text(delta@));
            lemma_found_single(b, "delta"@);
            lemma_found_single(b, "id"@);
            if let Some(t) = id {
                let a = ("id"@, Shape::Text(t@));
                assert(payload =~= seq![a] + seq![b]);
                lemma_found(a, seq![b], "id"@);
                lemma_found(a, seq![b], "delta"@);
            } else {
                assert(payload =~= seq![b]);
            }
        },
        _ => {},
    }
}

/// What is written of one of the session's own events is read back as that event: an event that is
/// written the same.
pub proof fn law_own_events_read_back(event: AgentSessionEvent, parts: WireParts)
    requires
        is_own_event(event),
    ensures
        read_fields(wire_fields(event, parts)) == Some(wire_fields(event, parts)),
{
    match event {
        AgentSessionEvent::SessionBeforeSwitch { .. }
        | AgentSessionEvent::SessionBeforeFork { .. }
        | AgentSessionEvent::SessionStart { .. }
        | AgentSessionEvent::SessionShutdown { .. } => lemma_life_reads_back(event, parts),
        AgentSessionEvent::AutoRetryStart { .. }
        | AgentSessionEvent::SummarizationRetryScheduled { .. }
        | AgentSessionEvent::AutoRetryEnd { .. }
        | AgentSessionEvent::SummarizationRetryAttemptStart { .. } => lemma_retry_reads_back(
            event,
            parts,
        ),
        AgentSessionEvent::QueueUpdate { .. }
        | AgentSessionEvent::CompactionStart { .. }
        | AgentSessionEvent::SessionInfoChanged { .. }
        | AgentSessionEvent::ThinkingLevelChanged { .. }
        | AgentSessionEvent::BashExecutionUpdate { .. } => lemma_state_reads_back(event, parts),
        _ => {
            lemma_names();
            lemma_found_payload(events::event_name(event), payload_fields(event, parts), "type"@);
        },
    }
}

// ---------------------------------------------------------------------------
// What the operations promise
// ---------------------------------------------------------------------------

/// A member with this key and this text.
pub open spec fn is_text(member: (String, Json), key: Seq<char>, value: Seq<char>) -> bool {
    member.0@ == key && (member.1 matches Json::Text(t) && t@ == value)
}

/// A member with this key and this number.
pub open spec fn is_number(member: (String, Json), key: Seq<char>, value: int) -> bool {
    member.0@ == key && (member.1 matches Json::Integer(n) && n == value)
}

/// A member with this key and this flag.
pub open spec fn is_flag(member: (String, Json), key: Seq<char>, value: bool) -> bool {
    member.0@ == key && member.1 == Json::Bool(value)
}

/// A member with this key and a value that is the same as `value`.
pub open spec fn is_part(member: (String, Json), key: Seq<char>, value: Json) -> bool {
    member.0@ == key && shape(member.1) == shape(value)
}

/// The members of an object.
pub open spec fn members_of(value: Json) -> Seq<(String, Json)> {
    match value {
        Json::Object(members) => members@,
        _ => seq![],
    }
}

proof fn lemma_written(event: &AgentSessionEvent, parts: &WireParts, r: Json, i: int)
    requires
        call_ensures(write_event, (event, parts), r),
        0 <= i < members_of(r).len() || 0 <= i < wire_fields(*event, *parts).len(),
    ensures
        members_of(r).len() == wire_fields(*event, *parts).len(),
        members_of(r)[i].0@ == wire_fields(*event, *parts)[i].0,
        shape(members_of(r)[i].1) == wire_fields(*event, *parts)[i].1,
{
    let m = members_of(r);
    assert(shapes(m).len() == m.len());
    assert(shapes(m)[i] == (m[i].0@, shape(m[i].1)));
}

/// Every event is an object that begins with its name.
pub proof fn law_events_begin_with_their_name(
    event: &AgentSessionEvent,
    parts: &WireParts,
    name: &'static str,
    r: Json,
)
    requires
        call_ensures(write_event, (event, parts), r),
        call_ensures(AgentSessionEvent::wire_name, (event,), name),
    ensures
        r is Object,
        members_of(r).len() > 0,
        is_text(members_of(r)[0], "type"@, name@),
{
    lemma_written(event, parts, r, 0);
}

/// An event of the life of a session is written with its reason and the file or entry that it is
/// about, which is left out where there is none.
pub proof fn law_life_events_are_written(event: &AgentSessionEvent, parts: &WireParts, r: Json)
    requires
        call_ensures(write_event, (event, parts), r),
    ensures
        ({
            let m = members_of(r);
            &&& *event matches AgentSessionEvent::SessionBeforeSwitch { reason, target_session_file }
                ==> is_text(
                    m[1],
                    "reason"@,
                    (if reason == SessionBeforeSwitchReason::New {
                        "new"@
                    } else {
                        "resume"@
                    }),
                )
                && ((target_session_file is None ==> m.len() == 2) && (target_session_file is Some
                ==> m.len() == 3 && is_text(m[2], "targetSessionFile"@, target_session_file->0@)))
            &&& *event matches AgentSessionEvent::SessionBeforeFork { entry_id, position }
                ==> m.len() == 3 && is_text(m[1], "entryId"@, entry_id@)
                && is_text(
                    m[2],
                    "position"@,
                    (if position == SessionBeforeForkPosition::Before {
                        "before"@
                    } else {
                        "at"@
                    }),
                )
            &&& *event matches AgentSessionEvent::SessionStart { reason, previous_session_file }
                ==> is_text(m[1], "reason"@, reason.name()) && ((previous_session_file is None
                ==> m.len() == 2) && (previous_session_file is Some ==> m.len() == 3
                && is_text(m[2], "previousSessionFile"@, previous_session_file->0@)))
            &&& *event matches AgentSessionEvent::SessionShutdown { reason, target_session_file }
                ==> is_text(m[1], "reason"@, reason.name()) && ((target_session_file is None
                ==> m.len() == 2) && (target_session_file is Some ==> m.len() == 3
                && is_text(m[2], "targetSessionFile"@, target_session_file->0@)))
            &&& *event is AgentStart || *event is TurnStart || *event is AgentSettled
                || *event is SummarizationRetryFinished ==> m.len() == 1
        }),
{
    let f = wire_fields(*event, *parts);
    lemma_written(event, parts, r, 0);
    if f.len() > 1 {
        lemma_written(event, parts, r, 1);
    }
    if f.len() > 2 {
        lemma_written(event, parts, r, 2);
    }
    if f.len() > 3 {
        lemma_written(event, parts, r, 3);
    }
    if f.len() > 4 {
        lemma_written(event, parts, r, 4);
    }
    if f.len() > 5 {
        lemma_written(event, parts, r, 5);
    }
}

/// An event of a run is written with what the caller wrote of its messages, each under its key, and
/// with the call, the tool and its arguments.
pub proof fn law_run_events_are_written(event: &AgentSessionEvent, parts: &WireParts, r: Json)
    requires
        call_ensures(write_event, (event, parts), r),
    ensures
        ({
            let m = members_of(r);
            &&& *event matches AgentSessionEvent::AgentEnd { will_retry, .. } ==> m.len() == 3
                && is_part(m[1], "messages"@, parts.main)
                && is_flag(m[2], "willRetry"@, will_retry)
            &&& *event is TurnEnd ==> m.len() == 3 && is_part(m[1], "message"@, parts.main)
                && is_part(m[2], "toolResults"@, parts.other)
            &&& *event is MessageStart || *event is MessageEnd ==> m.len() == 2
                && is_part(m[1], "message"@, parts.main)
            &&& *event matches AgentSessionEvent::MessageUpdate { assistant_message_event, .. }
                ==> m.len() == 3 && is_part(m[1], "message"@, parts.main)
                && is_part(m[2], "assistantMessageEvent"@, assistant_message_event)
            &&& *event matches AgentSessionEvent::ToolExecutionStart { tool_call_id, tool_name, args }
                ==> m.len() == 4 && is_text(m[1], "toolCallId"@, tool_call_id@)
                && is_text(m[2], "toolName"@, tool_name@)
                && is_part(m[3], "args"@, Json::Object(args))
            &&& *event matches AgentSessionEvent::ToolExecutionUpdate { tool_call_id, tool_name, args, .. }
                ==> m.len() == 5 && is_text(m[1], "toolCallId"@, tool_call_id@)
                && is_text(m[2], "toolName"@, tool_name@)
                && is_part(m[3], "args"@, Json::Object(args))
                && is_part(m[4], "partialResult"@, parts.main)
            &&& *event matches AgentSessionEvent::ToolExecutionEnd { tool_call_id, tool_name, is_error, .. }
                ==> m.len() == 5 && is_text(m[1], "toolCallId"@, tool_call_id@)
                && is_text(m[2], "toolName"@, tool_name@) && is_part(m[3], "result"@, parts.main)
                && is_flag(m[4], "isError"@, is_error)
        }),
{
    let f = wire_fields(*event, *parts);
    lemma_written(event, parts, r, 0);
    if f.len() > 1 {
        lemma_written(event, parts, r, 1);
    }
    if f.len() > 2 {
        lemma_written(event, parts, r, 2);
    }
    if f.len() > 3 {
        lemma_written(event, parts, r, 3);
    }
    if f.len() > 4 {
        lemma_written(event, parts, r, 4);
    }
    if f.len() > 5 {
        lemma_written(event, parts, r, 5);
    }
}

/// An event of the state of a session is written with what has changed.
pub proof fn law_state_events_are_written(event: &AgentSessionEvent, parts: &WireParts, r: Json)
    requires
        call_ensures(write_event, (event, parts), r),
    ensures
        ({
            let m = members_of(r);
            &&& *event matches AgentSessionEvent::QueueUpdate { steering, follow_up }
                ==> m.len() == 3 && m[1].0@ == "steering"@
                && shape(m[1].1) == Shape::Texts(string_views(steering@))
                && m[2].0@ == "followUp"@
                && shape(m[2].1) == Shape::Texts(string_views(follow_up@))
            &&& *event matches AgentSessionEvent::CompactionStart { reason } ==> m.len() == 2
                && is_text(m[1], "reason"@, reason.name())
            &&& *event is EntryAppended ==> m.len() == 2 && is_part(m[1], "entry"@, parts.main)
            &&& *event matches AgentSessionEvent::SessionInfoChanged { name } ==> ((name is None
                ==> m.len() == 1) && (name is Some ==> m.len() == 2
                && is_text(m[1], "name"@, name->0@)))
            &&& *event matches AgentSessionEvent::ThinkingLevelChanged { level } ==> m.len() == 2
                && is_text(m[1], "level"@, model::level_name(level))
            &&& *event matches AgentSessionEvent::BashExecutionUpdate { id, delta }
                ==> (id is None ==> m.len() == 2 && is_text(m[1], "delta"@, delta@))
                && (id is Some ==> m.len() == 3 && is_text(m[1], "id"@, id->0@)
                && is_text(m[2], "delta"@, delta@))
        }),
{
    let f = wire_fields(*event, *parts);
    lemma_written(event, parts, r, 0);
    if f.len() > 1 {
        lemma_written(event, parts, r, 1);
    }
    if f.len() > 2 {
        lemma_written(event, parts, r, 2);
    }
    if f.len() > 3 {
        lemma_written(event, parts, r, 3);
    }
    if f.len() > 4 {
        lemma_written(event, parts, r, 4);
    }
    if f.len() > 5 {
        lemma_written(event, parts, r, 5);
    }
}

/// An event of a retry is written with the attempt, the limit, the wait and the failure.
pub proof fn law_retry_events_are_written(event: &AgentSessionEvent, parts: &WireParts, r: Json)
    requires
        call_ensures(write_event, (event, parts), r),
    ensures
        ({
            let m = members_of(r);
            &&& *event matches AgentSessionEvent::AutoRetryStart { attempt, max_attempts, delay_ms, error_message }
                ==> m.len() == 5 && is_number(m[1], "attempt"@, attempt as int)
                && is_number(m[2], "maxAttempts"@, max_attempts as int)
                && is_number(m[3], "delayMs"@, delay_ms as int)
                && is_text(m[4], "errorMessage"@, error_message@)
            &&& *event matches AgentSessionEvent::SummarizationRetryScheduled { attempt, max_attempts, delay_ms, error_message }
                ==> m.len() == 5 && is_number(m[1], "attempt"@, attempt as int)
                && is_number(m[2], "maxAttempts"@, max_attempts as int)
                && is_number(m[3], "delayMs"@, delay_ms as int)
                && is_text(m[4], "errorMessage"@, error_message@)
            &&& *event matches AgentSessionEvent::AutoRetryEnd { success, attempt, final_error }
                ==> is_flag(m[1], "success"@, success)
                && is_number(m[2], "attempt"@, attempt as int) && ((final_error is None
                ==> m.len() == 3) && (final_error is Some ==> m.len() == 4
                && is_text(m[3], "finalError"@, final_error->0@)))
            &&& *event matches AgentSessionEvent::SummarizationRetryAttemptStart { source: SummarizationRetrySource::BranchSummary }
                ==> m.len() == 2 && is_text(m[1], "source"@, "branchSummary"@)
            &&& *event matches AgentSessionEvent::SummarizationRetryAttemptStart { source: SummarizationRetrySource::Compaction { reason } }
                ==> m.len() == 3 && is_text(m[1], "source"@, "compaction"@)
                && is_text(m[2], "reason"@, reason.name())
        }),
{
    let f = wire_fields(*event, *parts);
    lemma_written(event, parts, r, 0);
    if f.len() > 1 {
        lemma_written(event, parts, r, 1);
    }
    if f.len() > 2 {
        lemma_written(event, parts, r, 2);
    }
    if f.len() > 3 {
        lemma_written(event, parts, r, 3);
    }
    if f.len() > 4 {
        lemma_written(event, parts, r, 4);
    }
    if f.len() > 5 {
        lemma_written(event, parts, r, 5);
    }
}

/// The choice of a model is written with what chose it, the end of a compaction with its reason and
/// how it went; what is not there is left out.
pub proof fn law_choices_and_results_are_written(event: &AgentSessionEvent, parts: &WireParts, r: Json)
    requires
        call_ensures(write_event, (event, parts), r),
    ensures
        ({
            let m = members_of(r);
            &&& *event matches AgentSessionEvent::ModelSelect { previous_model, source, .. }
                ==> is_part(m[1], "model"@, parts.main) && (previous_model is Some
                ==> is_part(m[2], "previousModel"@, parts.other))
                && m.len() == (if previous_model is Some { 4int } else { 3 })
                && is_text(
                    m[m.len() - 1],
                    "source"@,
                    (match source {
                        ModelSelectSource::Chosen => "set"@,
                        ModelSelectSource::Cycle => "cycle"@,
                        ModelSelectSource::Restore => "restore"@,
                    }),
                )
            &&& *event matches AgentSessionEvent::CompactionEnd { reason, result, aborted, will_retry, error_message }
                ==> ({ let k = if result is Some { 3int } else { 2 }; is_text(m[1], "reason"@, reason.name())
                && (result is Some ==> is_part(m[2], "result"@, parts.main))
                && is_flag(m[k], "aborted"@, aborted)
                && is_flag(m[k + 1], "willRetry"@, will_retry)
                && m.len() == (if error_message is Some { k + 3 } else { k + 2 })
                && (error_message is Some
                ==> is_text(m[k + 2], "errorMessage"@, error_message->0@)) })
        }),
{
    let f = wire_fields(*event, *parts);
    lemma_written(event, parts, r, 0);
    if f.len() > 1 {
        lemma_written(event, parts, r, 1);
    }
    if f.len() > 2 {
        lemma_written(event, parts, r, 2);
    }
    if f.len() > 3 {
        lemma_written(event, parts, r, 3);
    }
    if f.len() > 4 {
        lemma_written(event, parts, r, 4);
    }
    if f.len() > 5 {
        lemma_written(event, parts, r, 5);
    }
}

/// What is written of one of the session's own events is read, and written again it is the same: the
/// same members, in the same order.
pub proof fn law_own_events_come_back(
    event: &AgentSessionEvent,
    parts: &WireParts,
    written: Json,
    read: Option<AgentSessionEvent>,
    back: &AgentSessionEvent,
    again: Json,
    i: int,
)
    requires
        is_own_event(*event),
        call_ensures(write_event, (event, parts), written),
        call_ensures(read_own_event, (&written,), read),
        read == Some(*back),
        call_ensures(write_event, (back, parts), again),
    ensures
        members_of(again).len() == members_of(written).len(),
        0 <= i < members_of(written).len() ==> members_of(again)[i].0@ == members_of(written)[i].0@
            && shape(members_of(again)[i].1) == shape(members_of(written)[i].1),
{
    law_own_events_read_back(*event, *parts);
    lemma_written(event, parts, written, 0);
    assert(wire_fields(*back, *parts) == wire_fields(*event, *parts));
    lemma_written(back, parts, again, 0);
    if 0 <= i < members_of(written).len() {
        lemma_written(event, parts, written, i);
        lemma_written(back, parts, again, i);
    }
}

/// What is written of one of the session's own events is always read.
pub proof fn law_own_events_are_always_read(
    event: &AgentSessionEvent,
    parts: &WireParts,
    written: Json,
    read: Option<AgentSessionEvent>,
)
    requires
        is_own_event(*event),
        call_ensures(write_event, (event, parts), written),
        call_ensures(read_own_event, (&written,), read),
    ensures
        read is Some,
{
    law_own_events_read_back(*event, *parts);
}

} // verus!
