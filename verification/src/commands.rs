//! Commands of extensions to a session, which are not answered.
//!
//! A command that fails is told the error listener and changes nothing else.

use crate::bash;
use crate::bridge;
use crate::bridge_types::SessionCommand;
use crate::events::AgentSessionEvent;
use crate::json;
use crate::json::Json;
use crate::messages::{ImageContent, SessionEntry};
use crate::model;
use crate::pattern;
use crate::prompt::{CustomMessageContent, CustomMessageInput, DeliverAs};
use crate::session;
use crate::session::{AgentSession, Effect, SessionModel};
use crate::text;
use vstd::prelude::*;

verus! {

/// When a message is delivered, by its wire name.
pub open spec fn deliver_as_of(name: Seq<char>) -> Option<DeliverAs> {
    if name == "steer"@ {
        Some(DeliverAs::Steer)
    } else if name == "followUp"@ {
        Some(DeliverAs::FollowUp)
    } else if name == "nextTurn"@ {
        Some(DeliverAs::NextTurn)
    } else {
        None
    }
}

/// Reads when a message is delivered.
pub fn parse_deliver_as(raw: &str) -> (r: Option<DeliverAs>)
    ensures
        r == deliver_as_of(raw@),
{
    if text::same_text(raw, "steer") {
        Some(DeliverAs::Steer)
    } else if text::same_text(raw, "followUp") {
        Some(DeliverAs::FollowUp)
    } else if text::same_text(raw, "nextTurn") {
        Some(DeliverAs::NextTurn)
    } else {
        None
    }
}

/// The member of optional options.
pub open spec fn option_member(options: Option<Json>, key: Seq<char>) -> Option<Json> {
    match options {
        Some(o) => json::field(o, key),
        None => None,
    }
}

/// When options say that a message is delivered.
pub open spec fn delivery_in(options: Option<Json>) -> Option<DeliverAs> {
    match option_member(options, "deliverAs"@) {
        Some(Json::Text(name)) => deliver_as_of(name@),
        _ => None,
    }
}

fn delivery_of(options: &Option<Json>) -> (r: Option<DeliverAs>)
    ensures
        r == delivery_in(*options),
{
    match options {
        None => None,
        Some(options) => match options.get("deliverAs") {
            Some(Json::Text(name)) => parse_deliver_as(name.as_str()),
            _ => None,
        },
    }
}

fn triggers_turn(options: &Option<Json>) -> (r: bool)
    ensures
        r == bash::json_flag(option_member(*options, "triggerTurn"@)),
{
    match options {
        None => false,
        Some(options) => match options.get("triggerTurn") {
            Some(Json::Bool(b)) => *b,
            _ => false,
        },
    }
}

/// Why a message of an extension could not be read.
#[derive(Debug, PartialEq)]
pub enum MessageInputError {
    /// It does not say what kind of message it is.
    TypeRequired,
    /// Its content is none.
    InvalidContent(String),
}

impl MessageInputError {
    /// The text of the failure.
    pub open spec fn text(self) -> Seq<char> {
        match self {
            MessageInputError::TypeRequired => "customType is required"@,
            MessageInputError::InvalidContent(e) => "invalid content: "@ + e@,
        }
    }

    /// The text of the failure.
    pub fn message(&self) -> (r: String)
        ensures
            r@ == self.text(),
    {
        match self {
            MessageInputError::TypeRequired => "customType is required".to_owned(),
            MessageInputError::InvalidContent(e) => text::concat2("invalid content: ", e.as_str()),
        }
    }
}

/// The details of a message: none where they are not there or null.
pub open spec fn details_of(message: Json) -> Option<Json> {
    match json::field(message, "details"@) {
        Some(Json::Null) => None,
        other => other,
    }
}

/// `r` is what the message of an extension is read as. `content` is its content as it was read, or
/// why it could not be; none where it has no content, which is an empty text.
pub open spec fn message_read(
    message: Json,
    content: Option<Result<CustomMessageContent, String>>,
    r: Result<CustomMessageInput, MessageInputError>,
) -> bool {
    match (bash::json_text(json::field(message, "customType"@)), content) {
        (None, _) => r == Err::<CustomMessageInput, MessageInputError>(
            MessageInputError::TypeRequired,
        ),
        (Some(_), Some(Err(e))) => r == Err::<CustomMessageInput, MessageInputError>(
            MessageInputError::InvalidContent(e),
        ),
        (Some(custom_type), content) => {
            &&& r matches Ok(input)
            &&& input.custom_type == custom_type
            &&& match content {
                Some(Ok(c)) => input.content == c,
                _ => input.content matches CustomMessageContent::Text(t) && t@ == ""@,
            }
            &&& input.display == bash::json_flag(json::field(message, "display"@))
            &&& input.details == details_of(message)
        },
    }
}

/// Reads the message of an extension.
pub fn custom_message_input(
    message: &Json,
    content: Option<Result<CustomMessageContent, String>>,
) -> (r: Result<CustomMessageInput, MessageInputError>)
    ensures
        message_read(*message, content, r),
{
    let custom_type = match message.get("customType") {
        Some(Json::Text(t)) => t.clone(),
        _ => return Err(MessageInputError::TypeRequired),
    };
    let content = match content {
        None => CustomMessageContent::Text("".to_owned()),
        Some(Ok(content)) => content,
        Some(Err(error)) => return Err(MessageInputError::InvalidContent(error)),
    };
    let display = match message.get("display") {
        Some(Json::Bool(b)) => *b,
        _ => false,
    };
    let details = match message.get("details") {
        Some(Json::Null) => None,
        Some(value) => Some(value.clone()),
        None => None,
    };
    Ok(CustomMessageInput { custom_type, content, display, details })
}

/// Whether a block is of this kind.
pub open spec fn block_is(block: Json, kind: Seq<char>) -> bool {
    json::field(block, "type"@) matches Some(Json::Text(t)) && t@ == kind
}

/// The texts of the text blocks, in their order.
pub open spec fn block_texts(blocks: Seq<Json>) -> Seq<Seq<char>>
    decreases blocks.len(),
{
    if blocks.len() == 0 {
        seq![]
    } else {
        let before = block_texts(blocks.drop_last());
        let block = blocks.last();
        match json::field(block, "text"@) {
            Some(Json::Text(t)) => if block_is(block, "text"@) {
                before.push(t@)
            } else {
                before
            },
            _ => before,
        }
    }
}

/// The images of the image blocks that could be read, in their order.
pub open spec fn block_images(blocks: Seq<Json>, decoded: Seq<Option<ImageContent>>) -> Seq<
    ImageContent,
>
    decreases blocks.len(),
{
    if blocks.len() == 0 {
        seq![]
    } else {
        let before = block_images(blocks.drop_last(), decoded);
        match decoded[blocks.len() - 1] {
            Some(image) => if block_is(blocks.last(), "image"@) {
                before.push(image)
            } else {
                before
            },
            None => before,
        }
    }
}

fn block_kind_is(block: &Json, kind: &str) -> (r: bool)
    ensures
        r == block_is(*block, kind@),
{
    match block.get("type") {
        Some(Json::Text(t)) => text::same_text(t.as_str(), kind),
        _ => false,
    }
}

fn block_texts_of(blocks: &Vec<Json>) -> (r: String)
    ensures
        r@ == pattern::joined(block_texts(blocks@), "\n"@),
{
    let n: usize = blocks.len();
    let mut texts: Vec<&str> = Vec::new();
    let mut i: usize = 0;
    assert(pattern::views(texts@) =~= seq![]);
    while i < n
        invariant
            n == blocks@.len(),
            i <= n,
            pattern::views(texts@) == block_texts(blocks@.take(i as int)),
        decreases n - i,
    {
        assert(blocks@.take(i + 1).drop_last() =~= blocks@.take(i as int));
        assert(blocks@.take(i + 1).last() == blocks@[i as int]);
        let ghost before = texts@;
        if block_kind_is(&blocks[i], "text") {
            if let Some(Json::Text(t)) = blocks[i].get("text") {
                texts.push(t.as_str());
                assert(pattern::views(texts@) =~= pattern::views(before).push(t@));
            }
        }
        i += 1;
    }
    assert(blocks@.take(n as int) =~= blocks@);
    pattern::join(&texts, "\n")
}

fn block_images_of(blocks: &Vec<Json>, decoded: &Vec<Option<ImageContent>>) -> (r: Vec<
    ImageContent,
>)
    requires
        decoded@.len() == blocks@.len(),
    ensures
        r@ == block_images(blocks@, decoded@),
{
    let n: usize = blocks.len();
    let mut images: Vec<ImageContent> = Vec::new();
    let mut i: usize = 0;
    while i < n
        invariant
            n == blocks@.len(),
            decoded@.len() == n,
            i <= n,
            images@ == block_images(blocks@.take(i as int), decoded@),
        decreases n - i,
    {
        assert(blocks@.take(i + 1).drop_last() =~= blocks@.take(i as int));
        assert(blocks@.take(i + 1).last() == blocks@[i as int]);
        if block_kind_is(&blocks[i], "image") {
            if let Some(image) = &decoded[i] {
                images.push(image.clone());
            }
        }
        i += 1;
    }
    assert(blocks@.take(n as int) =~= blocks@);
    images
}

/// The text of a content: a text is itself, of blocks it is the texts among them, each on its own
/// line, and of anything else there is none.
pub open spec fn content_text(content: Json) -> Seq<char> {
    match content {
        Json::Text(t) => t@,
        Json::Array(blocks) => pattern::joined(block_texts(blocks@), "\n"@),
        _ => ""@,
    }
}

/// The images of a content.
pub open spec fn content_images(content: Json, decoded: Seq<Option<ImageContent>>) -> Seq<
    ImageContent,
> {
    match content {
        Json::Array(blocks) => block_images(blocks@, decoded),
        _ => seq![],
    }
}

/// Splits a content into its text and its images. `decoded` holds for each block the image that it
/// was read as, where it could be.
pub fn user_message_parts(content: &Json, decoded: &Vec<Option<ImageContent>>) -> (r: (
    String,
    Vec<ImageContent>,
))
    requires
        content matches Json::Array(blocks) ==> decoded@.len() == blocks@.len(),
    ensures
        r.0@ == content_text(*content),
        r.1@ == content_images(*content, decoded@),
{
    match content {
        Json::Text(t) => (t.clone(), Vec::new()),
        Json::Array(blocks) => (block_texts_of(blocks), block_images_of(blocks, decoded)),
        _ => ("".to_owned(), Vec::new()),
    }
}

/// What is to be done for a command.
#[derive(Debug, PartialEq)]
pub enum CommandTask {
    /// The message is sent.
    SendCustom { input: CustomMessageInput, trigger_turn: bool, deliver_as: Option<DeliverAs> },
    /// The message is sent in the user's name.
    SendUser { text: String, images: Vec<ImageContent>, deliver_as: Option<DeliverAs> },
    /// The entry is stored.
    AppendEntry { custom_type: String, data: Option<Json> },
    /// The name is stored.
    SetSessionName { name: String },
    /// The label is stored.
    SetLabel { entry_id: String, label: Option<String> },
    /// The tools in use are chosen.
    SetActiveTools { tool_names: Vec<String> },
    /// The tools are collected anew.
    RefreshTools,
    /// Nothing.
    Done,
}

/// The parts of a command that hold what only the caller can read.
#[derive(Debug, PartialEq)]
pub struct CommandParts {
    /// The content of a message, as it was read or why it could not be; none where it has none.
    pub content: Option<Result<CustomMessageContent, String>>,
    /// For each block of a user message the image that it was read as, where it could be.
    pub images: Vec<Option<ImageContent>>,
}

/// What the command to send a message comes to.
pub open spec fn send_message_applied(
    s: SessionModel,
    t: SessionModel,
    message: Json,
    options: Option<Json>,
    content: Option<Result<CustomMessageContent, String>>,
    r: CommandTask,
) -> bool {
    match (bash::json_text(json::field(message, "customType"@)), content) {
        (None, _) => r == CommandTask::Done && bridge::told(
            s,
            t,
            "sendMessage: "@ + "customType is required"@,
        ),
        (Some(_), Some(Err(e))) => r == CommandTask::Done && bridge::told(
            s,
            t,
            "sendMessage: "@ + ("invalid content: "@ + e@),
        ),
        _ => {
            &&& t == s
            &&& r matches CommandTask::SendCustom { input, trigger_turn, deliver_as }
            &&& message_read(message, content, Ok(input))
            &&& trigger_turn == bash::json_flag(option_member(options, "triggerTurn"@))
            &&& deliver_as == delivery_in(options)
        },
    }
}

/// What a command comes to: the task that is left for the caller, and the session after what it did
/// itself.
pub open spec fn command_applied(
    s: SessionModel,
    t: SessionModel,
    command: SessionCommand,
    parts: CommandParts,
    r: CommandTask,
) -> bool {
    match command {
        SessionCommand::SendMessage { message, options } => send_message_applied(
            s,
            t,
            message,
            options,
            parts.content,
            r,
        ),
        SessionCommand::SendUserMessage { content, options } => {
            &&& t == s
            &&& r matches CommandTask::SendUser { text, images, deliver_as }
            &&& text@ == content_text(content)
            &&& images@ == content_images(content, parts.images@)
            &&& deliver_as == if delivery_in(options) == Some(DeliverAs::NextTurn) {
                None
            } else {
                delivery_in(options)
            }
        },
        SessionCommand::AppendEntry { custom_type, data } => t == s && r
            == (CommandTask::AppendEntry { custom_type, data }),
        SessionCommand::SetSessionName { name } => t == s && r == (CommandTask::SetSessionName {
            name,
        }),
        SessionCommand::SetLabel { entry_id, label } => t == s && r == (CommandTask::SetLabel {
            entry_id,
            label,
        }),
        SessionCommand::SetActiveTools { tool_names } => t == s && r
            == (CommandTask::SetActiveTools { tool_names }),
        SessionCommand::RefreshTools => t == s && r == CommandTask::RefreshTools,
        SessionCommand::SetThinkingLevel { level } => r == CommandTask::Done && match model::level_named(
            level@,
        ) {
            Some(l) => t == model::level_set(s, l),
            None => bridge::told(s, t, "setThinkingLevel: unknown level: "@ + level@),
        },
        SessionCommand::Abort => r == CommandTask::Done && t == session::aborted(s),
        SessionCommand::Shutdown => r == CommandTask::Done && t == if s.bindings.has_shutdown_handler {
            s.put(Effect::CallShutdownHandler)
        } else {
            s
        },
    }
}

/// The commands whose tasks can fail.
#[derive(Clone, Copy, Debug, PartialEq, Eq, Structural)]
pub enum CommandOperation {
    SendMessage,
    SendUserMessage,
    AppendEntry,
    SetSessionName,
    SetLabel,
}

impl CommandOperation {
    /// What the command is called in reports.
    pub open spec fn name(self) -> Seq<char> {
        match self {
            CommandOperation::SendMessage => "sendMessage"@,
            CommandOperation::SendUserMessage => "sendUserMessage"@,
            CommandOperation::AppendEntry => "appendEntry"@,
            CommandOperation::SetSessionName => "setSessionName"@,
            CommandOperation::SetLabel => "setLabel"@,
        }
    }

    /// What the command is called in reports.
    pub fn as_str(self) -> (r: &'static str)
        ensures
            r@ == self.name(),
    {
        match self {
            CommandOperation::SendMessage => "sendMessage",
            CommandOperation::SendUserMessage => "sendUserMessage",
            CommandOperation::AppendEntry => "appendEntry",
            CommandOperation::SetSessionName => "setSessionName",
            CommandOperation::SetLabel => "setLabel",
        }
    }
}

impl AgentSession {
    fn tell_listener(&mut self, message: String)
        ensures
            bridge::told(old(self)@, final(self)@, message@),
    {
        let ghost before = self@;
        self.report_extension_error(message);
        assert(before.bindings.has_error_listener ==> self@.outbox.drop_last() =~= before.outbox);
    }

    /// Applies a command of an extension as far as the session can, and gives what is left to do.
    pub fn apply_session_command(&mut self, command: SessionCommand, parts: CommandParts) -> (r:
        CommandTask)
        requires
            command matches SessionCommand::SendUserMessage { content: Json::Array(blocks), .. }
                ==> parts.images@.len() == blocks@.len(),
        ensures
            command_applied(old(self)@, final(self)@, command, parts, r),
    {
        match command {
            SessionCommand::SendMessage { message, options } => self.apply_send_message(
                &message,
                &options,
                parts.content,
            ),
            SessionCommand::SendUserMessage { content, options } => {
                let (text, images) = user_message_parts(&content, &parts.images);
                let deliver_as = match delivery_of(&options) {
                    Some(DeliverAs::NextTurn) => None,
                    other => other,
                };
                CommandTask::SendUser { text, images, deliver_as }
            },
            SessionCommand::AppendEntry { custom_type, data } => CommandTask::AppendEntry {
                custom_type,
                data,
            },
            SessionCommand::SetSessionName { name } => CommandTask::SetSessionName { name },
            SessionCommand::SetLabel { entry_id, label } => CommandTask::SetLabel {
                entry_id,
                label,
            },
            SessionCommand::SetActiveTools { tool_names } => CommandTask::SetActiveTools {
                tool_names,
            },
            SessionCommand::RefreshTools => CommandTask::RefreshTools,
            SessionCommand::SetThinkingLevel { level } => {
                match model::parse_thinking_level(level.as_str()) {
                    Some(level) => self.set_thinking_level(level),
                    None => self.tell_listener(
                        text::concat2("setThinkingLevel: unknown level: ", level.as_str()),
                    ),
                }
                CommandTask::Done
            },
            SessionCommand::Abort => {
                self.abort();
                CommandTask::Done
            },
            SessionCommand::Shutdown => {
                self.invoke_extension_shutdown_handler();
                CommandTask::Done
            },
        }
    }

    fn apply_send_message(
        &mut self,
        message: &Json,
        options: &Option<Json>,
        content: Option<Result<CustomMessageContent, String>>,
    ) -> (r: CommandTask)
        ensures
            send_message_applied(old(self)@, final(self)@, *message, *options, content, r),
    {
        match custom_message_input(message, content) {
            Ok(input) => CommandTask::SendCustom {
                input,
                trigger_turn: triggers_turn(options),
                deliver_as: delivery_of(options),
            },
            Err(error) => {
                self.tell_listener(text::concat2("sendMessage: ", error.message().as_str()));
                CommandTask::Done
            },
        }
    }

    /// Tells the listener that the task of a command failed.
    pub fn command_failed(&mut self, operation: CommandOperation, error: &str)
        ensures
            bridge::told(old(self)@, final(self)@, operation.name() + ": "@ + error@),
    {
        let message = text::concat3(operation.as_str(), ": ", error);
        self.tell_listener(message);
    }

    /// Tells the listeners of an entry that an extension appended.
    pub fn entry_appended(&mut self, entry: Option<SessionEntry>)
        ensures
            final(self)@ == match entry {
                Some(e) => old(self)@.put(Effect::Emit(AgentSessionEvent::EntryAppended { entry: e })),
                None => old(self)@,
            },
    {
        if let Some(entry) = entry {
            self.emit_public(AgentSessionEvent::EntryAppended { entry });
        }
    }
}

// ---------------------------------------------------------------------------
// What the operations promise
// ---------------------------------------------------------------------------

/// When a message is delivered is read from three names and from no other.
pub proof fn law_deliveries_are_named(raw: &str, r: Option<DeliverAs>)
    requires
        call_ensures(parse_deliver_as, (raw,), r),
    ensures
        r == Some(DeliverAs::Steer) <==> raw@ == "steer"@,
        r == Some(DeliverAs::FollowUp) <==> raw@ == "followUp"@,
        r == Some(DeliverAs::NextTurn) <==> raw@ == "nextTurn"@,
{
    reveal_strlit("steer");
    reveal_strlit("followUp");
    reveal_strlit("nextTurn");
    assert("steer"@.len() == 5 && "followUp"@.len() == 8 && "nextTurn"@.len() == 8);
    assert("followUp"@[0] == 'f' && "nextTurn"@[0] == 'n');
}

/// The message of an extension is read from its members: what kind it is, which it must say, its
/// content, whether it is shown, and what is kept with it.
pub proof fn law_a_message_of_an_extension_is_read(
    message: &Json,
    content: Option<Result<CustomMessageContent, String>>,
    r: Result<CustomMessageInput, MessageInputError>,
)
    requires
        call_ensures(custom_message_input, (message, content), r),
    ensures
        !(json::field(*message, "customType"@) matches Some(Json::Text(_))) ==> (r matches Err(
            MessageInputError::TypeRequired,
        )),
        json::field(*message, "customType"@) matches Some(Json::Text(kind)) ==> {
            &&& content matches Some(Err(e)) ==> r == Err::<CustomMessageInput, MessageInputError>(
                MessageInputError::InvalidContent(e),
            )
            &&& !(content matches Some(Err(_))) ==> (r matches Ok(input) && input.custom_type == kind
                && (input.display <==> json::field(*message, "display"@) == Some(Json::Bool(true)))
                && (content matches Some(Ok(c)) ==> input.content == c) && (content is None
                ==> (input.content matches CustomMessageContent::Text(t) && t@.len() == 0)) && (
            json::field(*message, "details"@) matches Some(Json::Null) ==> input.details is None)
                && (!(json::field(*message, "details"@) matches Some(Json::Null)) ==> input.details
                == json::field(*message, "details"@)))
        },
{
    reveal_strlit("");
}

/// The words of a message that could not be read.
pub proof fn law_unreadable_messages_are_named(error: &MessageInputError, words: String)
    requires
        call_ensures(MessageInputError::message, (error,), words),
    ensures
        *error is TypeRequired ==> words@ == "customType is required"@,
        *error matches MessageInputError::InvalidContent(e) ==> words@ == "invalid content: "@ + e@,
{
}

/// A content that is a text has that text and no images; one that is neither a text nor a list has
/// neither.
pub proof fn law_a_plain_content_is_its_text(
    content: &Json,
    decoded: &Vec<Option<ImageContent>>,
    r: (String, Vec<ImageContent>),
)
    requires
        call_ensures(user_message_parts, (content, decoded), r),
    ensures
        *content matches Json::Text(t) ==> r.0@ == t@ && r.1@.len() == 0,
        !(*content is Text) && !(*content is Array) ==> r.0@.len() == 0 && r.1@.len() == 0,
        *content matches Json::Array(blocks) ==> (blocks@.len() == 0 ==> r.0@.len() == 0
            && r.1@.len() == 0),
{
    reveal_strlit("");
}

/// Of a list of blocks, one more block of text adds its text on a line of its own, one more image
/// that could be read adds the image, and any other block adds nothing.
pub proof fn law_each_block_adds_its_part(
    content: &Json,
    more: &Json,
    decoded: &Vec<Option<ImageContent>>,
    more_decoded: &Vec<Option<ImageContent>>,
    blocks: Seq<Json>,
    block: Json,
    short: (String, Vec<ImageContent>),
    long: (String, Vec<ImageContent>),
)
    requires
        call_ensures(user_message_parts, (content, decoded), short),
        call_ensures(user_message_parts, (more, more_decoded), long),
        *content matches Json::Array(b) && b@ == blocks,
        *more matches Json::Array(b) && b@ == blocks.push(block),
        decoded@.len() == blocks.len(),
        more_decoded@.len() == blocks.len() + 1,
        more_decoded@.drop_last() == decoded@,
    ensures
        ({
            let is_text = json::field(block, "type"@) matches Some(Json::Text(t)) && t@ == "text"@;
            let is_image = json::field(block, "type"@) matches Some(Json::Text(t)) && t@
                == "image"@;
            &&& is_text ==> (json::field(block, "text"@) matches Some(Json::Text(t)) ==> long.0@ == if block_texts(
                blocks,
            ).len() == 0 {
                t@
            } else {
                short.0@ + "\n"@ + t@
            })
            &&& !is_text ==> long.0@ == short.0@
            &&& is_image && more_decoded@.last() is Some ==> long.1@ == short.1@.push(
                more_decoded@.last()->0,
            )
            &&& !is_image || more_decoded@.last() is None ==> long.1@ == short.1@
        }),
{
    assert(blocks.push(block).drop_last() =~= blocks);
    lemma_images_prefix(blocks, decoded@, more_decoded@);
    let texts = block_texts(blocks);
    if let Some(Json::Text(t)) = json::field(block, "text"@) {
        assert(texts.push(t@).drop_last() =~= texts);
        assert(texts.push(t@).last() == t@);
    }
}

proof fn lemma_images_prefix(
    blocks: Seq<Json>,
    a: Seq<Option<ImageContent>>,
    b: Seq<Option<ImageContent>>,
)
    requires
        blocks.len() <= a.len() <= b.len(),
        forall|i: int| 0 <= i < a.len() ==> #[trigger] a[i] == b[i],
    ensures
        block_images(blocks, a) == block_images(blocks, b),
    decreases blocks.len(),
{
    if blocks.len() > 0 {
        lemma_images_prefix(blocks.drop_last(), a, b);
        assert(a[blocks.len() - 1] == b[blocks.len() - 1]);
    }
}

/// The listener was told these words, where there is one; nothing else changed.
pub open spec fn only_told(s: SessionModel, t: SessionModel, words: Seq<char>) -> bool {
    &&& !s.bindings.has_error_listener ==> t == s
    &&& s.bindings.has_error_listener ==> {
        &&& t.outbox.len() == s.outbox.len() + 1
        &&& t.outbox.drop_last() == s.outbox
        &&& t.outbox.last() matches Effect::ReportError(m) && m@ == words
        &&& t.agent == s.agent && t.settings == s.settings && t.lifecycle == s.lifecycle
    }
}

/// The commands to send: a message of an extension is handed on as it was read, with when and whether
/// it starts a run; one that could not be read is told the listener and nothing is sent. A message in
/// the user's name is handed on with its text and images; it never waits for the next turn.
pub proof fn law_sent_messages_are_handed_on(
    session: &mut AgentSession,
    command: SessionCommand,
    parts: CommandParts,
    read: Result<CustomMessageInput, MessageInputError>,
    user: (String, Vec<ImageContent>),
    task: CommandTask,
)
    requires
        call_ensures(AgentSession::apply_session_command, (session, command, parts), task),
        command matches SessionCommand::SendMessage { message, options } ==> call_ensures(
            custom_message_input,
            (&message, parts.content),
            read,
        ),
        command matches SessionCommand::SendUserMessage { content, options } ==> call_ensures(
            user_message_parts,
            (&content, &parts.images),
            user,
        ),
    ensures
        command matches SessionCommand::SendMessage { message, options } ==> {
            &&& read is Ok ==> final(session)@ == old(session)@ && (task
                matches CommandTask::SendCustom { input, trigger_turn, deliver_as }
                && input.custom_type == read->Ok_0.custom_type && input.display
                == read->Ok_0.display && input.details == read->Ok_0.details && (trigger_turn
                <==> (options matches Some(o) && json::field(o, "triggerTurn"@) == Some(
                Json::Bool(true),
            ))) && (options is None ==> deliver_as is None) && (options matches Some(o) ==> (
            json::field(o, "deliverAs"@) matches Some(Json::Text(n)) ==> (n@ == "nextTurn"@
                <==> deliver_as == Some(DeliverAs::NextTurn)) && (n@ == "followUp"@ <==> deliver_as
                == Some(DeliverAs::FollowUp)) && (n@ == "steer"@ <==> deliver_as == Some(
                DeliverAs::Steer,
            )))))
            &&& read is Err ==> task is Done && only_told(
                old(session)@,
                final(session)@,
                "sendMessage: "@ + read->Err_0.text(),
            )
        },
        command matches SessionCommand::SendUserMessage { content, options } ==> final(session)@
            == old(session)@ && (task matches CommandTask::SendUser { text, images, deliver_as }
            && text@ == user.0@ && images@ == user.1@ && deliver_as != Some(DeliverAs::NextTurn) && (
        options is None ==> deliver_as is None) && (options matches Some(o) ==> (json::field(
            o,
            "deliverAs"@,
        ) matches Some(Json::Text(n)) ==> (n@ == "followUp"@ <==> deliver_as == Some(
            DeliverAs::FollowUp,
        )) && (n@ == "steer"@ <==> deliver_as == Some(DeliverAs::Steer))))),
{
    reveal_strlit("steer");
    reveal_strlit("followUp");
    reveal_strlit("nextTurn");
    assert("steer"@.len() == 5 && "followUp"@.len() == 8 && "nextTurn"@.len() == 8);
    assert("followUp"@[0] == 'f' && "nextTurn"@[0] == 'n');
}

/// The commands that the storage or the host carries out are handed on as they are, and leave the
/// session alone.
pub proof fn law_other_commands_are_handed_on(
    session: &mut AgentSession,
    command: SessionCommand,
    parts: CommandParts,
    task: CommandTask,
)
    requires
        call_ensures(AgentSession::apply_session_command, (session, command, parts), task),
    ensures
        command matches SessionCommand::AppendEntry { custom_type: a, data: b } ==> (task
            matches CommandTask::AppendEntry { custom_type, data } && custom_type == a && data == b),
        command matches SessionCommand::SetSessionName { name: a } ==> (task
            matches CommandTask::SetSessionName { name } && name == a),
        command matches SessionCommand::SetLabel { entry_id: a, label: b } ==> (task
            matches CommandTask::SetLabel { entry_id, label } && entry_id == a && label == b),
        command matches SessionCommand::SetActiveTools { tool_names: a } ==> (task
            matches CommandTask::SetActiveTools { tool_names } && tool_names == a),
        command is RefreshTools ==> task is RefreshTools,
        command is AppendEntry || command is SetSessionName || command is SetLabel || command
            is SetActiveTools || command is RefreshTools ==> final(session)@ == old(session)@,
        command is SetThinkingLevel || command is Abort || command is Shutdown ==> task is Done,
{
}

/// The commands that the session carries out itself do what the session does when it is asked: a
/// thinking level is set where it has a known name, and told the listener where not; an abort stops
/// everything; a shutdown calls the handler where one is bound.
pub proof fn law_own_commands_are_carried_out(
    session: &mut AgentSession,
    twin: &mut AgentSession,
    level_text: &str,
    named: Option<crate::messages::ModelThinkingLevel>,
    command: SessionCommand,
    parts: CommandParts,
    task: CommandTask,
    done: (),
)
    requires
        call_ensures(AgentSession::apply_session_command, (session, command, parts), task),
        call_ensures(model::parse_thinking_level, (level_text,), named),
        old(twin)@ == old(session)@,
        named is Some ==> call_ensures(AgentSession::set_thinking_level, (twin, named->0), done),
    ensures
        command matches SessionCommand::SetThinkingLevel { level } ==> (level@ == level_text@ ==> {
            &&& named is Some ==> final(session)@ == final(twin)@
            &&& named is None ==> only_told(
                old(session)@,
                final(session)@,
                "setThinkingLevel: unknown level: "@ + level@,
            )
        }),
        command is Abort ==> final(session)@.outbox.last() == Effect::AwaitIdle && final(session)@.slots.retry is None && final(session)@.slots.bash is None && final(session)@.slots.compaction is None && final(session)@.slots.auto_compaction is None,
        command is Shutdown && old(session)@.bindings.has_shutdown_handler ==> final(session)@.outbox == old(session)@.outbox.push(Effect::CallShutdownHandler),
        command is Shutdown && !old(session)@.bindings.has_shutdown_handler ==> final(session)@
            == old(session)@,
{
}

/// A command whose task failed is told the listener, by its name and with the failure.
pub proof fn law_failed_commands_are_told(
    session: &mut AgentSession,
    operation: CommandOperation,
    error: &str,
    name: &'static str,
    done: (),
)
    requires
        call_ensures(AgentSession::command_failed, (session, operation, error), done),
        call_ensures(CommandOperation::as_str, (operation,), name),
    ensures
        only_told(old(session)@, final(session)@, name@ + ": "@ + error@),
        operation == CommandOperation::SendMessage ==> name@ == "sendMessage"@,
        operation == CommandOperation::SendUserMessage ==> name@ == "sendUserMessage"@,
        operation == CommandOperation::AppendEntry ==> name@ == "appendEntry"@,
        operation == CommandOperation::SetSessionName ==> name@ == "setSessionName"@,
        operation == CommandOperation::SetLabel ==> name@ == "setLabel"@,
{
}

/// An entry that an extension appended is told once; where there is none, nothing is.
pub proof fn law_an_appended_entry_is_told(
    session: &mut AgentSession,
    entry: Option<SessionEntry>,
    done: (),
)
    requires
        call_ensures(AgentSession::entry_appended, (session, entry), done),
    ensures
        entry matches Some(e) ==> final(session)@ == (SessionModel {
            outbox: old(session)@.outbox.push(
                Effect::Emit(AgentSessionEvent::EntryAppended { entry: e }),
            ),
            ..old(session)@
        }),
        entry is None ==> final(session)@ == old(session)@,
{
}

} // verus!
