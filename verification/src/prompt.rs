//! Prompts of the user and messages of extensions.

use crate::bash::BashExecError;
use crate::events::AgentSessionEvent;
use crate::extension_runner;
use crate::extension_runner::{
    BeforeAgentStartResult, ExtensionRunnerError, InputTransformResult,
};
use crate::json;
use crate::json::Json;
use crate::messages::{
    AgentMessage, AssistantMessage, CustomAgentMessage, ImageContent, Message, Model, UserContent,
    UserMessage, UserMessageContent,
};
use crate::persistence;
use crate::resources::Skill;
use crate::retry;
use crate::session;
use crate::session::{AgentModel, AgentSession, CancelToken, Effect, SessionError, SessionModel};
use crate::text;
use std::sync::Arc;
use vstd::prelude::*;

verus! {

/// The content of a custom message: a text or a list of blocks.
#[derive(Debug, PartialEq)]
pub enum CustomMessageContent {
    Text(String),
    Blocks(Arc<Vec<UserContent>>),
}

/// A message of an extension.
#[derive(Debug, PartialEq)]
pub struct CustomMessageInput {
    /// What kind of message it is, in the extension's own words.
    pub custom_type: String,
    pub content: CustomMessageContent,
    /// Whether the user is to see it.
    pub display: bool,
    /// What the extension wants to keep with it.
    pub details: Option<Json>,
}

/// How a prompt waits while a run is active.
#[derive(Clone, Copy, Debug, PartialEq, Eq, Structural)]
pub enum StreamingBehavior {
    /// Before the next request to the model.
    Steer,
    /// After the run.
    FollowUp,
}

impl StreamingBehavior {
    /// The wire name.
    pub open spec fn name(self) -> Seq<char> {
        match self {
            StreamingBehavior::Steer => "steer"@,
            StreamingBehavior::FollowUp => "followUp"@,
        }
    }

    /// The wire name.
    #[must_use]
    pub fn as_str(&self) -> (r: &'static str)
        ensures
            r@ == self.name(),
    {
        match self {
            StreamingBehavior::Steer => "steer",
            StreamingBehavior::FollowUp => "followUp",
        }
    }
}

/// How a prompt is to be taken.
#[derive(Debug, PartialEq)]
pub struct PromptOptions {
    /// Images for the message.
    pub images: Vec<ImageContent>,
    /// How the prompt waits where a run is active; it must say so then.
    pub streaming_behavior: Option<StreamingBehavior>,
    /// Where the prompt comes from, as extensions are told.
    pub source: Option<String>,
    /// Whether commands of extensions, skills and templates are expanded.
    pub expand_prompt_templates: bool,
}

impl Default for PromptOptions {
    fn default() -> (r: Self)
        ensures
            r.images@.len() == 0,
            r.streaming_behavior is None,
            r.source is None,
            r.expand_prompt_templates,
    {
        PromptOptions {
            images: Vec::new(),
            streaming_behavior: None,
            source: None,
            expand_prompt_templates: true,
        }
    }
}

impl PromptOptions {
    /// A prompt without anything special.
    #[must_use]
    pub fn new() -> (r: Self)
        ensures
            r.images@.len() == 0,
            r.streaming_behavior is None,
            r.source is None,
            r.expand_prompt_templates,
    {
        PromptOptions::default()
    }
}

/// When a message of an extension is delivered.
#[derive(Clone, Copy, Debug, PartialEq, Eq, Structural)]
pub enum DeliverAs {
    /// Before the next request to the model.
    Steer,
    /// After the run.
    FollowUp,
    /// With the next prompt of the user.
    NextTurn,
}

/// A failure of an agent run.
#[derive(Debug, PartialEq)]
pub enum AgentLoopError {
    Message(String),
}

/// Why a prompt failed.
#[derive(Debug, PartialEq)]
pub enum PromptError {
    /// A failure in words: no model, no credentials, no place to wait, or a command of an extension.
    Message(String),
    /// The agent run failed.
    Agent(AgentLoopError),
    /// The storage failed.
    Session(SessionError),
}

/// The failure of a prompt that a failed flush of shell results comes to.
pub open spec fn flush_failure(error: BashExecError) -> PromptError {
    match error {
        BashExecError::Session(e) => PromptError::Session(e),
        BashExecError::Execution { message, .. } => PromptError::Message(message),
    }
}

fn map_bash_flush_error(error: BashExecError) -> (r: PromptError)
    ensures
        r == flush_failure(error),
{
    match error {
        BashExecError::Session(error) => PromptError::Session(error),
        BashExecError::Execution { message, .. } => PromptError::Message(message),
    }
}

/// What a slash command is made of: its name, up to the first space, and what comes behind it.
pub open spec fn slash_parts(input: Seq<char>) -> Option<(Seq<char>, Seq<char>)> {
    if input.len() == 0 || input[0] != '/' {
        None
    } else {
        let end = name_end(input, 1);
        Some(
            (
                input.subrange(1, end),
                if end < input.len() {
                    input.skip(end + 1)
                } else {
                    seq![]
                },
            ),
        )
    }
}

/// Where the first space from `from` on stands, the length where there is none.
pub open spec fn name_end(input: Seq<char>, from: int) -> int
    decreases input.len() - from,
{
    if from >= input.len() || input[from] == ' ' {
        from
    } else {
        name_end(input, from + 1)
    }
}

fn space_from(chars: &Vec<char>, from: usize) -> (r: usize)
    requires
        from <= chars@.len(),
    ensures
        r == name_end(chars@, from as int),
        from <= r <= chars@.len(),
{
    let n: usize = chars.len();
    let mut i: usize = from;
    while i < n && chars[i] != ' '
        invariant
            from <= i <= n,
            n == chars@.len(),
            name_end(chars@, from as int) == name_end(chars@, i as int),
        ensures
            from <= i <= n,
            name_end(chars@, from as int) == i,
        decreases n - i,
    {
        i += 1;
    }
    i
}

proof fn lemma_name_end(input: Seq<char>, from: int)
    requires
        0 <= from <= input.len(),
    ensures
        from <= name_end(input, from) <= input.len(),
        forall|i: int| from <= i < name_end(input, from) ==> #[trigger] input[i] != ' ',
        name_end(input, from) < input.len() ==> input[name_end(input, from)] == ' ',
    decreases input.len() - from,
{
    if from < input.len() && input[from] != ' ' {
        lemma_name_end(input, from + 1);
    }
}

/// Splits a slash command into its name and what comes behind it; none for what is no command.
pub fn parse_slash_command(input: &str) -> (r: Option<(String, String)>)
    ensures
        match r {
            Some(parts) => slash_parts(input@) == Some((parts.0@, parts.1@)),
            None => slash_parts(input@) is None,
        },
{
    let chars = text::to_chars(input);
    let n: usize = chars.len();
    if n == 0 || chars[0] != '/' {
        return None;
    }
    let end: usize = space_from(&chars, 1);
    let name = text::slice(input, 1, end);
    if end < n {
        let args = text::slice(input, end + 1, n);
        assert(input@.subrange(end + 1, n as int) =~= input@.skip(end + 1));
        Some((name, args))
    } else {
        Some((name, String::new()))
    }
}

/// A slash command is its slash, its name and what comes behind the first space, and its name has no
/// space in it.
pub proof fn law_slash_command_reassembles(input: Seq<char>)
    requires
        slash_parts(input) is Some,
    ensures
        ({
            let (name, args) = slash_parts(input)->0;
            &&& !name.contains(' ')
            &&& input == seq!['/'] + name || input == seq!['/'] + name + seq![' '] + args
            &&& args.len() > 0 ==> input == seq!['/'] + name + seq![' '] + args
        }),
{
    lemma_name_end(input, 1);
    let end = name_end(input, 1);
    let (name, args) = slash_parts(input)->0;
    assert(!name.contains(' ')) by {
        if name.contains(' ') {
            let i = choose|i: int| 0 <= i < name.len() && name[i] == ' ';
            assert(input[i + 1] == ' ');
        }
    }
    if end < input.len() {
        assert(input =~= seq!['/'] + name + seq![' '] + args);
    } else {
        assert(input =~= seq!['/'] + name);
    }
}

/// Whether the end of a run is told where it ended like this: it is, unless the run was refused
/// before it began.
pub open spec fn end_is_told(run: Result<(), AgentLoopError>) -> bool {
    match run {
        Ok(_) => true,
        Err(AgentLoopError::Message(m)) => m@ != "agent is already running"@ && m@
            != "No messages to continue from"@ && !text::begins_with(
            m@,
            "Cannot continue from message role"@,
        ),
    }
}

/// Whether the end of a run is told where it ended like this.
pub fn run_emits_agent_end(run: &Result<(), AgentLoopError>) -> (r: bool)
    ensures
        r == end_is_told(*run),
{
    match run {
        Ok(_) => true,
        Err(AgentLoopError::Message(message)) => !text::same_text(
            message.as_str(),
            "agent is already running",
        ) && !text::same_text(message.as_str(), "No messages to continue from")
            && !text::starts_with_text(message.as_str(), "Cannot continue from message role"),
    }
}

/// Whether this is no model.
pub open spec fn no_model(model: Model) -> bool {
    model.provider@ == "unknown"@
}

fn is_no_model(model: &Model) -> (r: bool)
    ensures
        r == no_model(*model),
{
    text::same_text(model.provider.as_str(), "unknown")
}

/// Images as blocks.
pub open spec fn image_blocks(images: Seq<ImageContent>) -> Seq<UserContent> {
    images.map_values(|i: ImageContent| UserContent::Image(i))
}

/// `message` is the message of the user with this text and these images.
pub open spec fn is_user_text(
    message: AgentMessage,
    text: Seq<char>,
    images: Seq<ImageContent>,
    now: i64,
) -> bool {
    &&& message matches AgentMessage::Llm(
        Message::User(UserMessage { content: UserMessageContent::Blocks(blocks), timestamp }),
    )
    &&& timestamp == now
    &&& blocks@.len() == images.len() + 1
    &&& blocks@[0] matches UserContent::Text(t) && t@ == text
    &&& blocks@.skip(1) == image_blocks(images)
}

/// The message of the user with this text and these images.
pub fn user_text(input: &str, images: &Vec<ImageContent>, now: i64) -> (r: AgentMessage)
    ensures
        is_user_text(r, input@, images@, now),
{
    let mut blocks: Vec<UserContent> = Vec::new();
    blocks.push(UserContent::Text(input.to_owned()));
    let n: usize = images.len();
    let mut i: usize = 0;
    assert(blocks@.skip(1) =~= image_blocks(images@).take(0));
    while i < n
        invariant
            n == images@.len(),
            i <= n,
            blocks@.len() == i + 1,
            blocks@[0] matches UserContent::Text(t) && t@ == input@,
            blocks@.skip(1) == image_blocks(images@).take(i as int),
        decreases n - i,
    {
        let ghost before = blocks@;
        blocks.push(UserContent::Image(images[i].clone()));
        assert(blocks@.skip(1) =~= before.skip(1).push(UserContent::Image(images@[i as int])));
        assert(image_blocks(images@).take(i + 1) =~= image_blocks(images@).take(i as int).push(
            UserContent::Image(images@[i as int]),
        ));
        i += 1;
    }
    assert(image_blocks(images@).take(n as int) =~= image_blocks(images@));
    AgentMessage::Llm(
        Message::User(
            UserMessage { content: UserMessageContent::Blocks(Arc::new(blocks)), timestamp: now },
        ),
    )
}

proof fn lemma_blocks_text(blocks: Seq<UserContent>, images: Seq<ImageContent>)
    requires
        blocks.len() == images.len() + 1,
        blocks[0] is Text,
        blocks.skip(1) == image_blocks(images),
    ensures
        persistence::blocks_text(blocks) == blocks[0]->Text_0@,
    decreases images.len(),
{
    if images.len() == 0 {
        assert(blocks.drop_last() =~= seq![]);
        assert(persistence::blocks_text(blocks.drop_last()) =~= seq![]);
        assert(persistence::blocks_text(blocks) =~= blocks[0]->Text_0@);
    } else {
        let rest = blocks.drop_last();
        assert forall|i: int| 0 <= i < images.len() - 1 implies #[trigger] rest.skip(1)[i]
            == image_blocks(images.drop_last())[i] by {
            assert(blocks.skip(1)[i] == image_blocks(images)[i]);
        }
        assert(rest.skip(1) =~= image_blocks(images.drop_last()));
        lemma_blocks_text(rest, images.drop_last());
        assert(blocks.last() == blocks.skip(1)[images.len() - 1]);
        assert(blocks.last() == UserContent::Image(images[images.len() - 1]));
        assert(persistence::blocks_text(blocks) =~= persistence::blocks_text(rest));
    }
}

/// The text of a message is read back from it, whatever images it has: so a text that waits is found
/// when its message arrives.
pub proof fn law_user_text_reads_back(
    message: AgentMessage,
    text: Seq<char>,
    images: Seq<ImageContent>,
    now: i64,
)
    requires
        is_user_text(message, text, images, now),
    ensures
        persistence::user_text_of(message) == text,
{
    if let AgentMessage::Llm(Message::User(u)) = message {
        if let UserMessageContent::Blocks(blocks) = u.content {
            lemma_blocks_text(blocks@, images);
        }
    }
}

/// What `/skill:name` asks for: the name of the skill, up to the first space, and what comes behind
/// it, without white space around it.
pub open spec fn skill_parts(input: Seq<char>) -> Option<(Seq<char>, Seq<char>)> {
    if !text::begins_with(input, "/skill:"@) {
        None
    } else {
        let start = "/skill:"@.len() as int;
        let end = name_end(input, start);
        Some(
            (
                input.subrange(start, end),
                if end < input.len() {
                    text::trimmed(input.skip(end + 1))
                } else {
                    seq![]
                },
            ),
        )
    }
}

/// The place of the first skill from `from` on with this name, the number of skills where there is
/// none.
pub open spec fn skill_position(skills: Seq<Skill>, name: Seq<char>, from: int) -> int
    decreases skills.len() - from,
{
    if from >= skills.len() {
        skills.len() as int
    } else if skills[from].name@ == name {
        from
    } else {
        skill_position(skills, name, from + 1)
    }
}

/// The skill that an input asks for, and what comes behind its name.
pub open spec fn asked_skill(skills: Seq<Skill>, input: Seq<char>) -> Option<(int, Seq<char>)> {
    match skill_parts(input) {
        Some((name, args)) => if skill_position(skills, name, 0) < skills.len() {
            Some((skill_position(skills, name, 0), args))
        } else {
            None
        },
        None => None,
    }
}

/// What a skill puts in place of the command, with `body` for the text of its file.
pub open spec fn skill_block(skill: Skill, body: Seq<char>, args: Seq<char>) -> Seq<char> {
    let block = "<skill name=\""@ + skill.name@ + "\" location=\""@ + skill.file_path@
        + "\">\nReferences are relative to "@ + skill.base_dir@ + ".\n\n"@ + text::trimmed(body)
        + "\n</skill>"@;
    if args.len() == 0 {
        block
    } else {
        block + "\n\n"@ + args
    }
}

/// A skill that an input asks for.
#[derive(Debug, PartialEq)]
pub struct SkillUse {
    /// Its place among the skills of the session.
    pub index: usize,
    /// The file with its text.
    pub file_path: String,
    /// What comes behind its name.
    pub args: String,
}

fn skill_index(skills: &Vec<Skill>, name: &str) -> (r: usize)
    ensures
        r == skill_position(skills@, name@, 0),
        r <= skills@.len(),
{
    let n: usize = skills.len();
    let mut i: usize = 0;
    while i < n
        invariant
            n == skills@.len(),
            i <= n,
            skill_position(skills@, name@, 0) == skill_position(skills@, name@, i as int),
        decreases n - i,
    {
        if text::same_text(skills[i].name.as_str(), name) {
            return i;
        }
        i += 1;
    }
    n
}

fn skill_block_of(skill: &Skill, body: &str, args: &str) -> (r: String)
    ensures
        r@ == skill_block(*skill, body@, args@),
{
    let trimmed = text::trim_text(body);
    let head = text::concat3("<skill name=\"", skill.name.as_str(), "\" location=\"");
    let head = text::concat3(
        head.as_str(),
        skill.file_path.as_str(),
        "\">\nReferences are relative to ",
    );
    let head = text::concat3(head.as_str(), skill.base_dir.as_str(), ".\n\n");
    let block = text::concat3(head.as_str(), trimmed.as_str(), "\n</skill>");
    assert(block@ =~= "<skill name=\""@ + skill.name@ + "\" location=\""@ + skill.file_path@
        + "\">\nReferences are relative to "@ + skill.base_dir@ + ".\n\n"@ + text::trimmed(body@)
        + "\n</skill>"@);
    if args.is_empty() {
        block
    } else {
        text::concat3(block.as_str(), "\n\n", args)
    }
}

impl AgentSession {
    /// The skill that an input asks for, where there is one. The caller reads its file.
    pub fn find_skill_command(&self, input: &str) -> (r: Option<SkillUse>)
        ensures
            match asked_skill(self@.skills, input@) {
                Some((i, args)) => r matches Some(u) && u.index == i && u.file_path
                    == self@.skills[i].file_path && u.args@ == args,
                None => r is None,
            },
    {
        if !text::starts_with_text(input, "/skill:") {
            return None;
        }
        proof {
            reveal_strlit("/skill:");
        }
        let chars = text::to_chars(input);
        let start: usize = 7;
        let end: usize = space_from(&chars, start);
        let name = text::slice(input, start, end);
        let index: usize = skill_index(&self.skills, name.as_str());
        if index >= self.skills.len() {
            return None;
        }
        let n: usize = chars.len();
        let args = if end < n {
            let rest = text::slice(input, end + 1, n);
            assert(input@.subrange(end + 1, n as int) =~= input@.skip(end + 1));
            text::trim_text(rest.as_str())
        } else {
            String::new()
        };
        Some(SkillUse { index, file_path: self.skills[index].file_path.clone(), args })
    }

    /// Expands a skill command. `content` is the text of the skill's file without its front matter,
    /// none where it could not be read.
    pub fn expand_skill_command(&self, input: &str, content: Option<&str>) -> (r: String)
        ensures
            r@ == match (asked_skill(self@.skills, input@), content) {
                (Some((i, args)), Some(body)) => skill_block(self@.skills[i], body@, args),
                _ => input@,
            },
    {
        match (self.find_skill_command(input), content) {
            (Some(found), Some(body)) => skill_block_of(
                &self.skills[found.index],
                body,
                found.args.as_str(),
            ),
            _ => input.to_owned(),
        }
    }
}

/// How the checks before a prompt end.
#[derive(Debug, PartialEq)]
pub enum PreflightOutcome {
    /// The agent runs with these messages.
    Run(Vec<AgentMessage>),
    /// An extension took care of the prompt.
    Handled,
    /// The prompt waits for the active run.
    Queued,
}

/// What is to be done next before a prompt.
#[derive(Debug, PartialEq)]
pub enum PreflightStep {
    /// The command of an extension is executed.
    ExecuteCommand { name: String, args: String },
    /// The extensions are asked what they make of the input, where any of them wants to know.
    TransformInput {
        /// Where the prompt comes from.
        source: String,
        /// How the prompt waits, where a run is active.
        streaming: Option<StreamingBehavior>,
    },
    /// Skills and templates are expanded.
    Expand,
    /// The shell results that wait are stored.
    FlushBash,
    /// The credentials of the model's provider are looked for.
    CheckAuth,
    /// The last answer is checked for compaction.
    CheckCompaction(AssistantMessage),
    /// The extensions are asked what they add to the run.
    AskExtensions,
    /// The checks are over.
    Finished(Result<PreflightOutcome, PromptError>),
}

/// A prompt on its way to a run.
#[derive(Debug, PartialEq)]
pub struct PromptRun {
    pub text: String,
    pub images: Vec<ImageContent>,
    pub streaming_behavior: Option<StreamingBehavior>,
    pub source: Option<String>,
    /// Whether commands, skills and templates are expanded.
    pub expand: bool,
    /// The messages of the run.
    pub messages: Vec<AgentMessage>,
}

/// What extensions made of an input.
#[derive(Debug, PartialEq)]
pub enum InputReply {
    /// No extension wants to know of inputs, so none was asked.
    NoHandlers,
    /// They answered; `images` are those of the answer, where it has any and they could be read.
    Answered { result: InputTransformResult, images: Option<Vec<ImageContent>> },
    /// They failed.
    Failed(ExtensionRunnerError),
}

/// What was found of the credentials. Where they are missing, the host says it in its words.
#[derive(Debug, PartialEq)]
pub enum AuthReply {
    /// There is no runtime to look for them.
    NoRuntime,
    /// They are there.
    Configured,
    /// The provider needs a sign-in, which is no longer valid.
    OauthFailed(String),
    /// There is no key.
    NoKey(String),
}

/// The command of an extension that an input calls.
pub open spec fn called_command(input: Seq<char>, commands: Seq<String>) -> Option<
    (Seq<char>, Seq<char>),
> {
    match slash_parts(input) {
        Some((name, args)) => if extension_runner::has_command_in(commands, name) {
            Some((name, args))
        } else {
            None
        },
        None => None,
    }
}

/// `step` asks the extensions about the input of `run`.
pub open spec fn asks_input(step: PreflightStep, s: SessionModel, run: PromptRun) -> bool {
    step matches PreflightStep::TransformInput { source, streaming } && source@ == (match run.source {
        Some(name) => name@,
        None => "interactive"@,
    }) && streaming == if s.lifecycle.is_agent_run_active {
        run.streaming_behavior
    } else {
        None
    }
}

/// A step that ends the checks with a failure in these words.
pub open spec fn fails_with(step: PreflightStep, text: Seq<char>) -> bool {
    step matches PreflightStep::Finished(Err(PromptError::Message(m))) && m@ == text
}

/// `t` is `s` with one more message in the agent's queue and its text among those that wait, which
/// is announced.
pub open spec fn queued(
    s: SessionModel,
    t: SessionModel,
    text: String,
    images: Seq<ImageContent>,
    now: i64,
    behavior: StreamingBehavior,
) -> bool {
    match behavior {
        StreamingBehavior::Steer => {
            &&& t.agent.steering_queue.len() == s.agent.steering_queue.len() + 1
            &&& is_user_text(t.agent.steering_queue.last(), text@, images, now)
            &&& session::with_announcement(
                SessionModel {
                    steering: s.steering.push(text),
                    agent: AgentModel {
                        steering_queue: s.agent.steering_queue.push(t.agent.steering_queue.last()),
                        ..s.agent
                    },
                    ..s
                },
                t,
            )
        },
        StreamingBehavior::FollowUp => {
            &&& t.agent.follow_up_queue.len() == s.agent.follow_up_queue.len() + 1
            &&& is_user_text(t.agent.follow_up_queue.last(), text@, images, now)
            &&& session::with_announcement(
                SessionModel {
                    follow_up: s.follow_up.push(text),
                    agent: AgentModel {
                        follow_up_queue: s.agent.follow_up_queue.push(
                            t.agent.follow_up_queue.last(),
                        ),
                        ..s.agent
                    },
                    ..s
                },
                t,
            )
        },
    }
}

/// A text that the caller is told where a prompt comes while a run is active and does not say how it
/// waits.
pub open spec fn busy_text() -> Seq<char> {
    "Agent is already processing. Specify streamingBehavior ('steer' or 'followUp') to queue the message."@
}

/// What becomes of an expanded prompt: while a run is active it waits as it says, and without a word
/// on that it is refused; else the checks go on.
pub open spec fn routed(
    s: SessionModel,
    t: SessionModel,
    run: PromptRun,
    now: i64,
    step: PreflightStep,
) -> bool {
    if s.lifecycle.is_agent_run_active {
        match run.streaming_behavior {
            Some(behavior) => step == PreflightStep::Finished(Ok(PreflightOutcome::Queued))
                && queued(s, t, run.text, run.images@, now, behavior),
            None => fails_with(step, busy_text()) && t == s,
        }
    } else {
        step == PreflightStep::FlushBash && t == s
    }
}

/// The messages of a run begin with that of the user, and then come those that waited for it, which
/// wait no longer.
pub open spec fn messages_built(
    s: SessionModel,
    t: SessionModel,
    run: PromptRun,
    after: PromptRun,
    now: i64,
) -> bool {
    &&& after == (PromptRun { messages: after.messages, ..run })
    &&& after.messages@.len() == 1 + s.pending_next_turn.len()
    &&& is_user_text(after.messages@[0], run.text@, run.images@, now)
    &&& after.messages@.skip(1) == s.pending_next_turn
    &&& t == (SessionModel { pending_next_turn: seq![], ..s })
}

/// The messages that extensions put before the user's.
pub open spec fn injected(result: Option<BeforeAgentStartResult>) -> Seq<AgentMessage> {
    match result {
        Some(r) => r.messages@,
        None => seq![],
    }
}

/// A session with what extensions say before a run: their system prompt counts for it.
pub open spec fn start_applied(
    s: SessionModel,
    result: Option<BeforeAgentStartResult>,
) -> SessionModel {
    let prompt = match result {
        Some(r) => session::text_view(r.system_prompt),
        None => None,
    };
    SessionModel {
        prompt_override: prompt,
        agent: AgentModel {
            system_prompt: match prompt {
                Some(p) => p,
                None => s.base_prompt,
            },
            ..s.agent
        },
        ..s
    }
}

/// `t` is `s` with the extension runner told this text.
pub open spec fn runner_told(s: SessionModel, t: SessionModel, text: Seq<char>) -> bool {
    &&& t.outbox.len() == s.outbox.len() + 1
    &&& t.outbox.last() matches Effect::RunnerError(m) && m@ == text
    &&& t == (SessionModel { outbox: s.outbox.push(t.outbox.last()), ..s })
}

impl AgentSession {
    /// Begins the checks before a prompt. `commands` are the names of the registered commands of
    /// extensions.
    pub fn prompt(&self, input: &str, options: PromptOptions, commands: &Vec<String>) -> (r: (
        PromptRun,
        PreflightStep,
    ))
        ensures
            r.0.text@ == input@,
            r.0.images == options.images,
            r.0.streaming_behavior == options.streaming_behavior,
            r.0.source == options.source,
            r.0.expand == options.expand_prompt_templates,
            r.0.messages@.len() == 0,
            match called_command(input@, commands@) {
                Some((name, args)) => if options.expand_prompt_templates {
                    r.1 matches PreflightStep::ExecuteCommand { name: n, args: a } && n@ == name
                        && a@ == args
                } else {
                    asks_input(r.1, self@, r.0)
                },
                None => asks_input(r.1, self@, r.0),
            },
    {
        let run = PromptRun {
            text: input.to_owned(),
            images: options.images,
            streaming_behavior: options.streaming_behavior,
            source: options.source,
            expand: options.expand_prompt_templates,
            messages: Vec::new(),
        };
        if run.expand {
            if let Some((name, args)) = parse_slash_command(input) {
                if extension_runner::has_command(commands, name.as_str()) {
                    return (run, PreflightStep::ExecuteCommand { name, args });
                }
            }
        }
        let step = self.ask_input(&run);
        (run, step)
    }

    fn ask_input(&self, run: &PromptRun) -> (r: PreflightStep)
        ensures
            asks_input(r, self@, *run),
    {
        let source = match &run.source {
            Some(name) => name.clone(),
            None => "interactive".to_owned(),
        };
        let streaming = if self.lifecycle.is_agent_run_active {
            run.streaming_behavior
        } else {
            None
        };
        PreflightStep::TransformInput { source, streaming }
    }

    /// Goes on after the command of an extension: where the extension did not handle it, as with any
    /// other input; where it failed, the runner is told and the prompt counts as handled.
    pub fn try_execute_extension_command(
        &mut self,
        run: &PromptRun,
        name: &str,
        result: Result<bool, ExtensionRunnerError>,
    ) -> (r: PreflightStep)
        ensures
            command_done(old(self)@, final(self)@, *run, name@, result, r),
    {
        match result {
            Ok(true) => PreflightStep::Finished(Ok(PreflightOutcome::Handled)),
            Ok(false) => self.ask_input(run),
            Err(error) => {
                let head = text::concat3("command:", name, ": ");
                let message = text::concat2(head.as_str(), error.message().as_str());
                self.outbox.push(Effect::RunnerError(message));
                PreflightStep::Finished(Ok(PreflightOutcome::Handled))
            },
        }
    }

    /// Goes on after the extensions' answer to the input: what they handled is done; what they put
    /// in place of the text and the images counts from here on.
    pub fn transform_input(&mut self, run: PromptRun, reply: InputReply, now: i64) -> (r: (
        PromptRun,
        PreflightStep,
    ))
        ensures
            input_done(old(self)@, final(self)@, run, reply, now, r.0, r.1),
    {
        let run = match reply {
            InputReply::Failed(error) => {
                let step = PreflightStep::Finished(Err(PromptError::Message(error.message())));
                return (run, step);
            },
            InputReply::NoHandlers => run,
            InputReply::Answered { result, images } => {
                if result.handled {
                    return (run, PreflightStep::Finished(Ok(PreflightOutcome::Handled)));
                }
                let mut run = run;
                if let Some(changed) = result.text {
                    run.text = changed;
                }
                if let Some(changed) = images {
                    run.images = changed;
                }
                run
            },
        };
        if run.expand {
            return (run, PreflightStep::Expand);
        }
        let step = self.route_prompt(&run, now);
        (run, step)
    }

    /// Goes on after the expansion of skills and templates.
    pub fn prompt_expanded(&mut self, run: PromptRun, expanded: String, now: i64) -> (r: (
        PromptRun,
        PreflightStep,
    ))
        ensures
            r.0 == (PromptRun { text: expanded, ..run }),
            routed(old(self)@, final(self)@, r.0, now, r.1),
    {
        let mut run = run;
        run.text = expanded;
        let step = self.route_prompt(&run, now);
        (run, step)
    }

    fn route_prompt(&mut self, run: &PromptRun, now: i64) -> (r: PreflightStep)
        ensures
            routed(old(self)@, final(self)@, *run, now, r),
    {
        if self.lifecycle.is_agent_run_active {
            match run.streaming_behavior {
                None => PreflightStep::Finished(
                    Err(
                        PromptError::Message(
                            "Agent is already processing. Specify streamingBehavior ('steer' or 'followUp') to queue the message.".to_owned(),
                        ),
                    ),
                ),
                Some(behavior) => {
                    self.queue_message(run.text.clone(), &run.images, now, behavior);
                    PreflightStep::Finished(Ok(PreflightOutcome::Queued))
                },
            }
        } else {
            PreflightStep::FlushBash
        }
    }

    fn queue_message(
        &mut self,
        input: String,
        images: &Vec<ImageContent>,
        now: i64,
        behavior: StreamingBehavior,
    )
        ensures
            queued(old(self)@, final(self)@, input, images@, now, behavior),
    {
        let message = user_text(input.as_str(), images, now);
        match behavior {
            StreamingBehavior::Steer => {
                self.agent.steering_queue.push(message);
                self.mirror_steering_push(input);
            },
            StreamingBehavior::FollowUp => {
                self.agent.follow_up_queue.push(message);
                self.mirror_follow_up_push(input);
            },
        }
    }

    /// Goes on once the shell results that waited are stored: without a model there is no run, and
    /// the prompt fails with the host's words for that.
    pub fn prompt_flushed(&self, flushed: Result<(), BashExecError>, no_model_text: String) -> (r:
        PreflightStep)
        ensures
            r == flush_done(self@, flushed, no_model_text),
    {
        if let Err(error) = flushed {
            return PreflightStep::Finished(Err(map_bash_flush_error(error)));
        }
        if is_no_model(&self.agent.model) {
            return PreflightStep::Finished(Err(PromptError::Message(no_model_text)));
        }
        PreflightStep::CheckAuth
    }

    /// Goes on after the look for credentials: without them there is no run; the last answer, where
    /// there is one, is then checked for compaction.
    pub fn auth_checked(&mut self, run: PromptRun, reply: AuthReply, now: i64) -> (r: (
        PromptRun,
        PreflightStep,
    ))
        ensures
            auth_done(old(self)@, final(self)@, run, reply, now, r.0, r.1),
    {
        match reply {
            AuthReply::OauthFailed(text) => (
                run,
                PreflightStep::Finished(Err(PromptError::Message(text))),
            ),
            AuthReply::NoKey(text) => (
                run,
                PreflightStep::Finished(Err(PromptError::Message(text))),
            ),
            _ => match self.last_assistant() {
                Some(message) => (run, PreflightStep::CheckCompaction(message)),
                None => self.build_messages(run, now),
            },
        }
    }

    /// Goes on after the check for compaction: builds the messages of the run.
    pub fn build_messages(&mut self, run: PromptRun, now: i64) -> (r: (PromptRun, PreflightStep))
        ensures
            messages_built(old(self)@, final(self)@, run, r.0, now),
            r.1 == PreflightStep::AskExtensions,
    {
        let mut run = run;
        let ghost before = self@;
        let mut messages: Vec<AgentMessage> = Vec::new();
        messages.push(user_text(run.text.as_str(), &run.images, now));
        let ghost user = messages@[0];
        messages.append(&mut self.pending_next_turn_messages);
        assert(messages@ =~= seq![user] + before.pending_next_turn);
        assert(messages@.skip(1) =~= before.pending_next_turn);
        run.messages = messages;
        (run, PreflightStep::AskExtensions)
    }

    /// Takes the extensions' answer before the run with `messages`: theirs come before these, and the
    /// checks are over.
    pub fn apply_before_agent_start(
        &mut self,
        messages: Vec<AgentMessage>,
        result: Result<Option<BeforeAgentStartResult>, ExtensionRunnerError>,
    ) -> (r: PreflightStep)
        ensures
            match result {
                Err(error) => fails_with(r, error.text()) && final(self)@ == old(self)@,
                Ok(added) => {
                    &&& r matches PreflightStep::Finished(Ok(PreflightOutcome::Run(all)))
                    &&& all@ == injected(added) + messages@
                    &&& final(self)@ == start_applied(old(self)@, added)
                },
            },
    {
        let added = match result {
            Err(error) => {
                return PreflightStep::Finished(Err(PromptError::Message(error.message())));
            },
            Ok(added) => added,
        };
        let (before, system_prompt) = match added {
            None => (Vec::new(), None),
            Some(added) => (added.messages, added.system_prompt),
        };
        self.use_turn_prompt(system_prompt);
        let mut all = before;
        let mut messages = messages;
        all.append(&mut messages);
        PreflightStep::Finished(Ok(PreflightOutcome::Run(all)))
    }

    fn use_turn_prompt(&mut self, prompt: Option<String>)
        ensures
            final(self)@ == (SessionModel {
                prompt_override: session::text_view(prompt),
                agent: AgentModel {
                    system_prompt: match prompt {
                        Some(p) => p@,
                        None => old(self)@.base_prompt,
                    },
                    ..old(self)@.agent
                },
                ..old(self)@
            }),
    {
        match prompt {
            Some(prompt) => {
                self.hooks.set_system_prompt_override(Some(prompt.clone()));
                self.agent.system_prompt = prompt;
            },
            None => {
                self.hooks.set_system_prompt_override(None);
                self.agent.system_prompt = self.hooks.system_prompt.base.clone();
            },
        }
    }

    /// Refuses what calls the command of an extension: it cannot wait.
    fn check_not_extension_command(&self, input: &str, commands: &Vec<String>) -> (r: Result<
        (),
        PromptError,
    >)
        ensures
            match called_command(input@, commands@) {
                Some((name, _)) => refuses_command(r, name),
                None => r is Ok,
            },
    {
        if let Some((name, _)) = parse_slash_command(input) {
            if extension_runner::has_command(commands, name.as_str()) {
                return Err(
                    PromptError::Message(
                        text::concat3(
                            "Extension command \"/",
                            name.as_str(),
                            "\" cannot be queued. Use prompt() or execute the command when not streaming.",
                        ),
                    ),
                );
            }
        }
        Ok(())
    }

    /// Queues a message before the next request to the model. `expanded` is the text with skills and
    /// templates expanded.
    pub fn steer(
        &mut self,
        input: &str,
        expanded: String,
        images: &Vec<ImageContent>,
        commands: &Vec<String>,
        now: i64,
    ) -> (r: Result<(), PromptError>)
        ensures
            match called_command(input@, commands@) {
                Some((name, _)) => refuses_command(r, name) && final(self)@ == old(self)@,
                None => r is Ok && queued(
                    old(self)@,
                    final(self)@,
                    expanded,
                    images@,
                    now,
                    StreamingBehavior::Steer,
                ),
            },
    {
        match self.check_not_extension_command(input, commands) {
            Err(error) => Err(error),
            Ok(_) => {
                self.queue_message(expanded, images, now, StreamingBehavior::Steer);
                Ok(())
            },
        }
    }

    /// Queues a message after the run. `expanded` is the text with skills and templates expanded.
    pub fn follow_up(
        &mut self,
        input: &str,
        expanded: String,
        images: &Vec<ImageContent>,
        commands: &Vec<String>,
        now: i64,
    ) -> (r: Result<(), PromptError>)
        ensures
            match called_command(input@, commands@) {
                Some((name, _)) => refuses_command(r, name) && final(self)@ == old(self)@,
                None => r is Ok && queued(
                    old(self)@,
                    final(self)@,
                    expanded,
                    images@,
                    now,
                    StreamingBehavior::FollowUp,
                ),
            },
    {
        match self.check_not_extension_command(input, commands) {
            Err(error) => Err(error),
            Ok(_) => {
                self.queue_message(expanded, images, now, StreamingBehavior::FollowUp);
                Ok(())
            },
        }
    }
}

/// A message that calls the command of an extension is refused.
pub open spec fn refuses_command(r: Result<(), PromptError>, name: Seq<char>) -> bool {
    r matches Err(PromptError::Message(m)) && m@ == "Extension command \"/"@ + name
        + "\" cannot be queued. Use prompt() or execute the command when not streaming."@
}

/// What becomes of an input that the extensions did not handle: it is expanded where it is to be.
pub open spec fn input_taken(
    s: SessionModel,
    t: SessionModel,
    run: PromptRun,
    now: i64,
    step: PreflightStep,
) -> bool {
    if run.expand {
        step == PreflightStep::Expand && t == s
    } else {
        routed(s, t, run, now, step)
    }
}

/// Whether the caller of a prompt is told that it was accepted: once, at the end of the checks, and
/// just where they did not fail.
pub fn preflight_result(outcome: &Result<PreflightOutcome, PromptError>) -> (r: bool)
    ensures
        r == (outcome is Ok),
{
    outcome.is_ok()
}

/// The members of a custom message, where `content` is its content as JSON.
pub open spec fn custom_members(m: CustomMessageInput, content: Json, now: i64) -> Seq<
    (Seq<char>, Json),
> {
    seq![
        ("customType"@, Json::Text(m.custom_type)),
        ("content"@, content),
        ("display"@, Json::Bool(m.display)),
    ] + (match m.details {
        Some(details) => seq![("details"@, details)],
        None => seq![],
    }) + seq![("timestamp"@, Json::Integer(now as i128))]
}

/// `message` is the transcript message of a message of an extension.
pub open spec fn is_custom_message(
    message: AgentMessage,
    m: CustomMessageInput,
    content: Json,
    now: i64,
) -> bool {
    message matches AgentMessage::Custom(c) && c.role@ == "custom"@ && json::keyed(c.payload@)
        == custom_members(m, content, now)
}

/// The transcript message of a message of an extension, where `content` is its content as JSON.
pub fn build_custom_agent_message(message: &CustomMessageInput, content: Json, now: i64) -> (r:
    AgentMessage)
    ensures
        is_custom_message(r, *message, content, now),
{
    let mut payload: Vec<(String, Json)> = Vec::new();
    assert(json::keyed(payload@) =~= seq![]);
    json::push_member(&mut payload, "customType", Json::Text(message.custom_type.clone()));
    json::push_member(&mut payload, "content", content);
    json::push_member(&mut payload, "display", Json::Bool(message.display));
    if let Some(details) = &message.details {
        json::push_member(&mut payload, "details", details.clone());
    }
    json::push_member(&mut payload, "timestamp", Json::Integer(now as i128));
    assert(json::keyed(payload@) =~= custom_members(*message, content, now));
    AgentMessage::Custom(
        CustomAgentMessage { role: "custom".to_owned(), payload: Arc::new(payload) },
    )
}

/// What is to be done next with a message of an extension.
#[derive(Debug, PartialEq)]
pub enum CustomDelivery {
    /// Nothing: it waits.
    Waits,
    /// The agent runs with it.
    Run(Vec<AgentMessage>),
    /// It is stored, and then [`AgentSession::custom_message_stored`] goes on.
    Store(AgentMessage),
}

/// What becomes of a message of an extension: it waits for the next prompt where it says so; while a
/// run is active it joins one of the agent's queues; else the agent runs with it where it is to, and
/// otherwise it is stored.
pub open spec fn delivered(
    s: SessionModel,
    t: SessionModel,
    message: AgentMessage,
    trigger_turn: bool,
    deliver_as: Option<DeliverAs>,
    r: CustomDelivery,
) -> bool {
    if deliver_as == Some(DeliverAs::NextTurn) {
        &&& r == CustomDelivery::Waits
        &&& t == (SessionModel { pending_next_turn: s.pending_next_turn.push(message), ..s })
    } else if s.lifecycle.is_agent_run_active {
        &&& r == CustomDelivery::Waits
        &&& t == (SessionModel {
            agent: if deliver_as == Some(DeliverAs::FollowUp) {
                AgentModel { follow_up_queue: s.agent.follow_up_queue.push(message), ..s.agent }
            } else {
                AgentModel { steering_queue: s.agent.steering_queue.push(message), ..s.agent }
            },
            ..s
        })
    } else if trigger_turn {
        &&& r matches CustomDelivery::Run(messages) && messages@ == seq![message]
        &&& t == s
    } else {
        &&& r == CustomDelivery::Store(message)
        &&& t == s
    }
}

impl AgentSession {
    /// Sends a message of an extension, where `content` is its content as JSON.
    pub fn send_custom_message(
        &mut self,
        message: &CustomMessageInput,
        content: Json,
        trigger_turn: bool,
        deliver_as: Option<DeliverAs>,
        now: i64,
    ) -> (r: CustomDelivery)
        ensures
            exists|m: AgentMessage| #[trigger]
                is_custom_message(m, *message, content, now) && delivered(
                    old(self)@,
                    final(self)@,
                    m,
                    trigger_turn,
                    deliver_as,
                    r,
                ),
    {
        let app_message = build_custom_agent_message(message, content, now);
        let ghost m = app_message;
        assert(is_custom_message(m, *message, content, now));
        self.deliver_message(app_message, trigger_turn, deliver_as)
    }

    fn deliver_message(
        &mut self,
        message: AgentMessage,
        trigger_turn: bool,
        deliver_as: Option<DeliverAs>,
    ) -> (r: CustomDelivery)
        ensures
            delivered(old(self)@, final(self)@, message, trigger_turn, deliver_as, r),
    {
        if let Some(DeliverAs::NextTurn) = deliver_as {
            self.pending_next_turn_messages.push(message);
            return CustomDelivery::Waits;
        }
        if self.lifecycle.is_agent_run_active {
            if let Some(DeliverAs::FollowUp) = deliver_as {
                self.agent.follow_up_queue.push(message);
            } else {
                self.agent.steering_queue.push(message);
            }
            return CustomDelivery::Waits;
        }
        if trigger_turn {
            let mut messages: Vec<AgentMessage> = Vec::new();
            messages.push(message);
            assert(messages@ =~= seq![message]);
            return CustomDelivery::Run(messages);
        }
        CustomDelivery::Store(message)
    }

    /// Takes the answer of the storage for a message of an extension: only what is stored joins the
    /// transcript and is told.
    pub fn custom_message_stored(
        &mut self,
        message: AgentMessage,
        stored: Result<(), SessionError>,
    ) -> (r: Result<(), PromptError>)
        ensures
            match stored {
                Ok(_) => r is Ok && final(self)@ == SessionModel {
                    agent: AgentModel {
                        transcript: old(self)@.agent.transcript.push(message),
                        ..old(self)@.agent
                    },
                    ..old(self)@
                }.put(Effect::Emit(AgentSessionEvent::MessageStart { message })).put(
                    Effect::Emit(AgentSessionEvent::MessageEnd { message }),
                ),
                Err(error) => r == Err::<(), PromptError>(PromptError::Session(error)) && final(self)@ == old(self)@,
            },
    {
        match stored {
            Err(error) => Err(PromptError::Session(error)),
            Ok(_) => {
                self.agent.transcript.push(message.clone());
                self.emit_public(AgentSessionEvent::MessageStart { message: message.clone() });
                self.emit_public(AgentSessionEvent::MessageEnd { message });
                Ok(())
            },
        }
    }
}

/// How a message that an extension sends in the user's name is prompted: nothing in it is expanded,
/// and while a run is active it waits as it says.
pub fn send_user_message(images: Vec<ImageContent>, deliver_as: Option<DeliverAs>) -> (r:
    PromptOptions)
    ensures
        r.images == images,
        r.streaming_behavior == match deliver_as {
            Some(DeliverAs::FollowUp) => Some(StreamingBehavior::FollowUp),
            Some(_) => Some(StreamingBehavior::Steer),
            None => None,
        },
        r.source matches Some(source) && source@ == "extension"@,
        !r.expand_prompt_templates,
{
    let streaming_behavior = match deliver_as {
        Some(DeliverAs::FollowUp) => Some(StreamingBehavior::FollowUp),
        Some(DeliverAs::Steer) | Some(DeliverAs::NextTurn) => Some(StreamingBehavior::Steer),
        None => None,
    };
    PromptOptions {
        images,
        streaming_behavior,
        source: Some("extension".to_owned()),
        expand_prompt_templates: false,
    }
}

/// What is to be done next for a run.
#[derive(Debug, PartialEq)]
pub enum RunStep {
    /// The agent runs with these messages.
    Prompt(Vec<AgentMessage>),
    /// The agent goes on with the transcript.
    Continue,
    /// The retry is waited for.
    WaitRetry { message: AssistantMessage, delay_ms: u64 },
    /// The answer is checked for compaction, which is done where it is due.
    CheckCompaction(AssistantMessage),
    /// The shell results that wait are stored, and then [`AgentSession::finish_run`] ends the run
    /// with this result.
    Finish(Result<(), PromptError>),
}

/// How the processing of a run's end is waited for.
#[derive(Clone, Copy, Debug, PartialEq, Eq, Structural)]
pub enum EndBarrier {
    /// Until it is processed.
    Required,
    /// For a moment at most.
    Bounded,
    /// Not at all.
    Skipped,
}

/// How the end of a run is waited for: that of a run that succeeded must be processed; that of one
/// that failed comes at once, where it comes.
pub fn observe_run_agent_end(run: &Result<(), AgentLoopError>) -> (r: EndBarrier)
    ensures
        r == if run is Ok {
            EndBarrier::Required
        } else if end_is_told(*run) {
            EndBarrier::Bounded
        } else {
            EndBarrier::Skipped
        },
{
    if run.is_ok() {
        return EndBarrier::Required;
    }
    if run_emits_agent_end(run) {
        EndBarrier::Bounded
    } else {
        EndBarrier::Skipped
    }
}

/// Where a run stands.
#[derive(Clone, Copy, Debug, PartialEq, Eq, Structural)]
pub struct RunProgress {
    /// The answers in the transcript that were taken care of.
    pub processed_count: usize,
    /// The runs whose end was processed.
    pub processed_agent_ends: u64,
}

/// The answer of a run that was not taken care of yet.
pub open spec fn new_answer(s: SessionModel, progress: RunProgress) -> Option<AssistantMessage> {
    if session::assistants_in(s.agent.transcript) > progress.processed_count {
        session::last_assistant_in(s.agent.transcript)
    } else {
        None
    }
}

/// `t` is `s` after an answer that is not tried again: where it failed after retries, their end is
/// told.
pub open spec fn retries_ended(s: SessionModel, t: SessionModel, m: AssistantMessage) -> bool {
    if m.stop_reason == crate::messages::StopReason::Error && s.counters.retry_attempt > 0 {
        retry::with_retry_end(
            retry::no_longer_retrying(s),
            t,
            false,
            s.counters.retry_attempt,
            session::text_view(m.error_message),
        )
    } else {
        t == s
    }
}

/// What follows an answer: a retry where it may pass and one is allowed, and else the check for
/// compaction; without a new answer the run is over.
pub open spec fn answer_handled(
    s: SessionModel,
    t: SessionModel,
    progress: RunProgress,
    token: CancelToken,
    step: RunStep,
) -> bool {
    match new_answer(s, progress) {
        None => t == s && step == RunStep::Finish(Ok(())),
        Some(m) => if retry::session_retries(m, s.agent.model.context_window) && retry::may_retry(
            s,
        ) {
            &&& retry::retry_begun(s, t, m, token)
            &&& step == (RunStep::WaitRetry { message: m, delay_ms: retry::next_delay(s) })
        } else {
            retries_ended(s, t, m) && step == RunStep::CheckCompaction(m)
        },
    }
}

/// A session at the start of a run: all messages that waited for it are among its messages.
pub open spec fn run_begun(s: SessionModel) -> SessionModel {
    session::run_started(SessionModel { pending_next_turn: seq![], ..s })
}

/// A session at the end of a run: the prompt of the turn is gone, the failure of the storage is told
/// the caller, and the session is settled.
pub open spec fn run_finished(s: SessionModel) -> SessionModel {
    SessionModel { error: None, ..session::settled(SessionModel { prompt_override: None, ..s }) }
}

/// What a run comes to: a failure of the storage, or else of the flush, or else its own result.
pub open spec fn run_result(
    error: Option<SessionError>,
    flushed: Result<(), BashExecError>,
    result: Result<(), PromptError>,
) -> Result<(), PromptError> {
    match error {
        Some(e) => Err(PromptError::Session(e)),
        None => match flushed {
            Err(e) => Err(flush_failure(e)),
            Ok(_) => result,
        },
    }
}

impl AgentSession {
    /// Begins a run with messages.
    pub fn run_agent_prompt(&mut self, messages: Vec<AgentMessage>) -> (r: (RunProgress, RunStep))
        ensures
            final(self)@ == run_begun(old(self)@),
            r.0.processed_count == session::assistants_in(old(self)@.agent.transcript),
            r.0.processed_agent_ends == old(self)@.counters.processed_agent_ends,
            r.1 matches RunStep::Prompt(all) && all@ == messages@ + old(self)@.pending_next_turn,
    {
        self.mark_agent_run_active();
        let mut all = messages;
        all.append(&mut self.pending_next_turn_messages);
        let progress = RunProgress {
            processed_count: self.assistant_count(),
            processed_agent_ends: self.counters.processed_agent_ends,
        };
        (progress, RunStep::Prompt(all))
    }

    /// Goes on after a run of the agent. `end_seen` says whether the end of the run was processed;
    /// `token` cancels the wait for a retry.
    pub fn run_ended(
        &mut self,
        progress: RunProgress,
        run: Result<(), AgentLoopError>,
        end_seen: bool,
        token: CancelToken,
    ) -> (r: (RunProgress, RunStep))
        ensures
            ({
                let s = old(self)@;
                let cleared = SessionModel { error: None, ..s };
                if run is Ok && !end_seen {
                    &&& r.0 == progress
                    &&& r.1 matches RunStep::Finish(Err(PromptError::Message(m))) && m@
                        == "Agent event pump disconnected before agent_end"@
                    &&& final(self)@ == s
                } else {
                    match (s.error, run) {
                        (Some(error), _) => {
                            &&& r.0 == progress
                            &&& r.1 == RunStep::Finish(Err(PromptError::Session(error)))
                            &&& final(self)@ == cleared
                        },
                        (None, Err(error)) => {
                            &&& r.0 == progress
                            &&& r.1 == RunStep::Finish(Err(PromptError::Agent(error)))
                            &&& final(self)@ == cleared
                        },
                        (None, Ok(_)) => {
                            &&& r.0 == (RunProgress {
                                processed_agent_ends: s.counters.processed_agent_ends,
                                ..progress
                            })
                            &&& answer_handled(cleared, final(self)@, progress, token, r.1)
                        },
                    }
                }
            }),
    {
        if run.is_ok() && !end_seen {
            let error = PromptError::Message(
                "Agent event pump disconnected before agent_end".to_owned(),
            );
            return (progress, RunStep::Finish(Err(error)));
        }
        if let Some(error) = self.take_session_error() {
            return (progress, RunStep::Finish(Err(PromptError::Session(error))));
        }
        if let Err(error) = run {
            return (progress, RunStep::Finish(Err(PromptError::Agent(error))));
        }
        let now = RunProgress {
            processed_count: progress.processed_count,
            processed_agent_ends: self.counters.processed_agent_ends,
        };
        let step = self.handle_post_agent_run(progress, token);
        (now, step)
    }

    fn handle_post_agent_run(&mut self, progress: RunProgress, token: CancelToken) -> (r: RunStep)
        ensures
            answer_handled(old(self)@, final(self)@, progress, token, r),
    {
        let count: usize = self.assistant_count();
        if count <= progress.processed_count {
            return RunStep::Finish(Ok(()));
        }
        match self.last_assistant() {
            None => RunStep::Finish(Ok(())),
            Some(message) => {
                if self.is_retryable_error(&message) {
                    if let Some(delay_ms) = self.prepare_retry(&message, token) {
                        return RunStep::WaitRetry { message, delay_ms };
                    }
                }
                self.emit_retry_exhausted(&message);
                RunStep::CheckCompaction(message)
            },
        }
    }

    /// Goes on after the wait for a retry: where it was not cancelled the agent tries again, and
    /// else the answer is checked for compaction.
    pub fn retry_waited(
        &mut self,
        progress: RunProgress,
        message: AssistantMessage,
        cancelled: bool,
    ) -> (r: (RunProgress, RunStep))
        ensures
            ({
                let s = old(self)@;
                let cleared = SessionModel {
                    slots: session::AbortSlots { retry: None, ..s.slots },
                    ..s
                };
                if cancelled {
                    &&& r == (progress, RunStep::CheckCompaction(message))
                    &&& retry::with_retry_end(
                        retry::no_longer_retrying(cleared),
                        final(self)@,
                        false,
                        s.counters.retry_attempt,
                        Some("Retry cancelled"@),
                    )
                } else {
                    &&& r.0.processed_count == session::assistants_in(s.agent.transcript)
                    &&& r.0.processed_agent_ends == progress.processed_agent_ends
                    &&& r.1 == RunStep::Continue
                    &&& final(self)@ == cleared
                }
            }),
    {
        if self.retry_wait_ended(cancelled) {
            self.continue_run(progress)
        } else {
            self.emit_retry_exhausted(&message);
            (progress, RunStep::CheckCompaction(message))
        }
    }

    /// Lets the agent go on with the transcript as it is now.
    fn continue_run(&self, progress: RunProgress) -> (r: (RunProgress, RunStep))
        ensures
            r.0.processed_count == session::assistants_in(self@.agent.transcript),
            r.0.processed_agent_ends == progress.processed_agent_ends,
            r.1 == RunStep::Continue,
    {
        let progress = RunProgress {
            processed_count: self.assistant_count(),
            processed_agent_ends: progress.processed_agent_ends,
        };
        (progress, RunStep::Continue)
    }

    /// Goes on after the check for compaction: the agent goes on where a compaction asks for it or
    /// messages wait, and else the run is over.
    pub fn run_compaction_checked(&self, progress: RunProgress, go_on: bool) -> (r: (
        RunProgress,
        RunStep,
    ))
        ensures
            if go_on || self@.agent.has_queued() {
                &&& r.0.processed_count == session::assistants_in(self@.agent.transcript)
                &&& r.0.processed_agent_ends == progress.processed_agent_ends
                &&& r.1 == RunStep::Continue
            } else {
                r == (progress, RunStep::Finish(Ok(())))
            },
    {
        if go_on || self.has_queued_messages() {
            self.continue_run(progress)
        } else {
            (progress, RunStep::Finish(Ok(())))
        }
    }

    /// Ends a run with its result, once the shell results that waited are stored.
    pub fn finish_run(
        &mut self,
        result: Result<(), PromptError>,
        flushed: Result<(), BashExecError>,
    ) -> (r: Result<(), PromptError>)
        ensures
            final(self)@ == run_finished(old(self)@),
            r == run_result(old(self)@.error, flushed, result),
    {
        self.hooks.set_system_prompt_override(None);
        self.emit_agent_settled();
        if let Some(error) = self.take_session_error() {
            return Err(PromptError::Session(error));
        }
        match flushed {
            Err(error) => Err(map_bash_flush_error(error)),
            Ok(_) => result,
        }
    }
}

/// What follows the command of an extension.
pub open spec fn command_done(
    s: SessionModel,
    t: SessionModel,
    run: PromptRun,
    name: Seq<char>,
    result: Result<bool, ExtensionRunnerError>,
    step: PreflightStep,
) -> bool {
    match result {
        Ok(true) => step == PreflightStep::Finished(Ok(PreflightOutcome::Handled)) && t == s,
        Ok(false) => asks_input(step, s, run) && t == s,
        Err(error) => step == PreflightStep::Finished(Ok(PreflightOutcome::Handled)) && runner_told(
            s,
            t,
            "command:"@ + name + ": "@ + error.text(),
        ),
    }
}

/// What follows the extensions' answer to the input.
pub open spec fn input_done(
    s: SessionModel,
    t: SessionModel,
    run: PromptRun,
    reply: InputReply,
    now: i64,
    after: PromptRun,
    step: PreflightStep,
) -> bool {
    match reply {
        InputReply::Failed(error) => fails_with(step, error.text()) && after == run && t == s,
        InputReply::Answered { result, images } => if result.handled {
            step == PreflightStep::Finished(Ok(PreflightOutcome::Handled)) && after == run && t == s
        } else {
            &&& after == PromptRun {
                text: match result.text {
                    Some(changed) => changed,
                    None => run.text,
                },
                images: match images {
                    Some(changed) => changed,
                    None => run.images,
                },
                ..run
            }
            &&& input_taken(s, t, after, now, step)
        },
        InputReply::NoHandlers => after == run && input_taken(s, t, after, now, step),
    }
}

/// What follows the flush of shell results.
pub open spec fn flush_done(
    s: SessionModel,
    flushed: Result<(), BashExecError>,
    no_model_text: String,
) -> PreflightStep {
    match flushed {
        Err(error) => PreflightStep::Finished(Err(flush_failure(error))),
        Ok(_) => if no_model(s.agent.model) {
            PreflightStep::Finished(Err(PromptError::Message(no_model_text)))
        } else {
            PreflightStep::CheckAuth
        },
    }
}

/// What follows the look for credentials.
pub open spec fn auth_done(
    s: SessionModel,
    t: SessionModel,
    run: PromptRun,
    reply: AuthReply,
    now: i64,
    after: PromptRun,
    step: PreflightStep,
) -> bool {
    match reply {
        AuthReply::OauthFailed(text) => after == run && t == s && step == PreflightStep::Finished(
            Err(PromptError::Message(text)),
        ),
        AuthReply::NoKey(text) => after == run && t == s && step == PreflightStep::Finished(
            Err(PromptError::Message(text)),
        ),
        _ => match session::last_assistant_in(s.agent.transcript) {
            Some(m) => after == run && t == s && step == PreflightStep::CheckCompaction(m),
            None => step == PreflightStep::AskExtensions && messages_built(s, t, run, after, now),
        },
    }
}

/// What follows the extensions' answer before the run.
pub open spec fn answer_done(
    s: SessionModel,
    t: SessionModel,
    run: PromptRun,
    result: Result<Option<BeforeAgentStartResult>, ExtensionRunnerError>,
    step: PreflightStep,
) -> bool {
    match result {
        Err(error) => fails_with(step, error.text()) && t == s,
        Ok(added) => {
            &&& step matches PreflightStep::Finished(Ok(PreflightOutcome::Run(messages)))
            &&& messages@ == injected(added) + run.messages@
            &&& t == start_applied(s, added)
        },
    }
}

/// What follows a reply before a prompt: the session, the prompt and the step after it.
pub open spec fn preflight_advanced(
    s: SessionModel,
    t: SessionModel,
    run: PromptRun,
    reply: PreflightReply,
    now: i64,
    after: PromptRun,
    step: PreflightStep,
) -> bool {
    match reply {
        PreflightReply::CommandExecuted { name, result } => after == run && command_done(
            s,
            t,
            run,
            name@,
            result,
            step,
        ),
        PreflightReply::InputTransformed(answer) => input_done(s, t, run, answer, now, after, step),
        PreflightReply::Expanded(expanded) => after == (PromptRun { text: expanded, ..run })
            && routed(s, t, after, now, step),
        PreflightReply::Flushed { result, no_model_text } => after == run && t == s && step
            == flush_done(s, result, no_model_text),
        PreflightReply::AuthChecked(found) => auth_done(s, t, run, found, now, after, step),
        PreflightReply::CompactionChecked => step == PreflightStep::AskExtensions && messages_built(
            s,
            t,
            run,
            after,
            now,
        ),
        PreflightReply::ExtensionsAnswered(result) => after == (PromptRun {
            messages: after.messages,
            ..run
        }) && after.messages@.len() == 0 && answer_done(s, t, run, result, step),
    }
}

/// What came of a step before a prompt.
#[allow(inconsistent_fields)]
#[derive(Debug, PartialEq)]
pub enum PreflightReply {
    /// What came of the command of an extension with this name.
    CommandExecuted { name: String, result: Result<bool, ExtensionRunnerError> },
    /// What the extensions made of the input.
    InputTransformed(InputReply),
    /// The text with skills and templates expanded.
    Expanded(String),
    /// Whether the shell results that waited are stored, and the host's words for a prompt without a
    /// model.
    Flushed { result: Result<(), BashExecError>, no_model_text: String },
    /// What was found of the credentials.
    AuthChecked(AuthReply),
    /// The last answer was checked for compaction.
    CompactionChecked,
    /// What the extensions add to the run.
    ExtensionsAnswered(Result<Option<BeforeAgentStartResult>, ExtensionRunnerError>),
}

impl AgentSession {
    /// Goes on with the checks before a prompt, after the step that `reply` is the reply to.
    pub fn prompt_preflight(&mut self, run: PromptRun, reply: PreflightReply, now: i64) -> (r: (
        PromptRun,
        PreflightStep,
    ))
        ensures
            preflight_advanced(old(self)@, final(self)@, run, reply, now, r.0, r.1),
    {
        match reply {
            PreflightReply::CommandExecuted { name, result } => {
                let step = self.try_execute_extension_command(&run, name.as_str(), result);
                (run, step)
            },
            PreflightReply::InputTransformed(answer) => self.transform_input(run, answer, now),
            PreflightReply::Expanded(expanded) => self.prompt_expanded(run, expanded, now),
            PreflightReply::Flushed { result, no_model_text } => {
                let step = self.prompt_flushed(result, no_model_text);
                (run, step)
            },
            PreflightReply::AuthChecked(found) => self.auth_checked(run, found, now),
            PreflightReply::CompactionChecked => self.build_messages(run, now),
            PreflightReply::ExtensionsAnswered(result) => {
                let mut run = run;
                let ghost built = run.messages@;
                let mut messages: Vec<AgentMessage> = Vec::new();
                messages.append(&mut run.messages);
                assert(messages@ =~= built);
                let step = self.apply_before_agent_start(messages, result);
                (run, step)
            },
        }
    }
}

/// The messages of a run are those that extensions put before the user's, that of the user, and
/// those that waited for it, in this order: none is lost, none comes twice, and none is left waiting.
pub proof fn law_run_takes_all_that_waits(
    s: SessionModel,
    built: SessionModel,
    run: PromptRun,
    ready: PromptRun,
    now: i64,
    added: Option<BeforeAgentStartResult>,
    answered: SessionModel,
    step: PreflightStep,
)
    requires
        messages_built(s, built, run, ready, now),
        answer_done(built, answered, ready, Ok(added), step),
    ensures
        step matches PreflightStep::Finished(Ok(PreflightOutcome::Run(messages))) && messages@
            + answered.pending_next_turn == injected(added) + seq![ready.messages@[0]]
            + s.pending_next_turn,
        is_user_text(ready.messages@[0], run.text@, run.images@, now),
        run_begun(answered).pending_next_turn.len() == 0,
{
    assert(ready.messages@ =~= seq![ready.messages@[0]] + ready.messages@.skip(1));
    if let PreflightStep::Finished(Ok(PreflightOutcome::Run(messages))) = step {
        assert(messages@ + answered.pending_next_turn =~= injected(added) + seq![
            ready.messages@[0],
        ] + s.pending_next_turn);
    }
}

/// Whatever a run comes to, it is told settled once at its end, and no prompt of the turn and no
/// failure of the storage is left for the next one.
pub proof fn law_run_settles_once(s: SessionModel)
    requires
        s.lifecycle.is_agent_run_active,
    ensures
        session::settle_count(run_finished(s).outbox) == session::settle_count(s.outbox) + 1,
        !run_finished(s).lifecycle.is_agent_run_active,
        run_finished(s).prompt_override is None,
        run_finished(s).error is None,
        session::settle_count(run_finished(run_finished(s)).outbox) == session::settle_count(
            s.outbox,
        ) + 1,
{
    session::law_settled_once_per_run(SessionModel { prompt_override: None, ..s });
}

// ---------------------------------------------------------------------------
// What the operations promise
// ---------------------------------------------------------------------------

proof fn lemma_name_end_at(input: Seq<char>, from: int, end: int)
    requires
        0 <= from <= end <= input.len(),
        forall|i: int| from <= i < end ==> #[trigger] input[i] != ' ',
        end < input.len() ==> input[end] == ' ',
    ensures
        name_end(input, from) == end,
    decreases end - from,
{
    if from < end {
        assert(input[from] != ' ');
        lemma_name_end_at(input, from + 1, end);
    }
}

/// A slash, a name without spaces and, behind one space, anything: such an input is read as the
/// command of that name with that behind it. Without a slash at its beginning it is no command.
pub proof fn law_slash_commands_are_read(
    input: &str,
    name: Seq<char>,
    args: Seq<char>,
    r: Option<(String, String)>,
)
    requires
        call_ensures(parse_slash_command, (input,), r),
    ensures
        input@.len() == 0 || input@[0] != '/' ==> r is None,
        !name.contains(' ') && input@ == seq!['/'] + name + seq![' '] + args ==> (r
            matches Some((n, a)) && n@ == name && a@ == args),
        !name.contains(' ') && input@ == seq!['/'] + name ==> (r matches Some((n, a)) && n@ == name
            && a@.len() == 0),
{
    if !name.contains(' ') {
        let s = seq!['/'] + name + seq![' '] + args;
        let b = seq!['/'] + name;
        assert forall|i: int| 0 <= i < name.len() implies #[trigger] name[i] != ' ' by {
            assert(name.contains(name[i]));
        }
        assert forall|i: int| 1 <= i < name.len() + 1 implies #[trigger] s[i] != ' ' by {
            assert(s[i] == name[i - 1]);
        }
        assert forall|i: int| 1 <= i < name.len() + 1 implies #[trigger] b[i] != ' ' by {
            assert(b[i] == name[i - 1]);
        }
        lemma_name_end_at(s, 1, name.len() as int + 1);
        lemma_name_end_at(b, 1, name.len() as int + 1);
        assert(s.subrange(1, name.len() as int + 1) =~= name);
        assert(b.subrange(1, name.len() as int + 1) =~= name);
        assert(s.skip(name.len() as int + 2) =~= args);
    }
}

/// The end of a run is told, unless the run was refused before it began: because another one runs, or
/// because there is nothing to go on from.
pub proof fn law_refused_runs_tell_no_end(run: &Result<(), AgentLoopError>, told: bool)
    requires
        call_ensures(run_emits_agent_end, (run,), told),
    ensures
        *run is Ok ==> told,
        *run matches Err(AgentLoopError::Message(m)) ==> (told <==> m@ != "agent is already running"@
            && m@ != "No messages to continue from"@ && !text::begins_with(
            m@,
            "Cannot continue from message role"@,
        )),
{
}

/// The processing of a run's end is waited for where the run succeeded, for a moment where it failed
/// and its end is told, and not at all where it was refused.
pub proof fn law_the_end_of_a_good_run_is_waited_for(
    run: &Result<(), AgentLoopError>,
    told: bool,
    barrier: EndBarrier,
)
    requires
        call_ensures(run_emits_agent_end, (run,), told),
        call_ensures(observe_run_agent_end, (run,), barrier),
    ensures
        *run is Ok ==> barrier == EndBarrier::Required,
        *run is Err && told ==> barrier == EndBarrier::Bounded,
        *run is Err && !told ==> barrier == EndBarrier::Skipped,
{
}

/// The message of a user holds the text first and then each image, in their order, at its time; and
/// its text is read back from it.
pub proof fn law_a_user_message_holds_text_and_images(
    input: &str,
    images: &Vec<ImageContent>,
    now: i64,
    i: int,
    message: AgentMessage,
    read: String,
)
    requires
        call_ensures(user_text, (input, images, now), message),
        call_ensures(persistence::user_message_text, (&message,), read),
    ensures
        read@ == input@,
        message matches AgentMessage::Llm(Message::User(u)) && u.timestamp == now && (u.content
            matches UserMessageContent::Blocks(b) && b@.len() == images@.len() + 1 && (b@[0]
            matches UserContent::Text(t) && t@ == input@) && (0 <= i < images@.len() ==> b@[i + 1]
            == UserContent::Image(images@[i]))),
{
    law_user_text_reads_back(message, input@, images@, now);
    if let AgentMessage::Llm(Message::User(u)) = message {
        if let UserMessageContent::Blocks(b) = u.content {
            if 0 <= i < images@.len() {
                assert(b@.skip(1)[i] == image_blocks(images@)[i]);
            }
        }
    }
}

proof fn lemma_skill_at(skills: Seq<Skill>, name: Seq<char>, from: int, i: int)
    requires
        0 <= from <= i < skills.len(),
        skills[i].name@ == name,
        forall|k: int| from <= k < i ==> (#[trigger] skills[k]).name@ != name,
    ensures
        skill_position(skills, name, from) == i,
    decreases i - from,
{
    if from < i {
        assert(skills[from].name@ != name);
        lemma_skill_at(skills, name, from + 1, i);
    }
}

proof fn lemma_skill_missing(skills: Seq<Skill>, name: Seq<char>, from: int)
    requires
        0 <= from <= skills.len(),
        forall|k: int| from <= k < skills.len() ==> (#[trigger] skills[k]).name@ != name,
    ensures
        skill_position(skills, name, from) == skills.len(),
    decreases skills.len() - from,
{
    if from < skills.len() {
        assert(skills[from].name@ != name);
        lemma_skill_missing(skills, name, from + 1);
    }
}

/// An input that is no skill command, or names a skill that the session does not have, finds none and
/// stays as it is.
pub proof fn law_unknown_skills_stay(
    session: &AgentSession,
    input: &str,
    content: Option<&str>,
    name: Seq<char>,
    args: Seq<char>,
    found: Option<SkillUse>,
    expanded: String,
)
    requires
        call_ensures(AgentSession::find_skill_command, (session, input), found),
        call_ensures(AgentSession::expand_skill_command, (session, input, content), expanded),
    ensures
        !text::begins_with(input@, "/skill:"@) ==> found is None && expanded@ == input@,
        (input@ == "/skill:"@ + name + seq![' '] + args && !name.contains(' ') && forall|k: int|
            0 <= k < session@.skills.len() ==> (#[trigger] session@.skills[k]).name@ != name)
            ==> found is None && expanded@ == input@,
        content is None ==> expanded@ == input@,
{
    let s = "/skill:"@ + name + seq![' '] + args;
    if input@ == s && !name.contains(' ') {
        lemma_skill_input(name, args);
        if forall|k: int|
            0 <= k < session@.skills.len() ==> (#[trigger] session@.skills[k]).name@ != name {
            lemma_skill_missing(session@.skills, name, 0);
        }
    }
}

proof fn lemma_skill_input(name: Seq<char>, args: Seq<char>)
    requires
        !name.contains(' '),
    ensures
        skill_parts("/skill:"@ + name + seq![' '] + args) == Some((name, text::trimmed(args))),
        skill_parts("/skill:"@ + name) == Some((name, Seq::<char>::empty())),
{
    reveal_strlit("/skill:");
    let mark = "/skill:"@;
    assert(mark.len() == 7);
    let s = mark + name + seq![' '] + args;
    let b = mark + name;
    assert(s.subrange(0, 7) =~= mark);
    assert(b.subrange(0, 7) =~= mark);
    assert forall|i: int| 0 <= i < name.len() implies #[trigger] name[i] != ' ' by {
        assert(name.contains(name[i]));
    }
    let end = 7 + name.len() as int;
    assert forall|i: int| 7 <= i < end implies #[trigger] s[i] != ' ' by {
        assert(s[i] == name[i - 7]);
    }
    assert forall|i: int| 7 <= i < end implies #[trigger] b[i] != ' ' by {
        assert(b[i] == name[i - 7]);
    }
    lemma_name_end_at(s, 7, end);
    lemma_name_end_at(b, 7, end);
    assert(s.subrange(7, end) =~= name);
    assert(b.subrange(7, end) =~= name);
    assert(s.skip(end + 1) =~= args);
}

/// A skill command finds the first skill of its name. What it puts in place of the command tells the
/// skill's name, its file and its directory, holds the text of the file without white space around
/// it, and ends with what was behind the name, where there is anything.
pub proof fn law_a_skill_is_found_and_put_in_place(
    session: &AgentSession,
    input: &str,
    body: &str,
    args_text: &str,
    name: Seq<char>,
    i: int,
    found: Option<SkillUse>,
    expanded: String,
    trimmed_body: String,
    trimmed_args: String,
)
    requires
        call_ensures(AgentSession::find_skill_command, (session, input), found),
        call_ensures(AgentSession::expand_skill_command, (session, input, Some(body)), expanded),
        call_ensures(text::trim_text, (body,), trimmed_body),
        call_ensures(text::trim_text, (args_text,), trimmed_args),
        input@ == "/skill:"@ + name + seq![' '] + args_text@,
        !name.contains(' '),
        0 <= i < session@.skills.len(),
        session@.skills[i].name@ == name,
        forall|k: int| 0 <= k < i ==> (#[trigger] session@.skills[k]).name@ != name,
    ensures
        found matches Some(u) && u.index == i && u.file_path == session@.skills[i].file_path
            && u.args@ == trimmed_args@,
        ({
            let skill = session@.skills[i];
            let block = "<skill name=\""@ + name + "\" location=\""@ + skill.file_path@
                + "\">\nReferences are relative to "@ + skill.base_dir@ + ".\n\n"@ + trimmed_body@
                + "\n</skill>"@;
            expanded@ == if trimmed_args@.len() == 0 {
                block
            } else {
                block + "\n\n"@ + trimmed_args@
            }
        }),
{
    lemma_skill_input(name, args_text@);
    lemma_skill_at(session@.skills, name, 0, i);
}

/// A prompt keeps its text, its images and how it waits. It begins with the command of an extension
/// where it calls one and commands are to be expanded; otherwise the extensions are asked about it,
/// with its source, and while a run is active with how it waits.
pub proof fn law_a_prompt_begins(
    session: &AgentSession,
    input: &str,
    options: PromptOptions,
    commands: &Vec<String>,
    command: Option<(String, String)>,
    r: (PromptRun, PreflightStep),
)
    requires
        call_ensures(AgentSession::prompt, (session, input, options, commands), r),
        call_ensures(parse_slash_command, (input,), command),
    ensures
        r.0.text@ == input@,
        r.0.images == options.images,
        r.0.streaming_behavior == options.streaming_behavior,
        r.0.source == options.source,
        r.0.expand == options.expand_prompt_templates,
        ({
            let calls = command is Some && exists|k: int|
                0 <= k < commands@.len() && (#[trigger] commands@[k])@ == (command->0).0@;
            &&& calls && options.expand_prompt_templates ==> (r.1
                matches PreflightStep::ExecuteCommand { name, args } && name@ == (command->0).0@
                && args@ == (command->0).1@)
            &&& !(calls && options.expand_prompt_templates) ==> (r.1
                matches PreflightStep::TransformInput { source, streaming } && source@ == (
            if options.source is Some {
                options.source->0@
            } else {
                "interactive"@
            }) && streaming == if session@.lifecycle.is_agent_run_active {
                options.streaming_behavior
            } else {
                None
            })
        }),
{
}

/// The command of an extension that handled the prompt, or failed, ends the checks; a failure is
/// reported with the command's name. What it did not handle goes on to the extensions.
pub proof fn law_a_handled_command_ends_the_checks(
    session: &mut AgentSession,
    run: &PromptRun,
    name: &str,
    result: Result<bool, ExtensionRunnerError>,
    step: PreflightStep,
)
    requires
        call_ensures(
            AgentSession::try_execute_extension_command,
            (session, run, name, result),
            step,
        ),
    ensures
        result == Ok::<bool, ExtensionRunnerError>(true) || result is Err ==> step
            == PreflightStep::Finished(Ok(PreflightOutcome::Handled)),
        result is Ok ==> final(session)@ == old(session)@,
        result matches Err(e) ==> (final(session)@.outbox.len() == old(session)@.outbox.len() + 1 && (
        final(session)@.outbox.last() matches Effect::RunnerError(m) && m@ == "command:"@ + name@
            + ": "@ + e.text()) && final(session)@.agent == old(session)@.agent),
        result == Ok::<bool, ExtensionRunnerError>(false) ==> (step
            matches PreflightStep::TransformInput { source, streaming } && source@ == (
        if run.source is Some {
            run.source->0@
        } else {
            "interactive"@
        }) && streaming == if old(session)@.lifecycle.is_agent_run_active {
            run.streaming_behavior
        } else {
            None
        }),
{
}

/// What becomes of a prompt whose text stands: while no run is active the checks go on; while one is,
/// the prompt waits as it says, and one that does not say is refused and waits nowhere.
pub open spec fn goes_its_way(
    s: SessionModel,
    t: SessionModel,
    run: PromptRun,
    now: i64,
    step: PreflightStep,
) -> bool {
    &&& !s.lifecycle.is_agent_run_active ==> step is FlushBash && t == s
    &&& s.lifecycle.is_agent_run_active && run.streaming_behavior is None ==> t == s && (step
        matches PreflightStep::Finished(Err(PromptError::Message(m))) && m@
        == "Agent is already processing. Specify streamingBehavior ('steer' or 'followUp') to queue the message."@)
    &&& s.lifecycle.is_agent_run_active && run.streaming_behavior is Some ==> step
        == PreflightStep::Finished(Ok(PreflightOutcome::Queued))
    &&& s.lifecycle.is_agent_run_active && run.streaming_behavior == Some(StreamingBehavior::Steer)
        ==> waits_to_steer(s, t, run.text@)
    &&& s.lifecycle.is_agent_run_active && run.streaming_behavior == Some(
        StreamingBehavior::FollowUp,
    ) ==> waits_to_follow_up(s, t, run.text@)
}

/// A message with this text waits behind the others to be taken before the next request, its text
/// among the steering texts, and this is announced; nothing else waits.
pub open spec fn waits_to_steer(s: SessionModel, t: SessionModel, text: Seq<char>) -> bool {
    &&& t.steering.len() == s.steering.len() + 1
    &&& t.steering.drop_last() == s.steering
    &&& t.steering.last()@ == text
    &&& t.follow_up == s.follow_up
    &&& t.agent.steering_queue.len() == s.agent.steering_queue.len() + 1
    &&& t.agent.steering_queue.drop_last() == s.agent.steering_queue
    &&& t.agent.steering_queue.last() matches AgentMessage::Llm(Message::User(_))
    &&& persistence::user_text_of(t.agent.steering_queue.last()) == text
    &&& t.agent.follow_up_queue == s.agent.follow_up_queue
    &&& t.agent.transcript == s.agent.transcript
    &&& t.outbox.len() == s.outbox.len() + 1
    &&& t.outbox.last() matches Effect::Emit(
        AgentSessionEvent::QueueUpdate { steering, follow_up },
    ) && steering@ == t.steering && follow_up@ == t.follow_up
}

/// A message with this text waits behind the others to be taken after the run, its text among the
/// follow-up texts, and this is announced; nothing else waits.
pub open spec fn waits_to_follow_up(s: SessionModel, t: SessionModel, text: Seq<char>) -> bool {
    &&& t.follow_up.len() == s.follow_up.len() + 1
    &&& t.follow_up.drop_last() == s.follow_up
    &&& t.follow_up.last()@ == text
    &&& t.steering == s.steering
    &&& t.agent.follow_up_queue.len() == s.agent.follow_up_queue.len() + 1
    &&& t.agent.follow_up_queue.drop_last() == s.agent.follow_up_queue
    &&& t.agent.follow_up_queue.last() matches AgentMessage::Llm(Message::User(_))
    &&& persistence::user_text_of(t.agent.follow_up_queue.last()) == text
    &&& t.agent.steering_queue == s.agent.steering_queue
    &&& t.agent.transcript == s.agent.transcript
    &&& t.outbox.len() == s.outbox.len() + 1
    &&& t.outbox.last() matches Effect::Emit(
        AgentSessionEvent::QueueUpdate { steering, follow_up },
    ) && steering@ == t.steering && follow_up@ == t.follow_up
}

proof fn lemma_queued_waits(
    s: SessionModel,
    t: SessionModel,
    text: String,
    images: Seq<ImageContent>,
    now: i64,
    behavior: StreamingBehavior,
)
    requires
        queued(s, t, text, images, now, behavior),
    ensures
        behavior == StreamingBehavior::Steer ==> waits_to_steer(s, t, text@),
        behavior == StreamingBehavior::FollowUp ==> waits_to_follow_up(s, t, text@),
{
    match behavior {
        StreamingBehavior::Steer => {
            law_user_text_reads_back(t.agent.steering_queue.last(), text@, images, now);
            assert(t.steering.drop_last() =~= s.steering);
            assert(t.agent.steering_queue.drop_last() =~= s.agent.steering_queue);
        },
        StreamingBehavior::FollowUp => {
            law_user_text_reads_back(t.agent.follow_up_queue.last(), text@, images, now);
            assert(t.follow_up.drop_last() =~= s.follow_up);
            assert(t.agent.follow_up_queue.drop_last() =~= s.agent.follow_up_queue);
        },
    }
}

proof fn lemma_routed_goes(
    s: SessionModel,
    t: SessionModel,
    run: PromptRun,
    now: i64,
    step: PreflightStep,
)
    requires
        routed(s, t, run, now, step),
    ensures
        goes_its_way(s, t, run, now, step),
{
    if s.lifecycle.is_agent_run_active {
        if let Some(behavior) = run.streaming_behavior {
            lemma_queued_waits(s, t, run.text, run.images@, now, behavior);
        }
    }
}

/// An expanded prompt goes its way with the new text; all else of it stays.
pub proof fn law_an_expanded_prompt_goes_its_way(
    session: &mut AgentSession,
    run: PromptRun,
    expanded: String,
    now: i64,
    r: (PromptRun, PreflightStep),
)
    requires
        call_ensures(AgentSession::prompt_expanded, (session, run, expanded, now), r),
    ensures
        r.0.text == expanded,
        r.0.images == run.images,
        r.0.streaming_behavior == run.streaming_behavior,
        r.0.source == run.source,
        r.0.expand == run.expand,
        r.0.messages == run.messages,
        goes_its_way(old(session)@, final(session)@, r.0, now, r.1),
{
    lemma_routed_goes(old(session)@, final(session)@, r.0, now, r.1);
}

/// What the extensions make of an input: their failure and what they handled end the checks, and the
/// session stays as it is; otherwise their text and images take the place of the prompt's where they
/// gave any, and it is expanded, or goes its way where it is not to be.
pub proof fn law_extensions_transform_an_input(
    session: &mut AgentSession,
    run: PromptRun,
    reply: InputReply,
    now: i64,
    r: (PromptRun, PreflightStep),
)
    requires
        call_ensures(AgentSession::transform_input, (session, run, reply, now), r),
    ensures
        reply matches InputReply::Failed(e) ==> final(session)@ == old(session)@ && (r.1
            matches PreflightStep::Finished(Err(PromptError::Message(m))) && m@ == e.text()),
        reply matches InputReply::Answered { result, images } ==> {
            &&& result.handled ==> final(session)@ == old(session)@ && r.1
                == PreflightStep::Finished(Ok(PreflightOutcome::Handled))
            &&& !result.handled ==> {
                &&& result.text is Some ==> r.0.text == result.text->0
                &&& result.text is None ==> r.0.text == run.text
                &&& images is Some ==> r.0.images == images->0
                &&& images is None ==> r.0.images == run.images
            }
        },
        reply is NoHandlers ==> r.0.text == run.text && r.0.images == run.images,
        r.0.streaming_behavior == run.streaming_behavior,
        r.0.expand == run.expand,
        (reply is NoHandlers || (reply matches InputReply::Answered { result, images }
            && !result.handled)) ==> {
            &&& run.expand ==> r.1 is Expand && final(session)@ == old(session)@
            &&& !run.expand ==> goes_its_way(old(session)@, final(session)@, r.0, now, r.1)
        },
{
    if !run.expand && (reply is NoHandlers || (reply matches InputReply::Answered { result, images }
        && !result.handled)) {
        lemma_routed_goes(old(session)@, final(session)@, r.0, now, r.1);
    }
}

/// Behind the stored shell results a prompt needs a model: a failure to store them and a missing
/// model end the checks, and otherwise the credentials are looked for.
pub proof fn law_a_prompt_needs_a_model(
    session: &AgentSession,
    flushed: Result<(), BashExecError>,
    words: String,
    step: PreflightStep,
)
    requires
        call_ensures(AgentSession::prompt_flushed, (session, flushed, words), step),
    ensures
        flushed matches Err(BashExecError::Session(e)) ==> step == PreflightStep::Finished(
            Err(PromptError::Session(e)),
        ),
        flushed matches Err(BashExecError::Execution { message, result }) ==> step
            == PreflightStep::Finished(Err(PromptError::Message(message))),
        flushed is Ok && session@.agent.model.provider@ == "unknown"@ ==> step
            == PreflightStep::Finished(Err(PromptError::Message(words))),
        flushed is Ok && session@.agent.model.provider@ != "unknown"@ ==> step is CheckAuth,
{
}

/// Without credentials the checks end with the host's words for it and the session stays as it is;
/// with them, or without a runtime to ask, the last answer is checked for compaction, and without one
/// the messages of the run are built.
pub proof fn law_a_prompt_needs_credentials(
    session: &mut AgentSession,
    before: &AgentSession,
    run: PromptRun,
    reply: AuthReply,
    now: i64,
    last: Option<AssistantMessage>,
    r: (PromptRun, PreflightStep),
)
    requires
        call_ensures(AgentSession::auth_checked, (session, run, reply, now), r),
        before@ == old(session)@,
        call_ensures(AgentSession::last_assistant, (before,), last),
    ensures
        reply matches AuthReply::OauthFailed(words) ==> r.1 == PreflightStep::Finished(
            Err(PromptError::Message(words)),
        ) && final(session)@ == old(session)@,
        reply matches AuthReply::NoKey(words) ==> r.1 == PreflightStep::Finished(
            Err(PromptError::Message(words)),
        ) && final(session)@ == old(session)@,
        reply is Configured || reply is NoRuntime ==> {
            &&& last is Some ==> r.1 == PreflightStep::CheckCompaction(last->0) && final(session)@
                == old(session)@ && r.0 == run
            &&& last is None ==> r.1 is AskExtensions && r.0.messages@.len() == 1 + old(session)@.pending_next_turn.len() && final(session)@.pending_next_turn.len() == 0
        },
{
}

/// The messages of a run are that of the user, with the text and the images of the prompt, and then
/// all that waited for the next turn, in its order; nothing of that waits any more.
pub proof fn law_a_run_takes_what_waited(
    session: &mut AgentSession,
    run: PromptRun,
    now: i64,
    r: (PromptRun, PreflightStep),
)
    requires
        call_ensures(AgentSession::build_messages, (session, run, now), r),
    ensures
        r.1 is AskExtensions,
        r.0.text == run.text,
        r.0.messages@.len() == 1 + old(session)@.pending_next_turn.len(),
        r.0.messages@[0] matches AgentMessage::Llm(Message::User(_)),
        persistence::user_text_of(r.0.messages@[0]) == run.text@,
        forall|k: int|
            0 <= k < old(session)@.pending_next_turn.len() ==> r.0.messages@[k + 1]
                == #[trigger] old(session)@.pending_next_turn[k],
        final(session)@.pending_next_turn.len() == 0,
        final(session)@.agent == old(session)@.agent,
        final(session)@.outbox == old(session)@.outbox,
{
    law_user_text_reads_back(r.0.messages@[0], run.text@, run.images@, now);
    assert forall|k: int| 0 <= k < old(session)@.pending_next_turn.len() implies r.0.messages@[k
        + 1] == #[trigger] old(session)@.pending_next_turn[k] by {
        assert(r.0.messages@.skip(1)[k] == r.0.messages@[k + 1]);
    }
}

/// What extensions add to a run comes before its messages, and their prompt holds for the run; where
/// they give none it is the base prompt. A failure of theirs ends the checks and changes nothing.
pub proof fn law_extensions_add_to_a_run(
    session: &mut AgentSession,
    messages: Vec<AgentMessage>,
    result: Result<Option<BeforeAgentStartResult>, ExtensionRunnerError>,
    step: PreflightStep,
)
    requires
        call_ensures(
            AgentSession::apply_before_agent_start,
            (session, messages, result),
            step,
        ),
    ensures
        result matches Err(e) ==> final(session)@ == old(session)@ && (step
            matches PreflightStep::Finished(Err(PromptError::Message(m))) && m@ == e.text()),
        result matches Ok(None) ==> (step matches PreflightStep::Finished(
            Ok(PreflightOutcome::Run(all)),
        ) && all@ == messages@) && final(session)@.prompt_override is None && final(session)@.agent.system_prompt == old(session)@.base_prompt,
        result matches Ok(Some(added)) ==> (step matches PreflightStep::Finished(
            Ok(PreflightOutcome::Run(all)),
        ) && all@ == added.messages@ + messages@) && (match added.system_prompt {
            Some(p) => final(session)@.prompt_override == Some(p@) && final(session)@.agent.system_prompt == p@,
            None => final(session)@.prompt_override is None && final(session)@.agent.system_prompt
                == old(session)@.base_prompt,
        }),
        final(session)@.base_prompt == old(session)@.base_prompt,
        final(session)@.agent.transcript == old(session)@.agent.transcript,
{
    if let Ok(None) = result {
        assert(Seq::<AgentMessage>::empty() + messages@ =~= messages@);
    }
}

/// A message that is to wait waits in the form it was expanded to, unless it calls the command of an
/// extension: then it is refused, with the command's name, and nothing waits.
pub proof fn law_commands_cannot_wait(
    a: &mut AgentSession,
    b: &mut AgentSession,
    input: &str,
    expanded: String,
    images: &Vec<ImageContent>,
    commands: &Vec<String>,
    now: i64,
    command: Option<(String, String)>,
    steered: Result<(), PromptError>,
    followed: Result<(), PromptError>,
)
    requires
        call_ensures(
            AgentSession::steer,
            (a, input, expanded, images, commands, now),
            steered,
        ),
        call_ensures(
            AgentSession::follow_up,
            (b, input, expanded, images, commands, now),
            followed,
        ),
        call_ensures(parse_slash_command, (input,), command),
    ensures
        ({
            let calls = command is Some && exists|k: int|
                0 <= k < commands@.len() && (#[trigger] commands@[k])@ == (command->0).0@;
            let words = "Extension command \"/"@ + (command->0).0@
                + "\" cannot be queued. Use prompt() or execute the command when not streaming."@;
            &&& calls ==> final(a)@ == old(a)@ && final(b)@ == old(b)@ && (steered matches Err(
                PromptError::Message(m),
            ) && m@ == words) && (followed matches Err(PromptError::Message(m)) && m@ == words)
            &&& !calls ==> steered is Ok && followed is Ok && waits_to_steer(
                old(a)@,
                final(a)@,
                expanded@,
            ) && waits_to_follow_up(old(b)@, final(b)@, expanded@)
        }),
{
    let calls = command is Some && exists|k: int|
        0 <= k < commands@.len() && (#[trigger] commands@[k])@ == (command->0).0@;
    if !calls {
        lemma_queued_waits(
            old(a)@,
            final(a)@,
            expanded,
            images@,
            now,
            StreamingBehavior::Steer,
        );
        lemma_queued_waits(
            old(b)@,
            final(b)@,
            expanded,
            images@,
            now,
            StreamingBehavior::FollowUp,
        );
    }
}

/// A prompt was accepted just where the checks did not fail.
pub proof fn law_a_prompt_without_a_failure_is_accepted(
    outcome: &Result<PreflightOutcome, PromptError>,
    accepted: bool,
)
    requires
        call_ensures(preflight_result, (outcome,), accepted),
    ensures
        accepted <==> *outcome is Ok,
{
}

/// The checks go on from each reply as its own operation does.
pub proof fn law_the_checks_go_on_from_each_reply(
    session: &mut AgentSession,
    run: PromptRun,
    reply: PreflightReply,
    now: i64,
    r: (PromptRun, PreflightStep),
)
    requires
        call_ensures(AgentSession::prompt_preflight, (session, run, reply, now), r),
    ensures
        reply matches PreflightReply::CommandExecuted { name, result } ==> {
            &&& r.0 == run
            &&& result == Ok::<bool, ExtensionRunnerError>(true) || result is Err ==> r.1
                == PreflightStep::Finished(Ok(PreflightOutcome::Handled))
            &&& result == Ok::<bool, ExtensionRunnerError>(false) ==> r.1 is TransformInput
        },
        reply matches PreflightReply::Expanded(text) ==> r.0.text == text && goes_its_way(
            old(session)@,
            final(session)@,
            r.0,
            now,
            r.1,
        ),
        reply matches PreflightReply::InputTransformed(InputReply::Failed(e)) ==> (r.1
            matches PreflightStep::Finished(Err(PromptError::Message(m))) && m@ == e.text()),
        reply matches PreflightReply::InputTransformed(InputReply::NoHandlers) ==> (if run.expand {
            r.1 is Expand
        } else {
            goes_its_way(old(session)@, final(session)@, run, now, r.1)
        }),
        reply matches PreflightReply::InputTransformed(InputReply::Answered { result, images })
            ==> (if result.handled {
            r.1 == PreflightStep::Finished(Ok(PreflightOutcome::Handled))
        } else if run.expand {
            r.1 is Expand
        } else {
            goes_its_way(old(session)@, final(session)@, r.0, now, r.1)
        }),
        reply matches PreflightReply::Flushed { result, no_model_text } ==> {
            &&& final(session)@ == old(session)@
            &&& result is Ok && old(session)@.agent.model.provider@ != "unknown"@ ==> r.1
                is CheckAuth
            &&& result is Ok && old(session)@.agent.model.provider@ == "unknown"@ ==> r.1
                == PreflightStep::Finished(Err(PromptError::Message(no_model_text)))
            &&& result is Err ==> (r.1 matches PreflightStep::Finished(Err(_)))
        },
        reply matches PreflightReply::AuthChecked(AuthReply::NoKey(words)) ==> r.1
            == PreflightStep::Finished(Err(PromptError::Message(words))),
        reply matches PreflightReply::AuthChecked(AuthReply::OauthFailed(words)) ==> r.1
            == PreflightStep::Finished(Err(PromptError::Message(words))),
        (reply matches PreflightReply::AuthChecked(AuthReply::Configured)) || (reply
            matches PreflightReply::AuthChecked(AuthReply::NoRuntime)) ==> r.1 is CheckCompaction
            || r.1 is AskExtensions,
        reply is CompactionChecked ==> r.1 is AskExtensions && r.0.messages@.len() == 1 + old(session)@.pending_next_turn.len() && final(session)@.pending_next_turn.len() == 0,
        reply matches PreflightReply::ExtensionsAnswered(Ok(None)) ==> (r.1
            matches PreflightStep::Finished(Ok(PreflightOutcome::Run(all))) && all@
            == run.messages@),
        reply matches PreflightReply::ExtensionsAnswered(Ok(Some(added))) ==> (r.1
            matches PreflightStep::Finished(Ok(PreflightOutcome::Run(all))) && all@
            == added.messages@ + run.messages@),
        reply matches PreflightReply::ExtensionsAnswered(Err(e)) ==> (r.1
            matches PreflightStep::Finished(Err(PromptError::Message(m))) && m@ == e.text())
            && final(session)@ == old(session)@,
{
    let s = old(session)@;
    let t = final(session)@;
    match reply {
        PreflightReply::Expanded(text) => {
            lemma_routed_goes(s, t, r.0, now, r.1);
        },
        PreflightReply::InputTransformed(InputReply::NoHandlers) => {
            if !run.expand {
                lemma_routed_goes(s, t, r.0, now, r.1);
            }
        },
        PreflightReply::InputTransformed(InputReply::Answered { result, images }) => {
            if !run.expand && !result.handled {
                lemma_routed_goes(s, t, r.0, now, r.1);
            }
        },
        PreflightReply::ExtensionsAnswered(Ok(None)) => {
            assert(Seq::<AgentMessage>::empty() + run.messages@ =~= run.messages@);
        },
        _ => {},
    }
}

proof fn lemma_custom_keys()
    ensures
        "customType"@.len() == 10,
        "content"@.len() == 7,
        "display"@.len() == 7,
        "details"@.len() == 7,
        "timestamp"@.len() == 9,
        "content"@ != "display"@,
        "content"@ != "details"@,
        "display"@ != "details"@,
{
    reveal_strlit("customType");
    reveal_strlit("content");
    reveal_strlit("display");
    reveal_strlit("details");
    reveal_strlit("timestamp");
    assert("content"@[0] == 'c' && "display"@[1] == 'i' && "details"@[0] == 'd' && "details"@[1]
        == 'e' && "display"@[0] == 'd');
}

/// The members of an extension's message tell what was sent: what kind it is, its content, whether it
/// is shown, what is kept with it, and when.
pub open spec fn tells_custom(
    message: AgentMessage,
    m: CustomMessageInput,
    content: Json,
    now: i64,
) -> bool {
    message matches AgentMessage::Custom(c) && c.role@ == "custom"@ && json::member(
        c.payload@,
        "customType"@,
    ) == Some(Json::Text(m.custom_type)) && json::member(c.payload@, "content"@) == Some(content)
        && json::member(c.payload@, "display"@) == Some(Json::Bool(m.display)) && json::member(
        c.payload@,
        "details"@,
    ) == m.details && json::member(c.payload@, "timestamp"@) == Some(Json::Integer(now as i128))
}

proof fn lemma_tells_custom(
    message: AgentMessage,
    m: CustomMessageInput,
    content: Json,
    now: i64,
)
    requires
        is_custom_message(message, m, content, now),
    ensures
        tells_custom(message, m, content, now),
{
    lemma_custom_keys();
    let members = message->Custom_0.payload@;
    let p = json::keyed(members);
    let d: int = if m.details is Some {
        1
    } else {
        0
    };
    assert(p.len() == 4 + d);
    assert(p[0] == ("customType"@, Json::Text(m.custom_type)));
    assert(p[1] == ("content"@, content));
    assert(p[2] == ("display"@, Json::Bool(m.display)));
    assert(d == 1 ==> p[3] == ("details"@, m.details->0));
    assert(p[3 + d] == ("timestamp"@, Json::Integer(now as i128)));
    json::lemma_read_at(members, "customType"@, 0);
    json::lemma_read_at(members, "content"@, 1);
    json::lemma_read_at(members, "display"@, 2);
    json::lemma_read_at(members, "timestamp"@, 3 + d);
    if d == 1 {
        json::lemma_read_at(members, "details"@, 3);
    } else {
        json::lemma_read_none(members, "details"@);
    }
}

/// What is read back from the message of an extension is what it sent.
pub proof fn law_a_custom_message_reads_back(
    input: &CustomMessageInput,
    content: Json,
    now: i64,
    message: AgentMessage,
)
    requires
        call_ensures(build_custom_agent_message, (input, content, now), message),
    ensures
        tells_custom(message, *input, content, now),
{
    lemma_tells_custom(message, *input, content, now);
}

/// An extension's message goes where it says: to the next turn always; while a run is active behind
/// the messages after the run, or else before the next request; and without a run the agent runs with
/// it alone where it is to, or it is stored. Wherever it goes, it tells what was sent.
pub proof fn law_a_custom_message_goes_where_it_says(
    session: &mut AgentSession,
    input: &CustomMessageInput,
    content: Json,
    trigger: bool,
    deliver: Option<DeliverAs>,
    now: i64,
    r: CustomDelivery,
)
    requires
        call_ensures(
            AgentSession::send_custom_message,
            (session, input, content, trigger, deliver, now),
            r,
        ),
    ensures
        ({
            let s = old(session)@;
            let t = final(session)@;
            let next = deliver == Some(DeliverAs::NextTurn);
            let active = s.lifecycle.is_agent_run_active;
            &&& next ==> r is Waits && t.pending_next_turn.len() == s.pending_next_turn.len() + 1
                && t.pending_next_turn.drop_last() == s.pending_next_turn && tells_custom(
                t.pending_next_turn.last(),
                *input,
                content,
                now,
            ) && t.agent == s.agent
            &&& !next ==> t.pending_next_turn == s.pending_next_turn
            &&& !next && active && deliver == Some(DeliverAs::FollowUp) ==> r is Waits
                && t.agent.follow_up_queue.len() == s.agent.follow_up_queue.len() + 1
                && t.agent.follow_up_queue.drop_last() == s.agent.follow_up_queue && tells_custom(
                t.agent.follow_up_queue.last(),
                *input,
                content,
                now,
            ) && t.agent.steering_queue == s.agent.steering_queue
            &&& !next && active && deliver != Some(DeliverAs::FollowUp) ==> r is Waits
                && t.agent.steering_queue.len() == s.agent.steering_queue.len() + 1
                && t.agent.steering_queue.drop_last() == s.agent.steering_queue && tells_custom(
                t.agent.steering_queue.last(),
                *input,
                content,
                now,
            ) && t.agent.follow_up_queue == s.agent.follow_up_queue
            &&& !next && !active && trigger ==> t == s && (r matches CustomDelivery::Run(all)
                && all@.len() == 1 && tells_custom(all@[0], *input, content, now))
            &&& !next && !active && !trigger ==> t == s && (r matches CustomDelivery::Store(m)
                && tells_custom(m, *input, content, now))
            &&& t.agent.transcript == s.agent.transcript
            &&& t.outbox == s.outbox
        }),
{
    let m = choose|m: AgentMessage| #[trigger]
        is_custom_message(m, *input, content, now) && delivered(
            old(session)@,
            final(session)@,
            m,
            trigger,
            deliver,
            r,
        );
    assert(is_custom_message(m, *input, content, now));
    lemma_tells_custom(m, *input, content, now);
    assert(old(session)@.pending_next_turn.push(m).drop_last() =~= old(session)@.pending_next_turn);
    assert(old(session)@.agent.follow_up_queue.push(m).drop_last() =~= old(session)@.agent.follow_up_queue);
    assert(old(session)@.agent.steering_queue.push(m).drop_last() =~= old(session)@.agent.steering_queue);
}

/// Only a stored message joins the transcript, at its end; its start and its end are told, in this
/// order.
pub proof fn law_only_a_stored_message_joins(
    session: &mut AgentSession,
    message: AgentMessage,
    stored: Result<(), SessionError>,
    r: Result<(), PromptError>,
)
    requires
        call_ensures(AgentSession::custom_message_stored, (session, message, stored), r),
    ensures
        stored is Ok ==> r is Ok && final(session)@.agent.transcript == old(session)@.agent.transcript.push(message) && final(session)@.outbox == old(session)@.outbox.push(
            Effect::Emit(AgentSessionEvent::MessageStart { message }),
        ).push(Effect::Emit(AgentSessionEvent::MessageEnd { message })),
        stored matches Err(e) ==> r == Err::<(), PromptError>(PromptError::Session(e)) && final(session)@ == old(session)@,
{
}

/// A message in the user's name keeps its images, is never expanded, says that it comes from an
/// extension, and while a run is active waits after the run where it says so and else before the next
/// request; one that says nothing does not say how it waits.
pub proof fn law_a_message_in_the_users_name_is_taken_as_it_is(
    images: Vec<ImageContent>,
    deliver: Option<DeliverAs>,
    options: PromptOptions,
)
    requires
        call_ensures(send_user_message, (images, deliver), options),
    ensures
        options.images == images,
        !options.expand_prompt_templates,
        options.source matches Some(s) && s@ == "extension"@,
        deliver is None ==> options.streaming_behavior is None,
        deliver == Some(DeliverAs::FollowUp) ==> options.streaming_behavior == Some(
            StreamingBehavior::FollowUp,
        ),
        deliver == Some(DeliverAs::Steer) || deliver == Some(DeliverAs::NextTurn)
            ==> options.streaming_behavior == Some(StreamingBehavior::Steer),
{
}

/// A run begins with its messages and all that waited for the next turn behind them; it is active, and
/// what it has to take care of begins behind the answers that are there.
pub proof fn law_a_run_begins_with_all_that_waits(
    session: &mut AgentSession,
    before: &AgentSession,
    messages: Vec<AgentMessage>,
    answers: usize,
    r: (RunProgress, RunStep),
)
    requires
        call_ensures(AgentSession::run_agent_prompt, (session, messages), r),
        before@ == old(session)@,
        call_ensures(AgentSession::assistant_count, (before,), answers),
    ensures
        r.1 matches RunStep::Prompt(all) && all@ == messages@ + old(session)@.pending_next_turn,
        r.0.processed_count == answers,
        r.0.processed_agent_ends == old(session)@.counters.processed_agent_ends,
        final(session)@.lifecycle.is_agent_run_active,
        final(session)@.pending_next_turn.len() == 0,
        final(session)@.agent == old(session)@.agent,
        final(session)@.outbox == old(session)@.outbox,
{
}

/// A run whose end was not seen, whose storage failed or that failed itself is over with that failure,
/// in this order; no storage failure is left behind.
pub proof fn law_a_failed_run_is_over(
    session: &mut AgentSession,
    progress: RunProgress,
    run: Result<(), AgentLoopError>,
    end_seen: bool,
    token: CancelToken,
    r: (RunProgress, RunStep),
)
    requires
        call_ensures(AgentSession::run_ended, (session, progress, run, end_seen, token), r),
    ensures
        run is Ok && !end_seen ==> (r.1 matches RunStep::Finish(Err(PromptError::Message(m))) && m@
            == "Agent event pump disconnected before agent_end"@) && final(session)@
            == old(session)@,
        !(run is Ok && !end_seen) && old(session)@.error is Some ==> r.1 == RunStep::Finish(
            Err(PromptError::Session(old(session)@.error->0)),
        ) && final(session)@.error is None && final(session)@.outbox == old(session)@.outbox,
        old(session)@.error is None ==> (run matches Err(e) ==> r.1 == RunStep::Finish(
            Err(PromptError::Agent(e)),
        ) && final(session)@.outbox == old(session)@.outbox),
{
}

/// A run that went well goes on from its answer: without a new one it is over; an answer that is
/// worth another try is waited for, where a retry is allowed; any other is checked for compaction.
pub proof fn law_a_good_run_goes_on_from_its_answer(
    session: &mut AgentSession,
    before: &AgentSession,
    progress: RunProgress,
    token: CancelToken,
    answers: usize,
    last: Option<AssistantMessage>,
    tries: bool,
    r: (RunProgress, RunStep),
)
    requires
        call_ensures(
            AgentSession::run_ended,
            (session, progress, Ok::<(), AgentLoopError>(()), true, token),
            r,
        ),
        old(session)@.error is None,
        before@ == old(session)@,
        call_ensures(AgentSession::assistant_count, (before,), answers),
        call_ensures(AgentSession::last_assistant, (before,), last),
        last is Some ==> call_ensures(
            AgentSession::is_retryable_error,
            (before, &last->0),
            tries,
        ),
    ensures
        r.0.processed_count == progress.processed_count,
        r.0.processed_agent_ends == old(session)@.counters.processed_agent_ends,
        answers <= progress.processed_count || last is None ==> r.1 == RunStep::Finish(Ok(()))
            && final(session)@ == old(session)@,
        answers > progress.processed_count && last is Some ==> {
            let allowed = old(session)@.lifecycle.auto_retry_enabled && old(session)@.counters.retry_attempt < old(session)@.counters.max_retries;
            &&& tries && allowed ==> (r.1 matches RunStep::WaitRetry { message, delay_ms }
                && message == last->0) && final(session)@.counters.retry_attempt == old(session)@.counters.retry_attempt + 1 && final(session)@.slots.retry == Some(token)
            &&& !(tries && allowed) ==> r.1 == RunStep::CheckCompaction(last->0)
            &&& !(tries && allowed) && last->0.stop_reason == crate::messages::StopReason::Error
                ==> final(session)@.counters.retry_attempt == 0
            &&& !(tries && allowed) && last->0.stop_reason == crate::messages::StopReason::Error
                && old(session)@.counters.retry_attempt > 0 ==> final(session)@.outbox.len()
                == old(session)@.outbox.len() + 1 && (final(session)@.outbox.last() matches Effect::Emit(
                AgentSessionEvent::AutoRetryEnd { success, attempt, final_error },
            ) && !success && attempt == old(session)@.counters.retry_attempt && (final_error is Some
                <==> last->0.error_message is Some) && (final_error is Some ==> final_error->0@
                == last->0.error_message->0@))
            &&& !(tries && allowed) && old(session)@.counters.retry_attempt == 0 ==> final(session)@
                == old(session)@
            &&& !(tries && allowed) && last->0.stop_reason != crate::messages::StopReason::Error
                ==> final(session)@ == old(session)@
        },
{
}

/// After the wait for a retry the agent tries again, from the answers that are there now; a wait that
/// was cancelled ends retrying, and the answer is checked for compaction.
pub proof fn law_a_waited_retry_is_tried(
    session: &mut AgentSession,
    before: &AgentSession,
    progress: RunProgress,
    message: AssistantMessage,
    cancelled: bool,
    answers: usize,
    r: (RunProgress, RunStep),
)
    requires
        call_ensures(AgentSession::retry_waited, (session, progress, message, cancelled), r),
        before@ == old(session)@,
        call_ensures(AgentSession::assistant_count, (before,), answers),
    ensures
        final(session)@.slots.retry is None,
        !cancelled ==> r.1 is Continue && r.0.processed_count == answers
            && r.0.processed_agent_ends == progress.processed_agent_ends && final(session)@.counters
            == old(session)@.counters && final(session)@.outbox == old(session)@.outbox,
        cancelled ==> r.0 == progress && r.1 == RunStep::CheckCompaction(message) && final(session)@.counters.retry_attempt == 0 && final(session)@.outbox.len() == old(session)@.outbox.len() + 1 && (
        final(session)@.outbox.last() matches Effect::Emit(
            AgentSessionEvent::AutoRetryEnd { success, attempt, final_error },
        ) && !success && attempt == old(session)@.counters.retry_attempt && final_error is Some
            && final_error->0@ == "Retry cancelled"@),
        final(session)@.agent == old(session)@.agent,
{
}

/// After the check for compaction the run goes on where it asks for it or messages wait, from the
/// answers that are there now; otherwise it is over, without a failure.
pub proof fn law_a_checked_run_goes_on_or_is_over(
    session: &AgentSession,
    progress: RunProgress,
    go_on: bool,
    queued_messages: bool,
    answers: usize,
    r: (RunProgress, RunStep),
)
    requires
        call_ensures(AgentSession::run_compaction_checked, (session, progress, go_on), r),
        call_ensures(AgentSession::has_queued_messages, (session,), queued_messages),
        call_ensures(AgentSession::assistant_count, (session,), answers),
    ensures
        go_on || queued_messages ==> r.1 is Continue && r.0.processed_count == answers
            && r.0.processed_agent_ends == progress.processed_agent_ends,
        !go_on && !queued_messages ==> r == (progress, RunStep::Finish(Ok(()))),
{
}

/// A run ends with the storage's failure where there is one, else with that of the shell results,
/// else with its own result; it is settled, and neither the prompt of the turn nor the failure is
/// left.
pub proof fn law_a_run_ends_with_the_first_failure(
    session: &mut AgentSession,
    result: Result<(), PromptError>,
    flushed: Result<(), BashExecError>,
    r: Result<(), PromptError>,
)
    requires
        call_ensures(AgentSession::finish_run, (session, result, flushed), r),
    ensures
        old(session)@.error matches Some(e) ==> r == Err::<(), PromptError>(
            PromptError::Session(e),
        ),
        old(session)@.error is None ==> (flushed matches Err(BashExecError::Session(e)) ==> r
            == Err::<(), PromptError>(PromptError::Session(e))),
        old(session)@.error is None ==> (flushed matches Err(
            BashExecError::Execution { message, result: cause },
        ) ==> r == Err::<(), PromptError>(PromptError::Message(message))),
        old(session)@.error is None && flushed is Ok ==> r == result,
        final(session)@.error is None,
        final(session)@.prompt_override is None,
        !final(session)@.lifecycle.is_agent_run_active,
        old(session)@.lifecycle.is_agent_run_active ==> final(session)@.outbox == old(session)@.outbox.push(
            Effect::Emit(AgentSessionEvent::AgentSettled),
        ).push(Effect::WakeIdle),
        !old(session)@.lifecycle.is_agent_run_active ==> final(session)@.outbox == old(session)@.outbox,
        final(session)@.agent == old(session)@.agent,
{
}

} // verus!
