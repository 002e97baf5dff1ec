//! Extensions of a session: what they are bound with, the resources and commands they bring, and
//! how a session looks to them.

use crate::bridge_types::{
    CommandCatalogEntry, SessionState, SlashCommandInfo, SlashCommandSource, ToolInfo,
};
use crate::events::{AgentSessionEvent, SessionStartReason};
use crate::extension_runner::ExtensionRunnerError;
use crate::json::Json;
use crate::pattern;
use crate::resources::{PromptTemplate, Skill, SourceInfo};
use crate::session;
use crate::session::{
    AgentModel, AgentSession, BoundExtensions, Effect, SessionLifecycle, SessionModel,
};
use crate::stats::ContextUsage;
use crate::text;
use vstd::prelude::*;

verus! {

/// The mode a session is bound in.
#[derive(Clone, Copy, Debug, PartialEq, Eq, Structural)]
pub enum ExtensionMode {
    /// Interactive terminal.
    Tui,
    /// Text print.
    Print,
    /// JSON print.
    Json,
    /// RPC server.
    Rpc,
}

impl ExtensionMode {
    /// The wire name of the mode.
    pub open spec fn name(self) -> Seq<char> {
        match self {
            ExtensionMode::Tui => "tui"@,
            ExtensionMode::Print => "print"@,
            ExtensionMode::Json => "json"@,
            ExtensionMode::Rpc => "rpc"@,
        }
    }

    /// The wire name of the mode.
    pub fn as_str(self) -> (r: &'static str)
        ensures
            r@ == self.name(),
    {
        match self {
            ExtensionMode::Tui => "tui",
            ExtensionMode::Print => "print",
            ExtensionMode::Json => "json",
            ExtensionMode::Rpc => "rpc",
        }
    }
}

/// The user interface that extensions are bound with.
#[derive(Debug, PartialEq)]
pub struct ExtensionUiContext {
    /// A mark of the caller's.
    pub tag: Option<String>,
}

impl Default for ExtensionUiContext {
    fn default() -> (r: Self)
        ensures
            r.tag is None,
    {
        ExtensionUiContext { tag: None }
    }
}

/// What extensions are bound with.
#[derive(Debug, PartialEq)]
pub struct ExtensionBindings {
    /// The user interface, in interactive modes.
    pub ui_context: Option<ExtensionUiContext>,
    pub mode: Option<ExtensionMode>,
    pub command_context_actions: Option<Json>,
    /// Whether the caller has a shutdown handler.
    pub has_shutdown_handler: bool,
    /// Whether the caller listens for errors of extensions.
    pub has_error_listener: bool,
}

impl Default for ExtensionBindings {
    fn default() -> (r: Self)
        ensures
            r == (ExtensionBindings {
                ui_context: None,
                mode: None,
                command_context_actions: None,
                has_shutdown_handler: false,
                has_error_listener: false,
            }),
    {
        ExtensionBindings {
            ui_context: None,
            mode: None,
            command_context_actions: None,
            has_shutdown_handler: false,
            has_error_listener: false,
        }
    }
}

/// What is handed to whoever replaced a session: the id of the new one, and what was sent to it.
#[derive(Debug, PartialEq)]
pub struct ReplacedSessionContext {
    pub session_id: String,
    pub sent_custom_messages: Vec<String>,
    pub sent_user_messages: Vec<String>,
}

impl ReplacedSessionContext {
    /// Records that a custom message was sent.
    pub fn send_custom_message(&mut self, message: String)
        ensures
            final(self).sent_custom_messages@ == old(self).sent_custom_messages@.push(message),
            final(self).sent_user_messages@ == old(self).sent_user_messages@,
            final(self).session_id == old(self).session_id,
    {
        self.sent_custom_messages.push(message);
    }

    /// Records that a user message was sent.
    pub fn send_user_message(&mut self, content: String)
        ensures
            final(self).sent_user_messages@ == old(self).sent_user_messages@.push(content),
            final(self).sent_custom_messages@ == old(self).sent_custom_messages@,
            final(self).session_id == old(self).session_id,
    {
        self.sent_user_messages.push(content);
    }
}

/// Why extensions could not be bound or reloaded.
#[derive(Debug, PartialEq)]
pub enum ExtensionBindError {
    /// The extensions failed to name their resources.
    ResourceDiscover(ExtensionRunnerError),
    /// The resources could not be read again.
    ResourceReload(String),
    /// The extension host could not be replaced.
    HostRestart(String),
    /// The settings could not be read again.
    SettingsReload(String),
}

impl ExtensionBindError {
    /// The text of the failure.
    pub open spec fn text(self) -> Seq<char> {
        match self {
            ExtensionBindError::ResourceDiscover(e) => "extension resource discovery failed: "@
                + e.text(),
            ExtensionBindError::ResourceReload(m) => "resource reload failed: "@ + m@,
            ExtensionBindError::HostRestart(m) => "extension host restart failed: "@ + m@,
            ExtensionBindError::SettingsReload(m) => "settings reload failed: "@ + m@,
        }
    }

    /// The text of the failure.
    pub fn message(&self) -> (r: String)
        ensures
            r@ == self.text(),
    {
        match self {
            ExtensionBindError::ResourceDiscover(e) => text::concat2(
                "extension resource discovery failed: ",
                e.message().as_str(),
            ),
            ExtensionBindError::ResourceReload(m) => text::concat2(
                "resource reload failed: ",
                m.as_str(),
            ),
            ExtensionBindError::HostRestart(m) => text::concat2(
                "extension host restart failed: ",
                m.as_str(),
            ),
            ExtensionBindError::SettingsReload(m) => text::concat2(
                "settings reload failed: ",
                m.as_str(),
            ),
        }
    }
}

/// Where the last component of a path ends: slashes and `.` components at the end do not count.
pub open spec fn path_end(path: Seq<char>, end: int) -> int
    decreases end,
{
    if end <= 0 {
        0
    } else if path[end - 1] == '/' {
        path_end(path, end - 1)
    } else if end >= 2 && path[end - 1] == '.' && path[end - 2] == '/' {
        path_end(path, end - 1)
    } else {
        end
    }
}

/// Where the component that ends at `end` starts.
pub open spec fn component_start(path: Seq<char>, end: int) -> int
    decreases end,
{
    if end <= 0 || path[end - 1] == '/' {
        end
    } else {
        component_start(path, end - 1)
    }
}

/// The last component of a path, where it names a file.
pub open spec fn file_name_of(path: Seq<char>) -> Option<Seq<char>> {
    let end = path_end(path, path.len() as int);
    let name = path.subrange(component_start(path, end), end);
    if name.len() == 0 || name == seq!['.'] || name == seq!['.', '.'] {
        None
    } else {
        Some(name)
    }
}

/// The place of the last dot before `end`, -1 where there is none.
pub open spec fn last_dot(name: Seq<char>, end: int) -> int
    decreases end,
{
    if end <= 0 {
        -1
    } else if name[end - 1] == '.' {
        end - 1
    } else {
        last_dot(name, end - 1)
    }
}

/// A file name without its extension. A dot at the front starts no extension.
pub open spec fn stem_of(name: Seq<char>) -> Seq<char> {
    let dot = last_dot(name, name.len() as int);
    if dot <= 0 {
        name
    } else {
        name.take(dot)
    }
}

/// How many characters `c` stand at the front.
pub open spec fn leading(text: Seq<char>, c: char, from: int) -> int
    decreases text.len() - from,
{
    if from >= text.len() || text[from] != c {
        from
    } else {
        leading(text, c, from + 1)
    }
}

/// Where the characters `c` at the end begin, not before `from`.
pub open spec fn trailing(text: Seq<char>, c: char, from: int, end: int) -> int
    decreases end,
{
    if end <= from || end <= 0 || text[end - 1] != c {
        end
    } else {
        trailing(text, c, from, end - 1)
    }
}

/// What an extension is called: a name in angle brackets without them, else the stem of its path,
/// else the path.
pub open spec fn label_of(path: Seq<char>) -> Seq<char> {
    if path.len() > 0 && path[0] == '<' {
        let from = leading(path, '<', 0);
        path.subrange(from, trailing(path, '>', from, path.len() as int))
    } else {
        match file_name_of(path) {
            Some(name) => stem_of(name),
            None => path,
        }
    }
}

/// The last component of a path, where it names a file.
fn file_name(path: &Vec<char>) -> (r: Option<(usize, usize)>)
    ensures
        match r {
            Some(range) => range.0 <= range.1 <= path@.len() && file_name_of(path@) == Some(
                path@.subrange(range.0 as int, range.1 as int),
            ),
            None => file_name_of(path@) is None,
        },
{
    let mut end: usize = path.len();
    while end > 0 && (path[end - 1] == '/' || (end >= 2 && path[end - 1] == '.' && path[end - 2]
        == '/'))
        invariant
            end <= path@.len(),
            path_end(path@, path@.len() as int) == path_end(path@, end as int),
        ensures
            end <= path@.len(),
            path_end(path@, path@.len() as int) == end,
        decreases end,
    {
        end -= 1;
    }
    let mut start: usize = end;
    while start > 0 && path[start - 1] != '/'
        invariant
            start <= end <= path@.len(),
            component_start(path@, end as int) == component_start(path@, start as int),
        ensures
            start <= end <= path@.len(),
            component_start(path@, end as int) == start,
        decreases start,
    {
        start -= 1;
    }
    let ghost name = path@.subrange(start as int, end as int);
    if start == end {
        return None;
    }
    if end - start == 1 && path[start] == '.' {
        assert(name =~= seq!['.']);
        return None;
    }
    if end - start == 2 && path[start] == '.' && path[start + 1] == '.' {
        assert(name =~= seq!['.', '.']);
        return None;
    }
    assert(name != seq!['.']) by {
        if name == seq!['.'] {
            assert(name[0] == '.');
            assert(name.len() == 1);
        }
    }
    assert(name != seq!['.', '.']) by {
        if name == seq!['.', '.'] {
            assert(name[0] == '.');
            assert(name[1] == '.');
            assert(name.len() == 2);
        }
    }
    Some((start, end))
}

/// What an extension is called, without the prefix.
fn extension_label(path: &str) -> (r: String)
    ensures
        r@ == label_of(path@),
{
    let chars = text::to_chars(path);
    let n: usize = chars.len();
    if n > 0 && chars[0] == '<' {
        let mut from: usize = 0;
        while from < n && chars[from] == '<'
            invariant
                from <= n == chars@.len(),
                leading(chars@, '<', 0) == leading(chars@, '<', from as int),
            ensures
                from <= n,
                leading(chars@, '<', 0) == from,
            decreases n - from,
        {
            from += 1;
        }
        let mut end: usize = n;
        while end > from && chars[end - 1] == '>'
            invariant
                from <= end <= n == chars@.len(),
                trailing(chars@, '>', from as int, n as int) == trailing(
                    chars@,
                    '>',
                    from as int,
                    end as int,
                ),
            ensures
                from <= end <= n,
                trailing(chars@, '>', from as int, n as int) == end,
            decreases end,
        {
            end -= 1;
        }
        return text::slice(path, from, end);
    }
    match file_name(&chars) {
        None => path.to_owned(),
        Some((start, end)) => {
            let ghost name = chars@.subrange(start as int, end as int);
            let mut dot: usize = end;
            while dot > start && chars[dot - 1] != '.'
                invariant
                    start <= dot <= end <= chars@.len(),
                    name == chars@.subrange(start as int, end as int),
                    last_dot(name, name.len() as int) == last_dot(name, dot - start),
                ensures
                    start <= dot <= end,
                    last_dot(name, name.len() as int) == dot - start - 1,
                decreases dot,
            {
                dot -= 1;
            }
            if dot <= start + 1 {
                text::slice(path, start, end)
            } else {
                assert(name.take(dot - start - 1) =~= chars@.subrange(start as int, dot - 1));
                text::slice(path, start, dot - 1)
            }
        },
    }
}

/// Where something comes from, as a mathematical value.
#[verifier::ext_equal]
pub struct SourceModel {
    pub path: Seq<char>,
    pub source: Seq<char>,
    pub scope: Option<Seq<char>>,
    pub origin: Option<Seq<char>>,
    pub base_dir: Option<Seq<char>>,
}

impl View for SourceInfo {
    type V = SourceModel;

    open spec fn view(&self) -> SourceModel {
        SourceModel {
            path: self.path@,
            source: self.source@,
            scope: session::text_view(self.scope),
            origin: session::text_view(self.origin),
            base_dir: session::text_view(self.base_dir),
        }
    }
}

/// A slash command as a mathematical value.
#[verifier::ext_equal]
pub struct SlashCommandModel {
    pub name: Seq<char>,
    pub description: Option<Seq<char>>,
    pub source: SlashCommandSource,
    pub source_info: SourceModel,
}

impl View for SlashCommandInfo {
    type V = SlashCommandModel;

    open spec fn view(&self) -> SlashCommandModel {
        SlashCommandModel {
            name: self.name@,
            description: session::text_view(self.description),
            source: self.source,
            source_info: self.source_info@,
        }
    }
}

/// The commands of a list as mathematical values.
pub open spec fn command_models(commands: Seq<SlashCommandInfo>) -> Seq<SlashCommandModel> {
    commands.map_values(|c: SlashCommandInfo| c@)
}

/// Where a command comes from of whose extension only the path is known.
pub open spec fn extension_source(path: Seq<char>) -> SourceModel {
    SourceModel { path, source: "extension"@, scope: None, origin: None, base_dir: None }
}

/// A command that an extension registered with the host.
pub open spec fn catalog_command(entry: CommandCatalogEntry) -> SlashCommandModel {
    SlashCommandModel {
        name: entry.name@,
        description: Some(entry.description@),
        source: SlashCommandSource::Extension,
        source_info: match entry.source_info {
            Some(info) => info@,
            None => extension_source(
                match entry.source {
                    Some(path) => path@,
                    None => "<extension>"@,
                },
            ),
        },
    }
}

/// A command of which only the name is known.
pub open spec fn registered_command(name: Seq<char>) -> SlashCommandModel {
    SlashCommandModel {
        name,
        description: None,
        source: SlashCommandSource::Extension,
        source_info: extension_source("<extension>"@),
    }
}

/// The command of a prompt template.
pub open spec fn template_command(t: PromptTemplate) -> SlashCommandModel {
    SlashCommandModel {
        name: t.name@,
        description: Some(t.description@),
        source: SlashCommandSource::Prompt,
        source_info: t.source_info@,
    }
}

/// The command of a skill.
pub open spec fn skill_command(s: Skill) -> SlashCommandModel {
    SlashCommandModel {
        name: "skill:"@ + s.name@,
        description: Some(s.description@),
        source: SlashCommandSource::Skill,
        source_info: s.source_info@,
    }
}

/// Whether the host's catalog has a command of this name.
pub open spec fn in_catalog(catalog: Seq<CommandCatalogEntry>, name: Seq<char>) -> bool {
    exists|i: int| 0 <= i < catalog.len() && #[trigger] catalog[i].name@ == name
}

/// Whether this name is in the list.
pub open spec fn has_name(names: Seq<String>, name: Seq<char>) -> bool {
    exists|i: int| 0 <= i < names.len() && #[trigger] names[i]@ == name
}

/// The registered names that the catalog does not have, each once, in their order.
pub open spec fn fresh_names(
    catalog: Seq<CommandCatalogEntry>,
    registered: Seq<String>,
) -> Seq<Seq<char>>
    decreases registered.len(),
{
    if registered.len() == 0 {
        seq![]
    } else {
        let before = fresh_names(catalog, registered.drop_last());
        let name = registered.last()@;
        if in_catalog(catalog, name) || has_name(registered.drop_last(), name) {
            before
        } else {
            before.push(name)
        }
    }
}

/// The slash commands: those of the host's catalog, the other registered ones, the prompt templates
/// and the skills.
pub open spec fn slash_catalog(
    s: SessionModel,
    catalog: Seq<CommandCatalogEntry>,
    registered: Seq<String>,
) -> Seq<SlashCommandModel> {
    catalog.map_values(|e: CommandCatalogEntry| catalog_command(e)) + fresh_names(
        catalog,
        registered,
    ).map_values(|n: Seq<char>| registered_command(n)) + s.templates.map_values(
        |t: PromptTemplate| template_command(t),
    ) + s.skills.map_values(|k: Skill| skill_command(k))
}

/// A registered command is listed once, whether it is in the host's catalog or not: each registered
/// name is in the catalog or among the added ones, none of which is in the catalog or twice there.
pub proof fn law_registered_commands_are_listed_once(
    catalog: Seq<CommandCatalogEntry>,
    registered: Seq<String>,
)
    ensures
        fresh_names(catalog, registered).no_duplicates(),
        forall|i: int|
            0 <= i < fresh_names(catalog, registered).len() ==> !in_catalog(
                catalog,
                #[trigger] fresh_names(catalog, registered)[i],
            ) && has_name(registered, fresh_names(catalog, registered)[i]),
        forall|i: int|
            0 <= i < registered.len() ==> in_catalog(catalog, #[trigger] registered[i]@)
                || fresh_names(catalog, registered).contains(registered[i]@),
    decreases registered.len(),
{
    if registered.len() > 0 {
        let rest = registered.drop_last();
        let before = fresh_names(catalog, rest);
        let now = fresh_names(catalog, registered);
        let name = registered.last()@;
        law_registered_commands_are_listed_once(catalog, rest);
        assert forall|n: Seq<char>| has_name(rest, n) implies has_name(registered, n) by {
            let i = choose|i: int| 0 <= i < rest.len() && #[trigger] rest[i]@ == n;
            assert(registered[i]@ == n);
        }
        assert(registered[registered.len() - 1]@ == name);
        assert(has_name(registered, name));
        assert forall|i: int| 0 <= i < now.len() implies !in_catalog(catalog, #[trigger] now[i])
            && has_name(registered, now[i]) by {
            if i < before.len() {
                assert(now[i] == before[i]);
            }
        }
        assert(now.no_duplicates()) by {
            assert forall|i: int, j: int|
                0 <= i < now.len() && 0 <= j < now.len() && i != j implies now[i] != now[j] by {
                if i < before.len() {
                    assert(now[i] == before[i]);
                }
                if j < before.len() {
                    assert(now[j] == before[j]);
                }
            }
        }
        assert forall|i: int| 0 <= i < registered.len() implies in_catalog(
            catalog,
            #[trigger] registered[i]@,
        ) || now.contains(registered[i]@) by {
            if i < rest.len() {
                assert(rest[i] == registered[i]);
                if before.contains(registered[i]@) {
                    let k = choose|k: int| 0 <= k < before.len() && before[k] == registered[i]@;
                    assert(now[k] == before[k]);
                }
            } else if has_name(rest, name) {
                let k = choose|k: int| 0 <= k < rest.len() && #[trigger] rest[k]@ == name;
                assert(in_catalog(catalog, rest[k]@) || before.contains(rest[k]@));
            } else if !in_catalog(catalog, name) {
                assert(now[before.len() as int] == name);
            }
        }
    }
}

fn catalog_has(catalog: &Vec<CommandCatalogEntry>, name: &str) -> (r: bool)
    ensures
        r == in_catalog(catalog@, name@),
{
    let n: usize = catalog.len();
    let mut i: usize = 0;
    while i < n
        invariant
            n == catalog@.len(),
            i <= n,
            forall|j: int| 0 <= j < i ==> #[trigger] catalog@[j].name@ != name@,
        decreases n - i,
    {
        if text::same_text(catalog[i].name.as_str(), name) {
            return true;
        }
        i += 1;
    }
    false
}

fn name_among(names: &Vec<String>, end: usize, name: &str) -> (r: bool)
    requires
        end <= names@.len(),
    ensures
        r == has_name(names@.take(end as int), name@),
{
    let mut i: usize = 0;
    while i < end
        invariant
            i <= end <= names@.len(),
            forall|j: int| 0 <= j < i ==> #[trigger] names@.take(end as int)[j]@ != name@,
        decreases end - i,
    {
        assert(names@.take(end as int)[i as int] == names@[i as int]);
        if text::same_text(names[i].as_str(), name) {
            return true;
        }
        i += 1;
    }
    false
}

fn extension_source_info(path: &str) -> (r: SourceInfo)
    ensures
        r@ == extension_source(path@),
{
    SourceInfo {
        path: path.to_owned(),
        source: "extension".to_owned(),
        scope: None,
        origin: None,
        base_dir: None,
    }
}

fn push_command(commands: &mut Vec<SlashCommandInfo>, command: SlashCommandInfo)
    ensures
        command_models(final(commands)@) == command_models(old(commands)@).push(command@),
{
    let ghost before = commands@;
    commands.push(command);
    assert(command_models(commands@) =~= command_models(before).push(command@));
}

fn catalog_command_info(entry: &CommandCatalogEntry) -> (r: SlashCommandInfo)
    ensures
        r@ == catalog_command(*entry),
{
    SlashCommandInfo {
        name: entry.name.clone(),
        description: Some(entry.description.clone()),
        source: SlashCommandSource::Extension,
        source_info: match &entry.source_info {
            Some(info) => info.clone(),
            None => match &entry.source {
                Some(path) => extension_source_info(path.as_str()),
                None => extension_source_info("<extension>"),
            },
        },
    }
}

fn registered_command_info(name: &str) -> (r: SlashCommandInfo)
    ensures
        r@ == registered_command(name@),
{
    SlashCommandInfo {
        name: name.to_owned(),
        description: None,
        source: SlashCommandSource::Extension,
        source_info: extension_source_info("<extension>"),
    }
}

fn push_catalog(commands: &mut Vec<SlashCommandInfo>, catalog: &Vec<CommandCatalogEntry>)
    ensures
        command_models(final(commands)@) == command_models(old(commands)@) + catalog@.map_values(
            |e: CommandCatalogEntry| catalog_command(e),
        ),
{
    let ghost before = command_models(commands@);
    let ghost added = catalog@.map_values(|e: CommandCatalogEntry| catalog_command(e));
    let n: usize = catalog.len();
    let mut i: usize = 0;
    assert(before + added.take(0) =~= before);
    while i < n
        invariant
            n == catalog@.len(),
            i <= n,
            added == catalog@.map_values(|e: CommandCatalogEntry| catalog_command(e)),
            command_models(commands@) == before + added.take(i as int),
        decreases n - i,
    {
        push_command(commands, catalog_command_info(&catalog[i]));
        assert(before + added.take(i + 1) =~= (before + added.take(i as int)).push(
            catalog_command(catalog@[i as int]),
        ));
        i += 1;
    }
    assert(added.take(n as int) =~= added);
}

fn push_registered(
    commands: &mut Vec<SlashCommandInfo>,
    catalog: &Vec<CommandCatalogEntry>,
    registered: &Vec<String>,
)
    ensures
        command_models(final(commands)@) == command_models(old(commands)@) + fresh_names(
            catalog@,
            registered@,
        ).map_values(|n: Seq<char>| registered_command(n)),
{
    let ghost before = command_models(commands@);
    let n: usize = registered.len();
    let mut i: usize = 0;
    assert(before + fresh_names(catalog@, registered@.take(0)).map_values(
        |n: Seq<char>| registered_command(n),
    ) =~= before);
    while i < n
        invariant
            n == registered@.len(),
            i <= n,
            command_models(commands@) == before + fresh_names(
                catalog@,
                registered@.take(i as int),
            ).map_values(|n: Seq<char>| registered_command(n)),
        decreases n - i,
    {
        let ghost names = fresh_names(catalog@, registered@.take(i as int));
        assert(registered@.take(i + 1).drop_last() =~= registered@.take(i as int));
        if !catalog_has(catalog, registered[i].as_str()) && !name_among(
            registered,
            i,
            registered[i].as_str(),
        ) {
            push_command(commands, registered_command_info(registered[i].as_str()));
            assert(names.push(registered@[i as int]@).map_values(
                |n: Seq<char>| registered_command(n),
            ) =~= names.map_values(|n: Seq<char>| registered_command(n)).push(
                registered_command(registered@[i as int]@),
            ));
            assert(command_models(commands@) =~= before + fresh_names(
                catalog@,
                registered@.take(i + 1),
            ).map_values(|n: Seq<char>| registered_command(n)));
        }
        i += 1;
    }
    assert(registered@.take(n as int) =~= registered@);
}

fn push_templates(commands: &mut Vec<SlashCommandInfo>, templates: &Vec<PromptTemplate>)
    ensures
        command_models(final(commands)@) == command_models(old(commands)@) + templates@.map_values(
            |t: PromptTemplate| template_command(t),
        ),
{
    let ghost before = command_models(commands@);
    let ghost added = templates@.map_values(|t: PromptTemplate| template_command(t));
    let n: usize = templates.len();
    let mut i: usize = 0;
    assert(before + added.take(0) =~= before);
    while i < n
        invariant
            n == templates@.len(),
            i <= n,
            added == templates@.map_values(|t: PromptTemplate| template_command(t)),
            command_models(commands@) == before + added.take(i as int),
        decreases n - i,
    {
        push_command(
            commands,
            SlashCommandInfo {
                name: templates[i].name.clone(),
                description: Some(templates[i].description.clone()),
                source: SlashCommandSource::Prompt,
                source_info: templates[i].source_info.clone(),
            },
        );
        assert(before + added.take(i + 1) =~= (before + added.take(i as int)).push(
            template_command(templates@[i as int]),
        ));
        i += 1;
    }
    assert(added.take(n as int) =~= added);
}

fn push_skills(commands: &mut Vec<SlashCommandInfo>, skills: &Vec<Skill>)
    ensures
        command_models(final(commands)@) == command_models(old(commands)@) + skills@.map_values(
            |k: Skill| skill_command(k),
        ),
{
    let ghost before = command_models(commands@);
    let ghost added = skills@.map_values(|k: Skill| skill_command(k));
    let n: usize = skills.len();
    let mut i: usize = 0;
    assert(before + added.take(0) =~= before);
    while i < n
        invariant
            n == skills@.len(),
            i <= n,
            added == skills@.map_values(|k: Skill| skill_command(k)),
            command_models(commands@) == before + added.take(i as int),
        decreases n - i,
    {
        push_command(
            commands,
            SlashCommandInfo {
                name: text::concat2("skill:", skills[i].name.as_str()),
                description: Some(skills[i].description.clone()),
                source: SlashCommandSource::Skill,
                source_info: skills[i].source_info.clone(),
            },
        );
        assert(before + added.take(i + 1) =~= (before + added.take(i as int)).push(
            skill_command(skills@[i as int]),
        ));
        i += 1;
    }
    assert(added.take(n as int) =~= added);
}

impl AgentSession {
    /// What an extension is called in listings.
    #[must_use]
    pub fn get_extension_source_label(extension_path: &str) -> (r: String)
        ensures
            r@ == "extension:"@ + label_of(extension_path@),
    {
        let label = extension_label(extension_path);
        text::concat2("extension:", label.as_str())
    }

    /// The slash commands. `catalog` holds those of the extension host, none without a host, and
    /// `registered` the names that the extension runner knows.
    #[must_use]
    pub fn slash_commands(
        &self,
        catalog: &Vec<CommandCatalogEntry>,
        registered: &Vec<String>,
    ) -> (r: Vec<SlashCommandInfo>)
        ensures
            command_models(r@) == slash_catalog(self@, catalog@, registered@),
    {
        let mut commands: Vec<SlashCommandInfo> = Vec::new();
        let ghost none = command_models(commands@);
        assert(none =~= seq![]);
        push_catalog(&mut commands, catalog);
        push_registered(&mut commands, catalog, registered);
        push_templates(&mut commands, &self.prompt_templates);
        push_skills(&mut commands, &self.skills);
        assert(command_models(commands@) =~= slash_catalog(self@, catalog@, registered@));
        commands
    }

    /// Tells the bound error listener of an error, where there is one.
    pub fn report_extension_error(&mut self, message: String)
        ensures
            final(self)@ == reported(old(self)@, message),
    {
        if self.bindings.has_error_listener {
            self.outbox.push(Effect::ReportError(message));
        }
    }

    /// Calls the bound shutdown handler, where there is one.
    pub fn invoke_extension_shutdown_handler(&mut self)
        ensures
            final(self)@ == if old(self)@.bindings.has_shutdown_handler {
                old(self)@.put(Effect::CallShutdownHandler)
            } else {
                old(self)@
            },
    {
        if self.bindings.has_shutdown_handler {
            self.outbox.push(Effect::CallShutdownHandler);
        }
    }

    /// The mode that extensions are bound in.
    #[must_use]
    pub fn extension_mode(&self) -> (r: Option<ExtensionMode>)
        ensures
            r == self@.bindings.mode,
    {
        self.bindings.mode
    }

    /// Whether an extension host is attached.
    #[must_use]
    pub fn host_extension_runner(&self) -> (r: bool)
        ensures
            r == self@.lifecycle.host_attached,
    {
        self.lifecycle.host_attached
    }

    /// Attaches or takes off the extension host.
    pub fn set_host_extension_runner(&mut self, attached: bool)
        ensures
            final(self)@ == (SessionModel {
                lifecycle: SessionLifecycle { host_attached: attached, ..old(self)@.lifecycle },
                ..old(self)@
            }),
    {
        self.lifecycle.host_attached = attached;
    }

    /// What is handed to whoever replaced a session by this one.
    pub fn create_replaced_session_context(&self, session_id: String) -> (r: ReplacedSessionContext)
        ensures
            r.session_id == session_id,
            r.sent_custom_messages@.len() == 0,
            r.sent_user_messages@.len() == 0,
    {
        ReplacedSessionContext {
            session_id,
            sent_custom_messages: Vec::new(),
            sent_user_messages: Vec::new(),
        }
    }

    /// The session as extensions see it.
    pub fn session_state(
        &self,
        session_name: Option<String>,
        all_tools: Vec<ToolInfo>,
        catalog: &Vec<CommandCatalogEntry>,
        registered: &Vec<String>,
        context_usage: Option<ContextUsage>,
    ) -> (r: SessionState)
        ensures
            r.session_name == session_name,
            r.thinking_level == self@.agent.thinking_level,
            r.active_tools@ == self@.active_tools,
            r.all_tools == all_tools,
            command_models(r.commands@) == slash_catalog(self@, catalog@, registered@),
            r.model == Some(self@.agent.model),
            r.scoped_models@ == self@.scoped_models,
            r.is_idle == (!self@.lifecycle.is_agent_run_active && !self@.agent.is_streaming),
            r.has_pending_messages == (self@.steering.len() > 0 || self@.follow_up.len() > 0),
            r.context_usage == context_usage,
            r.system_prompt@ == effective_prompt(self@),
    {
        SessionState {
            session_name,
            thinking_level: self.thinking_level(),
            active_tools: self.active_tool_names(),
            all_tools,
            commands: self.slash_commands(catalog, registered),
            model: Some(self.model()),
            scoped_models: self.scoped_models(),
            is_idle: self.is_idle(),
            has_pending_messages: self.pending_message_count() > 0,
            context_usage,
            system_prompt: self.hooks.effective_system_prompt(),
        }
    }
}

/// A session whose error listener, where there is one, was told of an error.
pub open spec fn reported(s: SessionModel, message: String) -> SessionModel {
    if s.bindings.has_error_listener {
        s.put(Effect::ReportError(message))
    } else {
        s
    }
}

/// The system prompt in effect: the one of this turn, else the base one.
pub open spec fn effective_prompt(s: SessionModel) -> Seq<char> {
    match s.prompt_override {
        Some(prompt) => prompt,
        None => s.base_prompt,
    }
}

/// The events after which a session looks different to extensions.
pub open spec fn changes_state(event: AgentSessionEvent) -> bool {
    match event {
        AgentSessionEvent::AgentStart => true,
        AgentSessionEvent::AgentEnd { .. } => true,
        AgentSessionEvent::AgentSettled => true,
        AgentSessionEvent::ModelSelect { .. } => true,
        AgentSessionEvent::ThinkingLevelChanged { .. } => true,
        AgentSessionEvent::SessionInfoChanged { .. } => true,
        AgentSessionEvent::QueueUpdate { .. } => true,
        AgentSessionEvent::CompactionEnd { .. } => true,
        _ => false,
    }
}

/// Whether the state that extensions see is to be sent anew after this event.
pub fn state_changed_by(event: &AgentSessionEvent) -> (r: bool)
    ensures
        r == changes_state(*event),
{
    match event {
        AgentSessionEvent::AgentStart
        | AgentSessionEvent::AgentEnd { .. }
        | AgentSessionEvent::AgentSettled
        | AgentSessionEvent::ModelSelect { .. }
        | AgentSessionEvent::ThinkingLevelChanged { .. }
        | AgentSessionEvent::SessionInfoChanged { .. }
        | AgentSessionEvent::QueueUpdate { .. }
        | AgentSessionEvent::CompactionEnd { .. } => true,
        _ => false,
    }
}

/// A session that was bound.
pub open spec fn bound(s: SessionModel, b: ExtensionBindings) -> SessionModel {
    SessionModel {
        bindings: BoundExtensions {
            mode: b.mode,
            ui_tag: match b.ui_context {
                Some(context) => context.tag,
                None => None,
            },
            has_shutdown_handler: b.has_shutdown_handler,
            has_error_listener: b.has_error_listener,
            command_context: b.command_context_actions,
        },
        ..s
    }
}

/// A session whose start was told to extensions, where it had not been told.
pub open spec fn start_told(s: SessionModel) -> SessionModel {
    match s.pending_start {
        Some(event) => SessionModel { pending_start: None, ..s }.put(
            Effect::ToExtensions(
                AgentSessionEvent::SessionStart {
                    reason: event.reason,
                    previous_session_file: event.previous_session_file,
                },
            ),
        ),
        None => s,
    }
}

/// The reason for which resources are discovered: only a reload counts as one.
pub open spec fn discover_reason(s: SessionModel) -> SessionStartReason {
    match s.pending_start {
        Some(event) => if event.reason == SessionStartReason::Reload {
            SessionStartReason::Reload
        } else {
            SessionStartReason::Startup
        },
        None => SessionStartReason::Startup,
    }
}

/// How often the start of a session was told.
pub open spec fn starts_told(outbox: Seq<Effect>) -> nat
    decreases outbox.len(),
{
    if outbox.len() == 0 {
        0
    } else {
        starts_told(outbox.drop_last()) + if outbox.last() matches Effect::ToExtensions(
            AgentSessionEvent::SessionStart { .. },
        ) {
            1nat
        } else {
            0nat
        }
    }
}

/// The first bind tells the start of the session, and no later one does: binding `bindings` one
/// after the other tells it once where it had not been told, and else never.
pub proof fn law_start_is_told_once(s: SessionModel, bindings: Seq<ExtensionBindings>)
    ensures
        starts_told(bound_times(s, bindings).outbox) == starts_told(s.outbox) + if bindings.len()
            > 0 && s.pending_start is Some {
            1nat
        } else {
            0nat
        },
        bindings.len() > 0 ==> bound_times(s, bindings).pending_start is None,
    decreases bindings.len(),
{
    if bindings.len() > 0 {
        let before = bound_times(s, bindings.drop_last());
        law_start_is_told_once(s, bindings.drop_last());
        let b = bound(before, bindings.last());
        if b.pending_start is Some {
            assert(start_told(b).outbox.drop_last() =~= b.outbox);
        }
        if bindings.len() == 1 {
            assert(before == s);
        }
    }
}

/// A session after being bound with each of a list.
pub open spec fn bound_times(s: SessionModel, bindings: Seq<ExtensionBindings>) -> SessionModel
    decreases bindings.len(),
{
    if bindings.len() == 0 {
        s
    } else {
        start_told(bound(bound_times(s, bindings.drop_last()), bindings.last()))
    }
}

/// The resources of a session, and the system prompt that follows from them.
#[derive(Debug, PartialEq)]
pub struct ResourceSnapshot {
    pub skills: Vec<Skill>,
    pub prompt_templates: Vec<PromptTemplate>,
    pub system_prompt: String,
}

/// A session with other resources. Its system prompt is theirs, that of the turn is gone.
pub open spec fn with_resources(s: SessionModel, r: ResourceSnapshot) -> SessionModel {
    SessionModel {
        skills: r.skills@,
        templates: r.prompt_templates@,
        base_prompt: r.system_prompt@,
        prompt_override: None,
        agent: AgentModel { system_prompt: r.system_prompt@, ..s.agent },
        ..s
    }
}

/// What is to be done next for the resources of extensions.
#[derive(Debug, PartialEq)]
pub enum ResourceStep {
    /// The resource loader reads its resources again.
    ReloadLoader,
    /// The runner is asked whether extensions name resources.
    AskHandlers,
    /// The extensions are asked for their resources.
    Discover,
    /// The resource loader takes the resources of the extensions.
    ExtendLoader,
    /// Nothing more is to be done.
    Finished(Result<(), ExtensionBindError>),
}

/// What came of a step.
#[derive(Debug, PartialEq)]
pub enum ResourceReply {
    LoaderReloaded(Result<ResourceSnapshot, String>),
    Handlers(bool),
    Discovered(Result<(), ExtensionRunnerError>),
    LoaderExtended(ResourceSnapshot),
}

/// The first step: nothing where the resources of the start are there already; on a reload the
/// loader reads again.
pub open spec fn resources_start(
    s: SessionModel,
    reason: SessionStartReason,
    has_loader: bool,
) -> ResourceStep {
    if reason == SessionStartReason::Startup && s.lifecycle.initial_resources_discovered {
        ResourceStep::Finished(Ok(()))
    } else if reason == SessionStartReason::Reload && has_loader {
        ResourceStep::ReloadLoader
    } else {
        ResourceStep::AskHandlers
    }
}

/// The step that follows.
pub open spec fn resources_next(reply: ResourceReply, has_loader: bool) -> ResourceStep {
    match reply {
        ResourceReply::LoaderReloaded(Ok(_)) => ResourceStep::AskHandlers,
        ResourceReply::LoaderReloaded(Err(m)) => ResourceStep::Finished(
            Err(ExtensionBindError::ResourceReload(m)),
        ),
        ResourceReply::Handlers(true) => ResourceStep::Discover,
        ResourceReply::Handlers(false) => ResourceStep::Finished(Ok(())),
        ResourceReply::Discovered(Ok(_)) => if has_loader {
            ResourceStep::ExtendLoader
        } else {
            ResourceStep::Finished(Ok(()))
        },
        ResourceReply::Discovered(Err(e)) => ResourceStep::Finished(
            Err(ExtensionBindError::ResourceDiscover(e)),
        ),
        ResourceReply::LoaderExtended(_) => ResourceStep::Finished(Ok(())),
    }
}

/// The session after a reply: it has the resources of the loader, and once those of the extensions
/// are there too, the resources of the start are discovered.
pub open spec fn resources_session(
    s: SessionModel,
    reason: SessionStartReason,
    has_loader: bool,
    reply: ResourceReply,
) -> SessionModel {
    let taken = match reply {
        ResourceReply::LoaderReloaded(Ok(snapshot)) => with_resources(s, snapshot),
        ResourceReply::LoaderExtended(snapshot) => with_resources(s, snapshot),
        _ => s,
    };
    let complete = match reply {
        ResourceReply::Discovered(Ok(_)) => !has_loader,
        ResourceReply::LoaderExtended(_) => true,
        _ => false,
    };
    if complete && reason == SessionStartReason::Startup {
        SessionModel {
            lifecycle: SessionLifecycle { initial_resources_discovered: true, ..taken.lifecycle },
            ..taken
        }
    } else {
        taken
    }
}

/// The texts that are appended to a system prompt, one behind the other with an empty line between.
pub open spec fn appended_prompt(parts: Seq<&str>) -> Option<Seq<char>> {
    if parts.len() == 0 {
        None
    } else {
        Some(pattern::joined(pattern::views(parts), "\n\n"@))
    }
}

/// The text that is appended to a system prompt, none where there are no parts.
pub fn append_system_prompt(parts: &Vec<&str>) -> (r: Option<String>)
    ensures
        session::text_view(r) == appended_prompt(parts@),
{
    if parts.is_empty() {
        None
    } else {
        Some(pattern::join(parts, "\n\n"))
    }
}

impl AgentSession {
    /// Binds extensions: records what they are bound with. The bridge of the host is bound next, and
    /// then [`AgentSession::tell_session_start`] goes on.
    pub fn bind_extensions(&mut self, bindings: ExtensionBindings)
        ensures
            final(self)@ == bound(old(self)@, bindings),
    {
        self.bindings = BoundExtensions {
            mode: bindings.mode,
            ui_tag: match bindings.ui_context {
                Some(context) => context.tag,
                None => None,
            },
            has_shutdown_handler: bindings.has_shutdown_handler,
            has_error_listener: bindings.has_error_listener,
            command_context: bindings.command_context_actions,
        };
    }

    /// Tells extensions that the session started, on the first bind, and gives the reason with which
    /// the resources are discovered.
    pub fn tell_session_start(&mut self) -> (r: SessionStartReason)
        ensures
            final(self)@ == start_told(old(self)@),
            r == discover_reason(old(self)@),
    {
        let pending = self.pending_session_start.take();
        match pending {
            Some(event) => {
                let reason = if event.reason == SessionStartReason::Reload {
                    SessionStartReason::Reload
                } else {
                    SessionStartReason::Startup
                };
                self.outbox.push(
                    Effect::ToExtensions(
                        AgentSessionEvent::SessionStart {
                            reason: event.reason,
                            previous_session_file: event.previous_session_file,
                        },
                    ),
                );
                reason
            },
            None => SessionStartReason::Startup,
        }
    }

    /// Begins to take the resources of extensions into the session.
    pub fn extend_resources_from_extensions(&self, reason: SessionStartReason, has_loader: bool) -> (r:
        ResourceStep)
        ensures
            r == resources_start(self@, reason, has_loader),
    {
        if reason == SessionStartReason::Startup && self.lifecycle.initial_resources_discovered {
            return ResourceStep::Finished(Ok(()));
        }
        if reason == SessionStartReason::Reload && has_loader {
            return ResourceStep::ReloadLoader;
        }
        ResourceStep::AskHandlers
    }

    /// Goes on after a step.
    pub fn advance_resources(
        &mut self,
        reason: SessionStartReason,
        has_loader: bool,
        reply: ResourceReply,
    ) -> (r: ResourceStep)
        ensures
            r == resources_next(reply, has_loader),
            final(self)@ == resources_session(old(self)@, reason, has_loader, reply),
    {
        match reply {
            ResourceReply::LoaderReloaded(Ok(snapshot)) => {
                self.apply_resource_snapshot(snapshot);
                ResourceStep::AskHandlers
            },
            ResourceReply::LoaderReloaded(Err(message)) => ResourceStep::Finished(
                Err(ExtensionBindError::ResourceReload(message)),
            ),
            ResourceReply::Handlers(true) => ResourceStep::Discover,
            ResourceReply::Handlers(false) => ResourceStep::Finished(Ok(())),
            ResourceReply::Discovered(Ok(_)) => if has_loader {
                ResourceStep::ExtendLoader
            } else {
                self.mark_resources_discovered(reason);
                ResourceStep::Finished(Ok(()))
            },
            ResourceReply::Discovered(Err(error)) => ResourceStep::Finished(
                Err(ExtensionBindError::ResourceDiscover(error)),
            ),
            ResourceReply::LoaderExtended(snapshot) => {
                self.apply_resource_snapshot(snapshot);
                self.mark_resources_discovered(reason);
                ResourceStep::Finished(Ok(()))
            },
        }
    }

    fn mark_resources_discovered(&mut self, reason: SessionStartReason)
        ensures
            final(self)@ == if reason == SessionStartReason::Startup {
                SessionModel {
                    lifecycle: SessionLifecycle {
                        initial_resources_discovered: true,
                        ..old(self)@.lifecycle
                    },
                    ..old(self)@
                }
            } else {
                old(self)@
            },
    {
        if reason == SessionStartReason::Startup {
            self.lifecycle.initial_resources_discovered = true;
        }
    }

    fn apply_resource_snapshot(&mut self, snapshot: ResourceSnapshot)
        ensures
            final(self)@ == with_resources(old(self)@, snapshot),
    {
        self.skills = snapshot.skills;
        self.prompt_templates = snapshot.prompt_templates;
        self.hooks.set_base_system_prompt(snapshot.system_prompt.clone());
        self.hooks.set_system_prompt_override(None);
        self.agent.system_prompt = snapshot.system_prompt;
    }
}

/// The resources of the start are discovered once: after they were, a further start asks for
/// nothing, while a reload asks again.
pub proof fn law_start_resources_are_discovered_once(
    s: SessionModel,
    reply: ResourceReply,
    has_loader: bool,
)
    requires
        resources_next(reply, has_loader) == ResourceStep::Finished(Ok(())),
        reply !is Handlers,
    ensures
        ({
            let after = resources_session(s, SessionStartReason::Startup, has_loader, reply);
            &&& resources_start(after, SessionStartReason::Startup, has_loader)
                == ResourceStep::Finished(Ok(()))
            &&& resources_start(after, SessionStartReason::Reload, has_loader) !is Finished
        }),
{
}

// ---------------------------------------------------------------------------
// What the operations promise
// ---------------------------------------------------------------------------

/// Each mode has its name.
pub proof fn law_modes_are_named(mode: ExtensionMode, name: &'static str)
    requires
        call_ensures(ExtensionMode::as_str, (mode,), name),
    ensures
        mode == ExtensionMode::Tui ==> name@ == "tui"@,
        mode == ExtensionMode::Print ==> name@ == "print"@,
        mode == ExtensionMode::Json ==> name@ == "json"@,
        mode == ExtensionMode::Rpc ==> name@ == "rpc"@,
{
}

/// The words of a failure to bind or reload.
pub proof fn law_bind_failures_are_named(
    error: &ExtensionBindError,
    cause: &ExtensionRunnerError,
    cause_words: String,
    words: String,
)
    requires
        call_ensures(ExtensionBindError::message, (error,), words),
        call_ensures(ExtensionRunnerError::message, (cause,), cause_words),
    ensures
        *error == ExtensionBindError::ResourceDiscover(*cause) ==> words@
            == "extension resource discovery failed: "@ + cause_words@,
        *error matches ExtensionBindError::ResourceReload(m) ==> words@
            == "resource reload failed: "@ + m@,
        *error matches ExtensionBindError::HostRestart(m) ==> words@
            == "extension host restart failed: "@ + m@,
        *error matches ExtensionBindError::SettingsReload(m) ==> words@
            == "settings reload failed: "@ + m@,
{
}

/// What was sent to a new session is kept in order, each kind on its own.
pub proof fn law_sent_messages_are_kept(
    a: &mut ReplacedSessionContext,
    b: &mut ReplacedSessionContext,
    text: String,
    done: (),
)
    requires
        call_ensures(ReplacedSessionContext::send_custom_message, (a, text), done),
        call_ensures(ReplacedSessionContext::send_user_message, (b, text), done),
    ensures
        final(a).sent_custom_messages@ == old(a).sent_custom_messages@.push(text),
        final(a).sent_user_messages@ == old(a).sent_user_messages@,
        final(b).sent_user_messages@ == old(b).sent_user_messages@.push(text),
        final(b).sent_custom_messages@ == old(b).sent_custom_messages@,
        final(a).session_id == old(a).session_id && final(b).session_id == old(b).session_id,
{
}

proof fn lemma_leading(text: Seq<char>, c: char, from: int, to: int)
    requires
        0 <= from <= to <= text.len(),
        forall|k: int| from <= k < to ==> #[trigger] text[k] == c,
        to < text.len() ==> text[to] != c,
    ensures
        leading(text, c, from) == to,
    decreases to - from,
{
    if from < to {
        assert(text[from] == c);
        lemma_leading(text, c, from + 1, to);
    }
}

/// An extension with a name in angle brackets is called by that name.
pub proof fn law_bracketed_extensions_are_called_by_name(path: &str, name: Seq<char>, label: String)
    requires
        call_ensures(AgentSession::get_extension_source_label, (path,), label),
        path@ == seq!['<'] + name + seq!['>'],
        name.len() > 0,
        name[0] != '<',
        name.last() != '>',
    ensures
        label@ == "extension:"@ + name,
{
    let p = path@;
    let n = p.len() as int;
    assert(p[1] == name[0]);
    assert(p[n - 2] == name.last());
    lemma_leading(p, '<', 0, 1);
    assert(trailing(p, '>', 1, n) == trailing(p, '>', 1, n - 1));
    assert(trailing(p, '>', 1, n - 1) == n - 1);
    assert(p.subrange(1, n - 1) =~= name);
}

proof fn lemma_component_start(path: Seq<char>, start: int, end: int)
    requires
        0 <= start <= end <= path.len(),
        start == 0 || path[start - 1] == '/',
        forall|k: int| start <= k < end ==> #[trigger] path[k] != '/',
    ensures
        component_start(path, end) == start,
    decreases end - start,
{
    if start < end {
        assert(path[end - 1] != '/');
        lemma_component_start(path, start, end - 1);
    }
}

proof fn lemma_last_dot(name: Seq<char>, dot: int, end: int)
    requires
        0 <= dot < end <= name.len(),
        name[dot] == '.',
        forall|k: int| dot < k < end ==> #[trigger] name[k] != '.',
    ensures
        last_dot(name, end) == dot,
    decreases end - dot,
{
    if dot < end - 1 {
        assert(name[end - 1] != '.');
        lemma_last_dot(name, dot, end - 1);
    }
}

/// An extension in a file is called by the name of the file without its extension, wherever the file
/// is.
pub proof fn law_extensions_are_called_by_their_file(
    path: &str,
    dir: Seq<char>,
    stem: Seq<char>,
    ext: Seq<char>,
    label: String,
)
    requires
        call_ensures(AgentSession::get_extension_source_label, (path,), label),
        path@ == dir + seq!['/'] + stem + seq!['.'] + ext,
        dir.len() == 0 || dir[0] != '<',
        stem.len() > 0,
        !stem.contains('/'),
        ext.len() > 0,
        !ext.contains('/'),
        !ext.contains('.'),
    ensures
        label@ == "extension:"@ + stem,
{
    let p = path@;
    let n = p.len() as int;
    let start = dir.len() as int + 1;
    let dot = start + stem.len();
    assert(n == dot + 1 + ext.len());
    assert(p[0] != '<') by {
        if dir.len() > 0 {
            assert(p[0] == dir[0]);
        }
    }
    assert(p[start - 1] == '/');
    assert forall|k: int| start <= k < n implies #[trigger] p[k] != '/' by {
        if k < dot {
            assert(p[k] == stem[k - start]);
            assert(stem.contains(stem[k - start]));
        } else if k > dot {
            assert(p[k] == ext[k - dot - 1]);
            assert(ext.contains(ext[k - dot - 1]));
        }
    }
    assert(p[n - 1] == ext.last());
    assert(ext.contains(ext.last()));
    assert(path_end(p, n) == n);
    lemma_component_start(p, start, n);
    let name = p.subrange(start, n);
    assert(name.len() >= 3);
    assert forall|k: int| stem.len() < k < name.len() implies #[trigger] name[k] != '.' by {
        assert(name[k] == ext[k - stem.len() - 1]);
        assert(ext.contains(ext[k - stem.len() - 1]));
    }
    assert(name[stem.len() as int] == '.');
    lemma_last_dot(name, stem.len() as int, name.len() as int);
    assert(name.take(stem.len() as int) =~= stem);
}

/// The commands of a session: those of the host first, in their order, then the registered ones that
/// the host does not list, then the templates and at the end the skills. Each tells its name and its
/// description, and where it comes from.
pub proof fn law_slash_commands_are_listed(
    session: &AgentSession,
    catalog: &Vec<CommandCatalogEntry>,
    registered: &Vec<String>,
    k: int,
    r: Vec<SlashCommandInfo>,
)
    requires
        call_ensures(AgentSession::slash_commands, (session, catalog, registered), r),
    ensures
        ({
            let c = catalog@.len() as int;
            let t = session@.templates.len() as int;
            let s = session@.skills.len() as int;
            let n = r@.len() as int;
            &&& n >= c + t + s
            &&& 0 <= k < c ==> r@[k].name@ == catalog@[k].name@ && (r@[k].description matches Some(d)
                && d@ == catalog@[k].description@) && r@[k].source == SlashCommandSource::Extension
            &&& c <= k < n - t - s ==> r@[k].source == SlashCommandSource::Extension
                && r@[k].description is None && has_name(registered@, r@[k].name@) && !in_catalog(
                catalog@,
                r@[k].name@,
            )
            &&& 0 <= k < t ==> r@[n - s - t + k].name@ == session@.templates[k].name@ && (r@[n - s - t
                + k].description matches Some(d) && d@ == session@.templates[k].description@)
                && r@[n - s - t + k].source == SlashCommandSource::Prompt && r@[n - s - t
                + k].source_info@ == session@.templates[k].source_info@
            &&& 0 <= k < s ==> r@[n - s + k].name@ == "skill:"@ + session@.skills[k].name@ && (r@[n
                - s + k].description matches Some(d) && d@ == session@.skills[k].description@)
                && r@[n - s + k].source == SlashCommandSource::Skill && r@[n - s + k].source_info@
                == session@.skills[k].source_info@
        }),
{
    let c = catalog@.len() as int;
    let t = session@.templates.len() as int;
    let s = session@.skills.len() as int;
    let names = fresh_names(catalog@, registered@);
    let m = names.len() as int;
    let all = command_models(r@);
    assert(all.len() == r@.len());
    assert(r@.len() == c + m + t + s);
    law_registered_commands_are_listed_once(catalog@, registered@);
    if 0 <= k < c {
        assert(all[k] == catalog_command(catalog@[k]));
        assert(all[k] == r@[k]@);
    }
    if c <= k < c + m {
        assert(all[k] == registered_command(names[k - c]));
        assert(all[k] == r@[k]@);
        assert(!in_catalog(catalog@, names[k - c]));
    }
    if 0 <= k < t {
        assert(all[c + m + k] == template_command(session@.templates[k]));
        assert(all[c + m + k] == r@[c + m + k]@);
    }
    if 0 <= k < s {
        assert(all[c + m + t + k] == skill_command(session@.skills[k]));
        assert(all[c + m + t + k] == r@[c + m + t + k]@);
    }
}

/// Every registered command is listed, and no name twice among those that the host does not list.
pub proof fn law_every_registered_command_is_listed(
    session: &AgentSession,
    catalog: &Vec<CommandCatalogEntry>,
    registered: &Vec<String>,
    i: int,
    r: Vec<SlashCommandInfo>,
)
    requires
        call_ensures(AgentSession::slash_commands, (session, catalog, registered), r),
        0 <= i < registered@.len(),
    ensures
        exists|k: int|
            0 <= k < r@.len() && (#[trigger] r@[k]).name@ == registered@[i]@ && r@[k].source
                == SlashCommandSource::Extension,
        forall|a: int, b: int|
            catalog@.len() <= a < b < r@.len() - session@.templates.len() - session@.skills.len()
                ==> (#[trigger] r@[a]).name@ != (#[trigger] r@[b]).name@,
{
    let c = catalog@.len() as int;
    let names = fresh_names(catalog@, registered@);
    let all = command_models(r@);
    assert(all.len() == r@.len());
    law_registered_commands_are_listed_once(catalog@, registered@);
    assert(in_catalog(catalog@, registered@[i]@) || names.contains(registered@[i]@));
    if in_catalog(catalog@, registered@[i]@) {
        let k = choose|k: int|
            0 <= k < catalog@.len() && #[trigger] catalog@[k].name@ == registered@[i]@;
        assert(all[k] == catalog_command(catalog@[k]));
        assert(all[k] == r@[k]@);
        assert(r@[k].name@ == registered@[i]@);
    } else {
        let k = choose|k: int| 0 <= k < names.len() && names[k] == registered@[i]@;
        assert(all[c + k] == registered_command(names[k]));
        assert(all[c + k] == r@[c + k]@);
        assert(r@[c + k].name@ == registered@[i]@);
    }
    assert forall|a: int, b: int|
        catalog@.len() <= a < b < r@.len() - session@.templates.len()
            - session@.skills.len() implies (#[trigger] r@[a]).name@
        != (#[trigger] r@[b]).name@ by {
        assert(all[a] == registered_command(names[a - c]));
        assert(all[a] == r@[a]@);
        assert(all[b] == registered_command(names[b - c]));
        assert(all[b] == r@[b]@);
        assert(names[a - c] != names[b - c]);
    }
}

/// A command of the host comes from where the host says, or else from the extension that it names.
pub proof fn law_host_commands_tell_where_they_come_from(
    session: &AgentSession,
    catalog: &Vec<CommandCatalogEntry>,
    registered: &Vec<String>,
    k: int,
    r: Vec<SlashCommandInfo>,
)
    requires
        call_ensures(AgentSession::slash_commands, (session, catalog, registered), r),
        0 <= k < catalog@.len(),
    ensures
        k < r@.len(),
        catalog@[k].source_info matches Some(info) ==> r@[k].source_info@ == info@,
        catalog@[k].source_info is None ==> r@[k].source_info.source@ == "extension"@ && (
        catalog@[k].source is Some ==> r@[k].source_info.path@ == catalog@[k].source->0@) && (
        catalog@[k].source is None ==> r@[k].source_info.path@ == "<extension>"@),
{
    let all = command_models(r@);
    assert(all.len() == r@.len());
    assert(all[k] == catalog_command(catalog@[k]));
    assert(all[k] == r@[k]@);
}

/// An error reaches the listener where one is bound, a shutdown the handler where one is bound; without
/// them nothing happens.
pub proof fn law_only_bound_listeners_are_called(
    a: &mut AgentSession,
    b: &mut AgentSession,
    message: String,
    done: (),
)
    requires
        call_ensures(AgentSession::report_extension_error, (a, message), done),
        call_ensures(AgentSession::invoke_extension_shutdown_handler, (b,), done),
    ensures
        old(a)@.bindings.has_error_listener ==> final(a)@ == (SessionModel {
            outbox: old(a)@.outbox.push(Effect::ReportError(message)),
            ..old(a)@
        }),
        !old(a)@.bindings.has_error_listener ==> final(a)@ == old(a)@,
        old(b)@.bindings.has_shutdown_handler ==> final(b)@ == (SessionModel {
            outbox: old(b)@.outbox.push(Effect::CallShutdownHandler),
            ..old(b)@
        }),
        !old(b)@.bindings.has_shutdown_handler ==> final(b)@ == old(b)@,
{
}

/// A host that was attached is attached, and the mode is the one that was bound.
pub proof fn law_the_host_is_attached_as_set(
    session: &mut AgentSession,
    seen: &AgentSession,
    attached: bool,
    told: bool,
    mode: Option<ExtensionMode>,
    done: (),
)
    requires
        call_ensures(AgentSession::set_host_extension_runner, (session, attached), done),
        seen@ == final(session)@,
        call_ensures(AgentSession::host_extension_runner, (seen,), told),
        call_ensures(AgentSession::extension_mode, (seen,), mode),
    ensures
        told == attached,
        mode == old(session)@.bindings.mode,
        final(session)@.outbox == old(session)@.outbox,
        final(session)@.lifecycle.disposed == old(session)@.lifecycle.disposed,
        final(session)@.agent == old(session)@.agent,
{
}

/// The session as extensions see it is what it tells of itself.
pub proof fn law_extensions_see_the_session(
    session: &AgentSession,
    name: Option<String>,
    tools: Vec<ToolInfo>,
    catalog: &Vec<CommandCatalogEntry>,
    registered: &Vec<String>,
    usage: Option<ContextUsage>,
    idle: bool,
    prompt: String,
    state: SessionState,
)
    requires
        call_ensures(
            AgentSession::session_state,
            (session, name, tools, catalog, registered, usage),
            state,
        ),
        call_ensures(AgentSession::is_idle, (session,), idle),
        call_ensures(
            crate::extension_runner::SessionHooks::effective_system_prompt,
            (&session.hooks,),
            prompt,
        ),
    ensures
        state.session_name == name,
        state.all_tools == tools,
        state.context_usage == usage,
        state.is_idle == idle,
        state.system_prompt@ == prompt@,
        state.thinking_level == session@.agent.thinking_level,
        state.model == Some(session@.agent.model),
        state.active_tools@ == session@.active_tools,
        state.scoped_models@ == session@.scoped_models,
        state.has_pending_messages <==> session@.steering.len() > 0 || session@.follow_up.len() > 0,
{
}

/// The state is sent anew after the events that change what extensions see, and after no other.
pub proof fn law_the_state_is_sent_after_changes(event: &AgentSessionEvent, sent: bool)
    requires
        call_ensures(state_changed_by, (event,), sent),
    ensures
        sent <==> *event is AgentStart || *event is AgentEnd || *event is AgentSettled || *event is ModelSelect || *event is ThinkingLevelChanged || *event is SessionInfoChanged || *event is QueueUpdate || *event is CompactionEnd,
{
}

/// Extensions are bound with what the caller says, and the session stays otherwise as it is.
pub proof fn law_extensions_are_bound_as_asked(
    session: &mut AgentSession,
    bindings: ExtensionBindings,
    done: (),
)
    requires
        call_ensures(AgentSession::bind_extensions, (session, bindings), done),
    ensures
        final(session)@.bindings.mode == bindings.mode,
        final(session)@.bindings.has_error_listener == bindings.has_error_listener,
        final(session)@.bindings.has_shutdown_handler == bindings.has_shutdown_handler,
        final(session)@.bindings.command_context == bindings.command_context_actions,
        bindings.ui_context matches Some(c) ==> final(session)@.bindings.ui_tag == c.tag,
        bindings.ui_context is None ==> final(session)@.bindings.ui_tag is None,
        final(session)@.outbox == old(session)@.outbox,
        final(session)@.pending_start == old(session)@.pending_start,
        final(session)@.agent == old(session)@.agent,
{
}

/// The start of a session is told once, as it was; the second time nothing is told. Only a start by
/// reload discovers resources as after a reload.
pub proof fn law_the_start_is_told_as_it_was(
    first: &mut AgentSession,
    second: &mut AgentSession,
    reason: SessionStartReason,
    again: SessionStartReason,
)
    requires
        call_ensures(AgentSession::tell_session_start, (first,), reason),
        old(second)@ == final(first)@,
        call_ensures(AgentSession::tell_session_start, (second,), again),
    ensures
        final(first)@.pending_start is None,
        old(first)@.pending_start matches Some(e) ==> final(first)@.outbox == old(first)@.outbox.push(
            Effect::ToExtensions(
                AgentSessionEvent::SessionStart {
                    reason: e.reason,
                    previous_session_file: e.previous_session_file,
                },
            ),
        ) && (reason == SessionStartReason::Reload <==> e.reason == SessionStartReason::Reload),
        old(first)@.pending_start is None ==> final(first)@ == old(first)@ && reason
            == SessionStartReason::Startup,
        reason == SessionStartReason::Reload || reason == SessionStartReason::Startup,
        final(second)@ == final(first)@,
        again == SessionStartReason::Startup,
        final(first)@.agent == old(first)@.agent,
{
}

/// The resources of the start are not asked for again once they are there; a reload reads the loader
/// again where there is one; otherwise the runner is asked.
pub proof fn law_resources_are_asked_for_when_needed(
    session: &AgentSession,
    reason: SessionStartReason,
    has_loader: bool,
    step: ResourceStep,
)
    requires
        call_ensures(
            AgentSession::extend_resources_from_extensions,
            (session, reason, has_loader),
            step,
        ),
    ensures
        reason == SessionStartReason::Startup && session@.lifecycle.initial_resources_discovered
            ==> step == ResourceStep::Finished(Ok(())),
        reason == SessionStartReason::Startup && !session@.lifecycle.initial_resources_discovered
            ==> step is AskHandlers,
        reason == SessionStartReason::Reload && has_loader ==> step is ReloadLoader,
        reason == SessionStartReason::Reload && !has_loader ==> step is AskHandlers,
{
}

/// The session has the resources that the loader gave: its skills, its templates and its prompt, which
/// takes the place of that of the turn.
pub open spec fn has_resources(t: SessionModel, snapshot: ResourceSnapshot) -> bool {
    &&& t.skills == snapshot.skills@
    &&& t.templates == snapshot.prompt_templates@
    &&& t.base_prompt == snapshot.system_prompt@
    &&& t.prompt_override is None
    &&& t.agent.system_prompt == snapshot.system_prompt@
}

/// The steps for the resources: behind a loader that read again the runner is asked; where an
/// extension names resources they are discovered, and the loader takes them where there is one. The
/// start's resources are there once all of this is done. Failures end it.
pub proof fn law_resources_are_taken_step_by_step(
    session: &mut AgentSession,
    reason: SessionStartReason,
    has_loader: bool,
    reply: ResourceReply,
    step: ResourceStep,
)
    requires
        call_ensures(
            AgentSession::advance_resources,
            (session, reason, has_loader, reply),
            step,
        ),
    ensures
        reply matches ResourceReply::LoaderReloaded(Ok(snapshot)) ==> step is AskHandlers
            && has_resources(final(session)@, snapshot) && final(session)@.lifecycle
            == old(session)@.lifecycle,
        reply matches ResourceReply::LoaderReloaded(Err(m)) ==> step == ResourceStep::Finished(
            Err(ExtensionBindError::ResourceReload(m)),
        ) && final(session)@ == old(session)@,
        reply == ResourceReply::Handlers(true) ==> step is Discover && final(session)@
            == old(session)@,
        reply == ResourceReply::Handlers(false) ==> step == ResourceStep::Finished(Ok(()))
            && final(session)@ == old(session)@,
        reply matches ResourceReply::Discovered(Err(e)) ==> step == ResourceStep::Finished(
            Err(ExtensionBindError::ResourceDiscover(e)),
        ) && final(session)@ == old(session)@,
        (reply matches ResourceReply::Discovered(Ok(_))) && has_loader ==> step is ExtendLoader
            && final(session)@ == old(session)@,
        (reply matches ResourceReply::Discovered(Ok(_))) && !has_loader ==> step
            == ResourceStep::Finished(Ok(())) && (reason == SessionStartReason::Startup
            ==> final(session)@.lifecycle.initial_resources_discovered) && (reason
            != SessionStartReason::Startup ==> final(session)@ == old(session)@),
        reply matches ResourceReply::LoaderExtended(snapshot) ==> step == ResourceStep::Finished(
            Ok(()),
        ) && has_resources(final(session)@, snapshot) && (reason == SessionStartReason::Startup
            ==> final(session)@.lifecycle.initial_resources_discovered) && (reason
            != SessionStartReason::Startup ==> final(session)@.lifecycle == old(session)@.lifecycle),
        final(session)@.outbox == old(session)@.outbox,
        final(session)@.agent.transcript == old(session)@.agent.transcript,
{
}

/// What is appended to a prompt: nothing without parts, and otherwise the parts with an empty line
/// between them.
pub proof fn law_appended_parts_are_joined(
    parts: &Vec<&str>,
    joined_parts: String,
    separator: &str,
    r: Option<String>,
)
    requires
        call_ensures(append_system_prompt, (parts,), r),
        separator@ == seq!['\n', '\n'],
        call_ensures(pattern::join, (parts, separator), joined_parts),
    ensures
        r is None <==> parts@.len() == 0,
        parts@.len() > 0 ==> r is Some && r->0@ == joined_parts@,
{
    reveal_strlit("\n\n");
    assert("\n\n"@ =~= seq!['\n', '\n']);
}

/// Nothing was sent yet to a session that replaces another, and bindings ask for nothing unless told
/// to.
pub proof fn law_nothing_is_sent_or_bound_at_first(
    session: &AgentSession,
    id: String,
    context: ReplacedSessionContext,
    bindings: ExtensionBindings,
    ui: ExtensionUiContext,
)
    requires
        call_ensures(AgentSession::create_replaced_session_context, (session, id), context),
        call_ensures(ExtensionBindings::default, (), bindings),
        call_ensures(ExtensionUiContext::default, (), ui),
    ensures
        context.session_id == id,
        context.sent_custom_messages@.len() == 0 && context.sent_user_messages@.len() == 0,
        bindings.ui_context is None && bindings.mode is None && bindings.command_context_actions
            is None,
        !bindings.has_shutdown_handler && !bindings.has_error_listener,
        ui.tag is None,
{
}

} // verus!
