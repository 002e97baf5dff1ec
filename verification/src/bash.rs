//! Shell commands that the user runs in a session.

use crate::events::AgentSessionEvent;
use crate::json;
use crate::json::Json;
use crate::messages::{
    clone_text, AgentMessage, AgentToolResult, CustomAgentMessage, SessionEntry, UserContent,
};
use crate::number;
use crate::session::{AgentModel, AgentSession, CancelToken, Effect, SessionError, SessionModel};
use crate::text;
use std::sync::Arc;
use vstd::prelude::*;
use vstd::string::StringSliceAdditionalSpecFns;

verus! {

/// The result of a shell command.
#[derive(Debug, PartialEq)]
pub struct BashResult {
    /// What it wrote, to both of its outputs.
    pub output: String,
    /// Its exit code, none where it was killed.
    pub exit_code: Option<i32>,
    /// Whether it was aborted.
    pub cancelled: bool,
    /// Whether `output` is only a part.
    pub truncated: bool,
    /// The file with the whole output.
    pub full_output_path: Option<String>,
}

impl Clone for BashResult {
    fn clone(&self) -> (r: Self)
        ensures
            r == *self,
    {
        BashResult {
            output: self.output.clone(),
            exit_code: self.exit_code,
            cancelled: self.cancelled,
            truncated: self.truncated,
            full_output_path: clone_text(&self.full_output_path),
        }
    }
}

/// A failure of a shell command.
#[derive(Debug, PartialEq)]
pub enum BashExecError {
    /// The command failed: another exit code than 0, an abort or a timeout.
    Execution {
        /// The text of the failure.
        message: String,
        /// What the text says of the command.
        result: BashResult,
    },
    /// The result could not be stored.
    Session(SessionError),
}

/// How a shell command is run.
#[derive(Clone, Copy, Debug, PartialEq, Eq, Structural)]
pub struct ExecuteBashOptions {
    /// Whether the model is not to see the command and its result.
    pub exclude_from_context: bool,
    /// The handle of a shell in place of the local one.
    pub operations: Option<u64>,
}

impl Default for ExecuteBashOptions {
    fn default() -> (r: Self)
        ensures
            r == (ExecuteBashOptions { exclude_from_context: false, operations: None }),
    {
        ExecuteBashOptions { exclude_from_context: false, operations: None }
    }
}

/// The record of a shell command.
#[derive(Debug, PartialEq)]
pub struct BashExecutionMessage {
    pub command: String,
    pub output: String,
    pub exit_code: Option<i64>,
    pub cancelled: bool,
    pub truncated: bool,
    pub full_output_path: Option<String>,
    pub timestamp: i64,
    pub exclude_from_context: Option<bool>,
}

impl Clone for BashExecutionMessage {
    fn clone(&self) -> (r: Self)
        ensures
            r == *self,
    {
        BashExecutionMessage {
            command: self.command.clone(),
            output: self.output.clone(),
            exit_code: self.exit_code,
            cancelled: self.cancelled,
            truncated: self.truncated,
            full_output_path: clone_text(&self.full_output_path),
            timestamp: self.timestamp,
            exclude_from_context: self.exclude_from_context,
        }
    }
}

/// The command that the shell gets: with the configured prefix on a line before it, where one is
/// configured.
pub open spec fn resolved_command(prefix: Option<String>, command: Seq<char>) -> Seq<char> {
    match prefix {
        Some(p) => if p@.len() > 0 {
            p@ + "\n"@ + command
        } else {
            command
        },
        None => command,
    }
}

/// The command that the shell gets.
pub fn resolve_command(prefix: &Option<String>, command: &str) -> (r: String)
    ensures
        r@ == resolved_command(*prefix, command@),
{
    match prefix {
        Some(p) => if !p.as_str().is_empty() {
            text::concat3(p.as_str(), "\n", command)
        } else {
            command.to_owned()
        },
        None => command.to_owned(),
    }
}

/// Where the last line of a text begins: behind the last newline.
pub open spec fn last_line_start(s: Seq<char>) -> int
    decreases s.len(),
{
    if s.len() == 0 {
        0
    } else if s.last() == '\n' {
        s.len() as int
    } else {
        last_line_start(s.drop_last())
    }
}

/// The last line of a text.
pub open spec fn last_line(s: Seq<char>) -> Seq<char> {
    s.skip(last_line_start(s))
}

/// Whether a line says how a command ended: with an exit code, by an abort, or by a timeout.
pub open spec fn is_status_line(line: Seq<char>) -> bool {
    ||| text::begins_with(line, "Command exited with code "@)
    ||| text::begins_with(line, "Command aborted"@)
    ||| text::begins_with(line, "Command timed out"@)
}

/// What is left of the text of a failure without the status line that ends it and the empty line
/// before that one. A text that does not end so is left as it is.
pub open spec fn without_status(s: Seq<char>) -> Seq<char> {
    let p = last_line_start(s);
    if is_status_line(last_line(s)) && p >= 2 && s[p - 2] == '\n' {
        s.take(p - 2)
    } else {
        s
    }
}

fn find_last_line(v: &Vec<char>) -> (r: usize)
    ensures
        r == last_line_start(v@),
        r <= v@.len(),
        r > 0 ==> v@[r - 1] == '\n',
{
    let mut i: usize = v.len();
    assert(v@.take(i as int) =~= v@);
    while i > 0
        invariant
            i <= v@.len(),
            last_line_start(v@) == last_line_start(v@.take(i as int)),
        decreases i,
    {
        assert(v@.take(i as int).drop_last() =~= v@.take(i - 1));
        if v[i - 1] == '\n' {
            return i;
        }
        i -= 1;
    }
    0
}

fn last_line_of(message: &str) -> (r: String)
    ensures
        r@ == last_line(message@),
{
    let v = text::to_chars(message);
    let p = find_last_line(&v);
    let end: usize = v.len();
    assert(message@.skip(p as int) =~= message@.subrange(p as int, end as int));
    text::slice(message, p, end)
}

/// Takes the status line off the text of a failure, so that what the command wrote is left.
pub fn strip_status_suffix(message: &str) -> (r: String)
    ensures
        r@ == without_status(message@),
{
    let v = text::to_chars(message);
    let p = find_last_line(&v);
    let line = last_line_of(message);
    let status = text::starts_with_text(line.as_str(), "Command exited with code ")
        || text::starts_with_text(line.as_str(), "Command aborted") || text::starts_with_text(
        line.as_str(),
        "Command timed out",
    );
    if status && p >= 2 && v[p - 2] == '\n' {
        assert(message@.take(p - 2) =~= message@.subrange(0, p - 2));
        text::slice(message, 0, p - 2)
    } else {
        message.to_owned()
    }
}

/// The last line of a text that a line without a newline follows behind an empty line is that line.
proof fn lemma_last_line_appended(s: Seq<char>, line: Seq<char>)
    requires
        !line.contains('\n'),
    ensures
        last_line_start(s + "\n\n"@ + line) == s.len() + 2,
    decreases line.len(),
{
    reveal_strlit("\n\n");
    let all = s + "\n\n"@ + line;
    if line.len() > 0 {
        assert(line.contains(line.last()));
        let shorter = line.drop_last();
        assert forall|c: char| shorter.contains(c) implies line.contains(c) by {
            let k = choose|k: int| 0 <= k < shorter.len() && shorter[k] == c;
            assert(line[k] == c);
        }
        lemma_last_line_appended(s, shorter);
        assert(all.drop_last() =~= s + "\n\n"@ + shorter);
        assert(all.last() == line.last());
    } else {
        assert(all.last() == '\n');
    }
}

/// A failure's text that does not end with a status line is all output.
pub proof fn law_only_a_status_line_is_cut_off(s: Seq<char>)
    ensures
        without_status(s).is_prefix_of(s),
        !is_status_line(last_line(s)) ==> without_status(s) == s,
        without_status(s) != s ==> s == without_status(s) + "\n\n"@ + last_line(s),
{
    lemma_last_line_bounds(s);
    reveal_strlit("\n\n");
    let p = last_line_start(s);
    if is_status_line(last_line(s)) && p >= 2 && s[p - 2] == '\n' {
        assert(s =~= s.take(p - 2) + "\n\n"@ + s.skip(p));
    }
}

proof fn lemma_last_line_bounds(s: Seq<char>)
    ensures
        0 <= last_line_start(s) <= s.len(),
        last_line_start(s) > 0 ==> s[last_line_start(s) - 1] == '\n',
    decreases s.len(),
{
    if s.len() > 0 && s.last() != '\n' {
        lemma_last_line_bounds(s.drop_last());
    }
}

/// The exit code that a failure's text names: the number behind the first mention of one.
pub open spec fn exit_code_in(s: Seq<char>) -> Option<i32> {
    let mark = "Command exited with code "@;
    match text::first_index(s, mark) {
        Some(i) => match text::first_word(s.skip(i + mark.len())) {
            Some(word) => match number::signed_of(vstd::utf8::encode_utf8(word)) {
                Some(n) => if i32::MIN <= n <= i32::MAX {
                    Some(n as i32)
                } else {
                    None
                },
                None => None,
            },
            None => None,
        },
        None => None,
    }
}

fn parse_exit_code(message: &str) -> (r: Option<i32>)
    ensures
        r == exit_code_in(message@),
{
    let mark = "Command exited with code ";
    let v = text::to_chars(message);
    let m = text::to_chars(mark);
    match text::find_chars(&v, &m) {
        Some(i) => {
            proof {
                text::lemma_first_index(message@, mark@, i as int);
            }
            let end: usize = v.len();
            let rest = text::slice(message, i + m.len(), end);
            assert(rest@ =~= message@.skip(i + mark@.len()));
            match text::first_word_of(rest.as_str()) {
                Some(word) => {
                    let bytes = word.as_str().as_bytes();
                    assert(bytes@.subrange(0, bytes@.len() as int) =~= bytes@);
                    number::parse_i32(bytes, 0, bytes.len())
                },
                None => None,
            }
        },
        None => None,
    }
}

/// Whether the text of a failure says that the command was aborted: in the words of the tool,
/// wherever they stand, or as the bare mark of the shell.
pub open spec fn says_aborted(s: Seq<char>) -> bool {
    text::contains_seq(s, "Command aborted"@) || s == "aborted"@
}

/// The mark of the shell for a command that took too long: `timeout:` and a number of seconds.
pub open spec fn is_timeout_mark(s: Seq<char>) -> bool {
    let mark = "timeout:"@;
    &&& text::begins_with(s, mark)
    &&& s.len() > mark.len()
    &&& forall|i: int| mark.len() <= i < s.len() ==> text::is_ascii_digit(#[trigger] s[i])
}

/// Whether the text of a failure says that the command took too long: in the words of the tool,
/// wherever they stand, or as the bare mark of the shell.
pub open spec fn says_timed_out(s: Seq<char>) -> bool {
    text::contains_seq(s, "Command timed out"@) || is_timeout_mark(s)
}

fn timeout_mark(message: &str) -> (r: bool)
    ensures
        r == is_timeout_mark(message@),
{
    let mark = "timeout:";
    if !text::starts_with_text(message, mark) {
        return false;
    }
    let v = text::to_chars(message);
    let m = text::to_chars(mark);
    let n: usize = v.len();
    let from: usize = m.len();
    let mut i: usize = from;
    while i < n
        invariant
            n == v@.len(),
            v@ == message@,
            from == mark@.len(),
            mark@ == "timeout:"@,
            from <= i <= n,
            text::begins_with(message@, mark@),
            forall|j: int| from <= j < i ==> text::is_ascii_digit(#[trigger] v@[j]),
        decreases n - i,
    {
        if !('0' <= v[i] && v[i] <= '9') {
            assert(!text::is_ascii_digit(v@[i as int]));
            return false;
        }
        i += 1;
    }
    n > from
}

/// What the text of a failure says of the command.
pub fn parse_bash_result_from_error(message: &str, command: &str) -> (r: BashResult)
    ensures
        r.output@ == without_status(message@),
        r.exit_code == exit_code_in(message@),
        r.cancelled == says_aborted(message@),
        r.truncated == says_timed_out(message@),
        r.full_output_path is None,
{
    BashResult {
        output: strip_status_suffix(message),
        exit_code: parse_exit_code(message),
        cancelled: text::contains_text(message, "Command aborted") || text::same_text(
            message,
            "aborted",
        ),
        truncated: text::contains_text(message, "Command timed out") || timeout_mark(message),
        full_output_path: None,
    }
}

/// A word without a newline that stands in two texts with an empty line between them stands in one
/// of the two.
proof fn lemma_stands_in_one(a: Seq<char>, b: Seq<char>, word: Seq<char>, i: int)
    requires
        word.len() > 0,
        !word.contains('\n'),
    ensures
        text::occurs_at(a + "\n\n"@ + b, word, i) == (text::occurs_at(a, word, i)
            || text::occurs_at(b, word, i - a.len() - 2)),
{
    reveal_strlit("\n\n");
    let all = a + "\n\n"@ + b;
    let from = a.len() as int + 2;
    let n = word.len() as int;
    if text::occurs_at(all, word, i) {
        assert forall|k: int| i <= k < i + n implies all[k] != '\n' by {
            assert(all.subrange(i, i + n)[k - i] == word[k - i]);
            assert(word.contains(word[k - i]));
        }
        assert(all[a.len() as int] == '\n' && all[from - 1] == '\n');
        if i < a.len() {
            assert(i + n <= a.len());
            assert(a.subrange(i, i + n) =~= all.subrange(i, i + n));
        } else {
            assert(i >= from);
            assert(b.subrange(i - from, i - from + n) =~= all.subrange(i, i + n));
        }
    }
    if text::occurs_at(a, word, i) {
        assert(all.subrange(i, i + n) =~= a.subrange(i, i + n));
    }
    if text::occurs_at(b, word, i - from) {
        assert(all.subrange(i, i + n) =~= b.subrange(i - from, i - from + n));
    }
}

proof fn lemma_contained_in_one(a: Seq<char>, b: Seq<char>, word: Seq<char>)
    requires
        word.len() > 0,
        !word.contains('\n'),
    ensures
        text::contains_seq(a + "\n\n"@ + b, word) == (text::contains_seq(a, word)
            || text::contains_seq(b, word)),
{
    let all = a + "\n\n"@ + b;
    if text::contains_seq(all, word) {
        let i = choose|i: int| text::occurs_at(all, word, i);
        lemma_stands_in_one(a, b, word, i);
    }
    if text::contains_seq(a, word) {
        let i = choose|i: int| text::occurs_at(a, word, i);
        lemma_stands_in_one(a, b, word, i);
    }
    if text::contains_seq(b, word) {
        let i = choose|i: int| text::occurs_at(b, word, i);
        lemma_stands_in_one(a, b, word, i + a.len() + 2);
    }
}

/// The words that say how a command ended are in one line.
proof fn lemma_marks()
    ensures
        "Command exited with code "@.len() == 25,
        "Command aborted"@.len() == 15,
        "Command timed out"@.len() == 17,
        !"Command exited with code "@.contains('\n'),
        !"Command aborted"@.contains('\n'),
        !"Command timed out"@.contains('\n'),
{
    reveal_strlit("Command exited with code ");
    reveal_strlit("Command aborted");
    reveal_strlit("Command timed out");
}

/// The exit code of a text whose first part names none is the one that the second part names.
proof fn lemma_exit_code_of_the_rest(a: Seq<char>, b: Seq<char>)
    requires
        !text::contains_seq(a, "Command exited with code "@),
    ensures
        exit_code_in(a + "\n\n"@ + b) == exit_code_in(b),
{
    lemma_marks();
    reveal_strlit("\n\n");
    let mark = "Command exited with code "@;
    let all = a + "\n\n"@ + b;
    let from = a.len() as int + 2;
    lemma_contained_in_one(a, b, mark);
    if text::contains_seq(b, mark) {
        let k = first_of(b, mark);
        assert forall|j: int| 0 <= j < from + k implies !text::occurs_at(all, mark, j) by {
            lemma_stands_in_one(a, b, mark, j);
        }
        lemma_stands_in_one(a, b, mark, from + k);
        text::lemma_first_index(b, mark, k);
        text::lemma_first_index(all, mark, from + k);
        assert(all.skip(from + k + mark.len()) =~= b.skip(k + mark.len()));
    }
}

/// A word that stands in a text has a leftmost position.
proof fn first_of(hay: Seq<char>, needle: Seq<char>) -> (i: int)
    requires
        text::contains_seq(hay, needle),
    ensures
        text::first_at(hay, needle, i),
{
    let k = choose|k: int| text::occurs_at(hay, needle, k);
    first_up_to(hay, needle, k)
}

proof fn first_up_to(hay: Seq<char>, needle: Seq<char>, k: int) -> (i: int)
    requires
        text::occurs_at(hay, needle, k),
    ensures
        text::first_at(hay, needle, i),
    decreases k,
{
    if exists|j: int| 0 <= j < k && text::occurs_at(hay, needle, j) {
        let j = choose|j: int| 0 <= j < k && text::occurs_at(hay, needle, j);
        first_up_to(hay, needle, j)
    } else {
        k
    }
}

/// Taking the status line off undoes appending it, whatever the command wrote. Where the command
/// wrote of no exit code, that of the line is read; an abort and a timeout are read where the
/// command or the line says them.
pub proof fn law_stripping_undoes_appending(output: Seq<char>, line: Seq<char>)
    requires
        is_status_line(line),
        !line.contains('\n'),
    ensures
        without_status(output + "\n\n"@ + line) == output,
        !text::contains_seq(output, "Command exited with code "@) ==> exit_code_in(
            output + "\n\n"@ + line,
        ) == exit_code_in(line),
        says_aborted(output + "\n\n"@ + line) == (text::contains_seq(output, "Command aborted"@)
            || text::contains_seq(line, "Command aborted"@)),
        says_timed_out(output + "\n\n"@ + line) == (text::contains_seq(
            output,
            "Command timed out"@,
        ) || text::contains_seq(line, "Command timed out"@)),
{
    let all = output + "\n\n"@ + line;
    let at = output.len() as int;
    lemma_last_line_appended(output, line);
    lemma_marks();
    reveal_strlit("\n\n");
    assert(last_line(all) =~= line);
    assert(all[at] == '\n');
    assert(all.take(at) =~= output);
    if !text::contains_seq(output, "Command exited with code "@) {
        lemma_exit_code_of_the_rest(output, line);
    }
    lemma_contained_in_one(output, line, "Command aborted"@);
    lemma_contained_in_one(output, line, "Command timed out"@);
    assert(all != "aborted"@) by {
        reveal_strlit("aborted");
        assert("aborted"@.len() == 7);
        if all == "aborted"@ {
            assert(all[at] != '\n');
        }
    }
    assert(!is_timeout_mark(all)) by {
        reveal_strlit("timeout:");
        assert("timeout:"@.len() == 8);
        if is_timeout_mark(all) {
            if at < 8 {
                assert(all.subrange(0, 8)[at] == "timeout:"@[at]);
            } else {
                assert(text::is_ascii_digit(all[at]));
            }
        }
    }
}

/// The first text among blocks from `from` on, the empty text where there is none.
pub open spec fn first_text(blocks: Seq<UserContent>, from: int) -> Seq<char>
    decreases blocks.len() - from,
{
    if from >= blocks.len() {
        seq![]
    } else {
        match blocks[from] {
            UserContent::Text(t) => t@,
            UserContent::Image(_) => first_text(blocks, from + 1),
        }
    }
}

/// The text of a JSON string.
pub open spec fn json_text(value: Option<Json>) -> Option<String> {
    match value {
        Some(Json::Text(s)) => Some(s),
        _ => None,
    }
}

/// The value of a JSON boolean, `false` for anything else.
pub open spec fn json_flag(value: Option<Json>) -> bool {
    value == Some(Json::Bool(true))
}

fn first_text_of(blocks: &Vec<UserContent>) -> (r: String)
    ensures
        r@ == first_text(blocks@, 0),
{
    let n: usize = blocks.len();
    let mut i: usize = 0;
    while i < n
        invariant
            n == blocks@.len(),
            i <= n,
            first_text(blocks@, 0) == first_text(blocks@, i as int),
        decreases n - i,
    {
        match &blocks[i] {
            UserContent::Text(t) => {
                return t.clone();
            },
            UserContent::Image(_) => {},
        }
        i += 1;
    }
    String::new()
}

/// What a tool's result says of a command that succeeded.
pub fn parse_bash_result_from_agent_result(result: AgentToolResult) -> (r: BashResult)
    ensures
        r.output@ == first_text(result.content@, 0),
        r.exit_code == Some(0i32),
        !r.cancelled,
        r.truncated == match json::field(result.details, "truncation"@) {
            Some(t) => json_flag(json::field(t, "truncated"@)),
            None => false,
        },
        r.full_output_path == json_text(json::field(result.details, "fullOutputPath"@)),
{
    let output = first_text_of(&result.content);
    let full_output_path = match result.details.get("fullOutputPath") {
        Some(Json::Text(s)) => Some(s.clone()),
        _ => None,
    };
    let truncated = match result.details.get("truncation") {
        Some(t) => match t.get("truncated") {
            Some(Json::Bool(b)) => *b,
            _ => false,
        },
        None => false,
    };
    BashResult { output, exit_code: Some(0), cancelled: false, truncated, full_output_path }
}

/// The members of the transcript message of a shell command: what there is nothing to say of is left
/// out.
pub open spec fn payload_of(m: BashExecutionMessage) -> Seq<(Seq<char>, Json)> {
    seq![("command"@, Json::Text(m.command)), ("output"@, Json::Text(m.output))] + (
    match m.exit_code {
        Some(code) => seq![("exitCode"@, Json::Integer(code as i128))],
        None => seq![],
    }) + seq![
        ("cancelled"@, Json::Bool(m.cancelled)),
        ("truncated"@, Json::Bool(m.truncated)),
    ] + (match m.full_output_path {
        Some(path) => seq![("fullOutputPath"@, Json::Text(path))],
        None => seq![],
    }) + seq![("timestamp"@, Json::Integer(m.timestamp as i128))] + (if m.exclude_from_context == Some(
        true,
    ) {
        seq![("excludeFromContext"@, Json::Bool(true))]
    } else {
        seq![]
    })
}

/// The members of the transcript message of a shell command.
pub fn bash_execution_payload(message: &BashExecutionMessage) -> (r: Vec<(String, Json)>)
    ensures
        json::keyed(r@) == payload_of(*message),
{
    let mut payload: Vec<(String, Json)> = Vec::new();
    assert(json::keyed(payload@) =~= seq![]);
    json::push_member(&mut payload, "command", Json::Text(message.command.clone()));
    json::push_member(&mut payload, "output", Json::Text(message.output.clone()));
    if let Some(code) = message.exit_code {
        json::push_member(&mut payload, "exitCode", Json::Integer(code as i128));
    }
    json::push_member(&mut payload, "cancelled", Json::Bool(message.cancelled));
    json::push_member(&mut payload, "truncated", Json::Bool(message.truncated));
    if let Some(path) = &message.full_output_path {
        json::push_member(&mut payload, "fullOutputPath", Json::Text(path.clone()));
    }
    json::push_member(&mut payload, "timestamp", Json::Integer(message.timestamp as i128));
    if let Some(true) = message.exclude_from_context {
        json::push_member(&mut payload, "excludeFromContext", Json::Bool(true));
    }
    assert(json::keyed(payload@) =~= payload_of(*message));
    payload
}

/// `message` is the transcript message of the shell command `m`.
pub open spec fn is_bash_message(message: AgentMessage, m: BashExecutionMessage) -> bool {
    message matches AgentMessage::Custom(c) && c.role@ == "bashExecution"@ && json::keyed(c.payload@)
        == payload_of(m)
}

fn bash_agent_message(message: &BashExecutionMessage) -> (r: AgentMessage)
    ensures
        is_bash_message(r, *message),
{
    AgentMessage::Custom(
        CustomAgentMessage {
            role: "bashExecution".to_owned(),
            payload: Arc::new(bash_execution_payload(message)),
        },
    )
}

/// The two records hold the same.
pub open spec fn same_record(a: BashExecutionMessage, b: BashExecutionMessage) -> bool {
    &&& a.command@ == b.command@
    &&& a.output@ == b.output@
    &&& a.exit_code == b.exit_code
    &&& a.cancelled == b.cancelled
    &&& a.truncated == b.truncated
    &&& crate::session::text_view(a.full_output_path) == crate::session::text_view(
        b.full_output_path,
    )
    &&& a.timestamp == b.timestamp
    &&& a.exclude_from_context == b.exclude_from_context
}

fn is_same_record(a: &BashExecutionMessage, b: &BashExecutionMessage) -> (r: bool)
    ensures
        r == same_record(*a, *b),
{
    let paths: bool = match (&a.full_output_path, &b.full_output_path) {
        (Some(x), Some(y)) => text::same_text(x.as_str(), y.as_str()),
        (None, None) => true,
        _ => false,
    };
    text::same_text(a.command.as_str(), b.command.as_str()) && text::same_text(
        a.output.as_str(),
        b.output.as_str(),
    ) && a.exit_code == b.exit_code && a.cancelled == b.cancelled && a.truncated == b.truncated
        && paths && a.timestamp == b.timestamp && a.exclude_from_context == b.exclude_from_context
}

/// What the shell is to run.
#[derive(Debug, PartialEq)]
pub struct BashInvocation {
    /// The command with its prefix.
    pub command: String,
    /// The directory to run it in.
    pub cwd: String,
    /// The shell, where one is configured.
    pub shell_path: Option<String>,
    /// The handle of a shell in place of the local one.
    pub operations: Option<u64>,
}

/// `r` is the record of `command` with this result.
pub open spec fn is_record(
    r: BashExecutionMessage,
    command: Seq<char>,
    result: BashResult,
    options: ExecuteBashOptions,
    now: i64,
) -> bool {
    &&& r.command@ == command
    &&& r.output == result.output
    &&& r.exit_code == match result.exit_code {
        Some(code) => Some(code as i64),
        None => None,
    }
    &&& r.cancelled == result.cancelled
    &&& r.truncated == result.truncated
    &&& r.full_output_path == result.full_output_path
    &&& r.timestamp == now
    &&& r.exclude_from_context == if options.exclude_from_context {
        Some(true)
    } else {
        None
    }
}

/// A session to whose transcript `message` was added, with the entry that it was stored as.
pub open spec fn with_stored_message(
    s: SessionModel,
    message: AgentMessage,
    entry: Option<SessionEntry>,
) -> SessionModel {
    let t = SessionModel {
        agent: AgentModel { transcript: s.agent.transcript.push(message), ..s.agent },
        ..s
    };
    match entry {
        Some(e) => t.put(Effect::Emit(AgentSessionEvent::EntryAppended { entry: e })),
        None => t,
    }
}

/// One stored record of the queue: its transcript message is added and it leaves the queue, as
/// [`AgentSession::flush_pending_bash_messages`] does with the head of the queue.
pub open spec fn flush_step(s: SessionModel, t: SessionModel) -> bool {
    s.pending_bash.len() > 0 && exists|message: AgentMessage, entry: Option<SessionEntry>|
        is_bash_message(message, s.pending_bash[0]) && t == #[trigger] with_stored_message(
            SessionModel { pending_bash: s.pending_bash.skip(1), ..s },
            message,
            entry,
        )
}

impl AgentSession {
    /// Starts a shell command: the slot of the running command gets `token`, and what held it before
    /// is cancelled. Gives what the shell is to run.
    pub fn execute_bash(
        &mut self,
        command: &str,
        options: &ExecuteBashOptions,
        token: CancelToken,
    ) -> (r: BashInvocation)
        ensures
            final(self)@ == crate::session::begun_bash(old(self)@, token),
            r.command@ == resolved_command(old(self).settings.shell_command_prefix, command@),
            r.cwd@ == old(self)@.cwd,
            r.shell_path == match old(self).settings.shell_path {
                Some(p) => if p@.len() > 0 {
                    Some(p)
                } else {
                    None
                },
                None => None,
            },
            r.operations == options.operations,
    {
        self.begin_bash_abort(token);
        let shell_path = match &self.settings.shell_path {
            Some(p) => if !p.as_str().is_empty() {
                Some(p.clone())
            } else {
                None
            },
            None => None,
        };
        BashInvocation {
            command: resolve_command(&self.settings.shell_command_prefix, command),
            cwd: self.cwd.clone(),
            shell_path,
            operations: options.operations,
        }
    }

    /// Ends a shell command: the slot is cleared. The text of a failure is read into a result, and
    /// nothing is recorded.
    pub fn bash_finished(&mut self, resolved: &str, outcome: Result<BashResult, String>) -> (r:
        Result<BashResult, BashExecError>)
        ensures
            final(self)@ == (SessionModel {
                slots: crate::session::AbortSlots { bash: None, ..old(self)@.slots },
                ..old(self)@
            }),
            match outcome {
                Ok(result) => r == Ok::<BashResult, BashExecError>(result),
                Err(text) => {
                    &&& r matches Err(BashExecError::Execution { message, result })
                    &&& message == text
                    &&& result.output@ == without_status(text@)
                    &&& result.exit_code == exit_code_in(text@)
                    &&& result.cancelled == says_aborted(text@)
                    &&& result.truncated == says_timed_out(text@)
                    &&& result.full_output_path is None
                },
            },
    {
        self.clear_bash_abort();
        match outcome {
            Ok(result) => Ok(result),
            Err(message) => {
                let result = parse_bash_result_from_error(message.as_str(), resolved);
                Err(BashExecError::Execution { message, result })
            },
        }
    }

    /// Records the result of a shell command. While the agent streams, the record waits for the end
    /// of the run; otherwise its transcript message is handed back, to be stored and then given to
    /// [`AgentSession::bash_stored`].
    pub fn record_bash_result(
        &mut self,
        command: &str,
        result: BashResult,
        options: &ExecuteBashOptions,
        now: i64,
    ) -> (r: Option<AgentMessage>)
        ensures
            exists|record: BashExecutionMessage|
                #[trigger] is_record(record, command@, result, *options, now) && {
                    if old(self)@.agent.is_streaming {
                        &&& r is None
                        &&& final(self)@ == (SessionModel {
                            pending_bash: old(self)@.pending_bash.push(record),
                            ..old(self)@
                        })
                    } else {
                        &&& r is Some
                        &&& is_bash_message(r->0, record)
                        &&& final(self)@ == old(self)@
                    }
                },
    {
        let exit_code: Option<i64> = match result.exit_code {
            Some(code) => Some(code as i64),
            None => None,
        };
        let record = BashExecutionMessage {
            command: command.to_owned(),
            output: result.output,
            exit_code,
            cancelled: result.cancelled,
            truncated: result.truncated,
            full_output_path: result.full_output_path,
            timestamp: now,
            exclude_from_context: if options.exclude_from_context {
                Some(true)
            } else {
                None
            },
        };
        assert(is_record(record, command@, result, *options, now));
        if self.agent.is_streaming {
            self.pending_bash_messages.push(record);
            return None;
        }
        Some(bash_agent_message(&record))
    }

    /// Takes the answer of the storage for the message of a shell command: on success the message
    /// joins the transcript, on a failure nothing changes.
    pub fn bash_stored(
        &mut self,
        message: AgentMessage,
        stored: Result<Option<SessionEntry>, SessionError>,
    ) -> (r: Result<(), BashExecError>)
        ensures
            match stored {
                Ok(entry) => {
                    &&& r is Ok
                    &&& final(self)@ == with_stored_message(old(self)@, message, entry)
                },
                Err(error) => {
                    &&& r == Err::<(), BashExecError>(BashExecError::Session(error))
                    &&& final(self)@ == old(self)@
                },
            },
    {
        match stored {
            Ok(entry) => {
                self.agent.transcript.push(message);
                if let Some(entry) = entry {
                    self.outbox.push(Effect::Emit(AgentSessionEvent::EntryAppended { entry }));
                }
                Ok(())
            },
            Err(error) => Err(BashExecError::Session(error)),
        }
    }

    /// Whether shell results wait for the end of the run.
    pub fn has_pending_bash_messages(&self) -> (r: bool)
        ensures
            r == (self@.pending_bash.len() > 0),
    {
        !self.pending_bash_messages.is_empty()
    }

    /// The next record to store, with its transcript message. None is left where there is none.
    pub fn next_pending_bash(&self) -> (r: Option<(BashExecutionMessage, AgentMessage)>)
        ensures
            match r {
                Some(p) => {
                    &&& self@.pending_bash.len() > 0
                    &&& p.0 == self@.pending_bash[0]
                    &&& is_bash_message(p.1, p.0)
                },
                None => self@.pending_bash.len() == 0,
            },
    {
        if self.pending_bash_messages.is_empty() {
            return None;
        }
        let record = self.pending_bash_messages[0].clone();
        let message = bash_agent_message(&record);
        Some((record, message))
    }

    /// Takes the answer of the storage for a record of the queue. On success its message joins the
    /// transcript, and the record leaves the queue where it is still its head. On a failure it and
    /// all behind it stay, in their order.
    pub fn flush_pending_bash_messages(
        &mut self,
        record: &BashExecutionMessage,
        message: AgentMessage,
        stored: Result<Option<SessionEntry>, SessionError>,
    ) -> (r: Result<(), BashExecError>)
        ensures
            match stored {
                Ok(entry) => {
                    &&& r is Ok
                    &&& final(self)@ == with_stored_message(
                        SessionModel {
                            pending_bash: if old(self)@.pending_bash.len() > 0 && same_record(
                                old(self)@.pending_bash[0],
                                *record,
                            ) {
                                old(self)@.pending_bash.skip(1)
                            } else {
                                old(self)@.pending_bash
                            },
                            ..old(self)@
                        },
                        message,
                        entry,
                    )
                },
                Err(error) => {
                    &&& r == Err::<(), BashExecError>(BashExecError::Session(error))
                    &&& final(self)@ == old(self)@
                },
            },
    {
        match stored {
            Ok(entry) => {
                let ghost before = self@;
                self.agent.transcript.push(message);
                if !self.pending_bash_messages.is_empty() && is_same_record(
                    &self.pending_bash_messages[0],
                    record,
                ) {
                    self.pending_bash_messages.remove(0);
                    assert(self.pending_bash_messages@ =~= before.pending_bash.skip(1));
                }
                if let Some(entry) = entry {
                    self.outbox.push(Effect::Emit(AgentSessionEvent::EntryAppended { entry }));
                }
                Ok(())
            },
            Err(error) => Err(BashExecError::Session(error)),
        }
    }
}

/// The states `i` and `i + 1` are those before and after one stored record.
pub open spec fn flush_at(states: Seq<SessionModel>, i: int) -> bool {
    flush_step(states[i], states[i + 1])
}

/// What one stored record changes of the queue and the transcript.
proof fn lemma_flush_step(s: SessionModel, t: SessionModel)
    requires
        flush_step(s, t),
    ensures
        s.pending_bash.len() > 0,
        t.pending_bash == s.pending_bash.skip(1),
        t.agent.transcript == s.agent.transcript.push(t.agent.transcript.last()),
        is_bash_message(t.agent.transcript.last(), s.pending_bash[0]),
{
}

/// Any number of flushed records leave the queue from its head, and their messages join the
/// transcript in the order of the queue: none is lost, none comes twice, none overtakes another.
pub proof fn law_flush_keeps_the_order(states: Seq<SessionModel>)
    requires
        states.len() > 0,
        forall|i: int| 0 <= i < states.len() - 1 ==> #[trigger] flush_at(states, i),
    ensures
        ({
            let first = states[0];
            let last = states.last();
            let n = states.len() - 1;
            &&& n <= first.pending_bash.len()
            &&& last.pending_bash == first.pending_bash.skip(n)
            &&& last.agent.transcript.len() == first.agent.transcript.len() + n
            &&& first.agent.transcript.is_prefix_of(last.agent.transcript)
            &&& forall|i: int|
                0 <= i < n ==> is_bash_message(
                    #[trigger] last.agent.transcript[first.agent.transcript.len() + i],
                    first.pending_bash[i],
                )
        }),
    decreases states.len(),
{
    let first = states[0];
    let n = states.len() - 1;
    if n == 0 {
        assert(first.pending_bash.skip(0) =~= first.pending_bash);
    } else {
        let shorter = states.drop_last();
        assert forall|i: int| 0 <= i < shorter.len() - 1 implies #[trigger] flush_at(
            shorter,
            i,
        ) by {
            assert(flush_at(states, i));
        }
        law_flush_keeps_the_order(shorter);
        let before = shorter.last();
        let last = states.last();
        assert(flush_at(states, n - 1));
        lemma_flush_step(before, last);
        assert(before.pending_bash[0] == first.pending_bash[n - 1]);
        assert(last.pending_bash =~= first.pending_bash.skip(n));
        let base = first.agent.transcript.len();
        assert forall|i: int| 0 <= i < n implies is_bash_message(
            #[trigger] last.agent.transcript[base + i],
            first.pending_bash[i],
        ) by {
            if i < n - 1 {
                assert(last.agent.transcript[base + i] == before.agent.transcript[base + i]);
            }
        }
    }
}

proof fn lemma_payload_keys()
    ensures
        "command"@.len() == 7,
        "output"@.len() == 6,
        "exitCode"@.len() == 8,
        "cancelled"@.len() == 9,
        "truncated"@.len() == 9,
        "fullOutputPath"@.len() == 14,
        "timestamp"@.len() == 9,
        "excludeFromContext"@.len() == 18,
        "cancelled"@ != "truncated"@,
        "cancelled"@ != "timestamp"@,
        "truncated"@ != "timestamp"@,
{
    reveal_strlit("command");
    reveal_strlit("output");
    reveal_strlit("exitCode");
    reveal_strlit("cancelled");
    reveal_strlit("truncated");
    reveal_strlit("fullOutputPath");
    reveal_strlit("timestamp");
    reveal_strlit("excludeFromContext");
    assert("cancelled"@[1] == 'a' && "truncated"@[1] == 'r' && "timestamp"@[1] == 'i');
}

/// What is read back from the members of a shell command's message is what its record holds, under
/// the name of each part; a part that the record has not is not there.
pub proof fn law_a_shell_record_reads_back(
    record: &BashExecutionMessage,
    payload: Vec<(String, Json)>,
)
    requires
        call_ensures(bash_execution_payload, (record,), payload),
    ensures
        json::member(payload@, "command"@) == Some(Json::Text(record.command)),
        json::member(payload@, "output"@) == Some(Json::Text(record.output)),
        json::member(payload@, "exitCode"@) == match record.exit_code {
            Some(code) => Some(Json::Integer(code as i128)),
            None => None::<Json>,
        },
        json::member(payload@, "cancelled"@) == Some(Json::Bool(record.cancelled)),
        json::member(payload@, "truncated"@) == Some(Json::Bool(record.truncated)),
        json::member(payload@, "fullOutputPath"@) == match record.full_output_path {
            Some(path) => Some(Json::Text(path)),
            None => None::<Json>,
        },
        json::member(payload@, "timestamp"@) == Some(Json::Integer(record.timestamp as i128)),
        json::member(payload@, "excludeFromContext"@) == if record.exclude_from_context == Some(
            true,
        ) {
            Some(Json::Bool(true))
        } else {
            None::<Json>
        },
{
    lemma_payload_reads_back(*record, payload@);
}

proof fn lemma_payload_reads_back(record: BashExecutionMessage, payload: Seq<(String, Json)>)
    requires
        json::keyed(payload) == payload_of(record),
    ensures
        json::member(payload, "command"@) == Some(Json::Text(record.command)),
        json::member(payload, "output"@) == Some(Json::Text(record.output)),
        json::member(payload, "exitCode"@) == match record.exit_code {
            Some(code) => Some(Json::Integer(code as i128)),
            None => None::<Json>,
        },
        json::member(payload, "cancelled"@) == Some(Json::Bool(record.cancelled)),
        json::member(payload, "truncated"@) == Some(Json::Bool(record.truncated)),
        json::member(payload, "fullOutputPath"@) == match record.full_output_path {
            Some(path) => Some(Json::Text(path)),
            None => None::<Json>,
        },
        json::member(payload, "timestamp"@) == Some(Json::Integer(record.timestamp as i128)),
        json::member(payload, "excludeFromContext"@) == if record.exclude_from_context == Some(
            true,
        ) {
            Some(Json::Bool(true))
        } else {
            None::<Json>
        },
{
    lemma_payload_keys();
    let p = json::keyed(payload);
    let e: int = if record.exit_code is Some {
        1
    } else {
        0
    };
    let f: int = if record.full_output_path is Some {
        1
    } else {
        0
    };
    let x = record.exclude_from_context == Some(true);
    assert(p.len() == 5 + e + f + if x {
        1int
    } else {
        0int
    });
    assert(p[0] == ("command"@, Json::Text(record.command)));
    assert(p[1] == ("output"@, Json::Text(record.output)));
    assert(e == 1 ==> p[2] == ("exitCode"@, Json::Integer(record.exit_code->0 as i128)));
    assert(p[2 + e] == ("cancelled"@, Json::Bool(record.cancelled)));
    assert(p[3 + e] == ("truncated"@, Json::Bool(record.truncated)));
    assert(f == 1 ==> p[4 + e] == ("fullOutputPath"@, Json::Text(record.full_output_path->0)));
    assert(p[4 + e + f] == ("timestamp"@, Json::Integer(record.timestamp as i128)));
    assert(x ==> p[5 + e + f] == ("excludeFromContext"@, Json::Bool(true)));
    json::lemma_read_at(payload, "command"@, 0);
    json::lemma_read_at(payload, "output"@, 1);
    json::lemma_read_at(payload, "cancelled"@, 2 + e);
    json::lemma_read_at(payload, "truncated"@, 3 + e);
    json::lemma_read_at(payload, "timestamp"@, 4 + e + f);
    if e == 1 {
        json::lemma_read_at(payload, "exitCode"@, 2);
    } else {
        json::lemma_read_none(payload, "exitCode"@);
    }
    if f == 1 {
        json::lemma_read_at(payload, "fullOutputPath"@, 4 + e);
    } else {
        json::lemma_read_none(payload, "fullOutputPath"@);
    }
    if x {
        json::lemma_read_at(payload, "excludeFromContext"@, 5 + e + f);
    } else {
        json::lemma_read_none(payload, "excludeFromContext"@);
    }
}

/// Outside of a run, the message of a shell command tells the command and its result: what was run,
/// what it wrote, how it ended and when. The session stays as it is until the message is stored.
pub proof fn law_a_shell_result_is_told(
    session: &mut AgentSession,
    command: &str,
    result: BashResult,
    options: &ExecuteBashOptions,
    now: i64,
    message: Option<AgentMessage>,
)
    requires
        call_ensures(
            AgentSession::record_bash_result,
            (session, command, result, options, now),
            message,
        ),
        !old(session)@.agent.is_streaming,
    ensures
        final(session)@ == old(session)@,
        message matches Some(AgentMessage::Custom(m)) && m.role@ == "bashExecution"@ && {
            let payload = m.payload@;
            &&& json::member(payload, "command"@) matches Some(Json::Text(t)) && t@ == command@
            &&& json::member(payload, "output"@) == Some(Json::Text(result.output))
            &&& json::member(payload, "exitCode"@) == match result.exit_code {
                Some(code) => Some(Json::Integer(code as i128)),
                None => None::<Json>,
            }
            &&& json::member(payload, "cancelled"@) == Some(Json::Bool(result.cancelled))
            &&& json::member(payload, "truncated"@) == Some(Json::Bool(result.truncated))
            &&& json::member(payload, "fullOutputPath"@) == match result.full_output_path {
                Some(path) => Some(Json::Text(path)),
                None => None::<Json>,
            }
            &&& json::member(payload, "timestamp"@) == Some(Json::Integer(now as i128))
            &&& json::member(payload, "excludeFromContext"@) == if options.exclude_from_context {
                Some(Json::Bool(true))
            } else {
                None::<Json>
            }
        },
{
    let record = choose|record: BashExecutionMessage|
        #[trigger] is_record(record, command@, result, *options, now) && is_bash_message(
            message->0,
            record,
        );
    assert(is_record(record, command@, result, *options, now));
    lemma_payload_reads_back(record, message->0->Custom_0.payload@);
}

/// During a run the record waits behind those that wait already, with the command and its result, and
/// nothing else changes.
pub proof fn law_a_shell_result_waits_for_the_run(
    session: &mut AgentSession,
    command: &str,
    result: BashResult,
    options: &ExecuteBashOptions,
    now: i64,
    message: Option<AgentMessage>,
)
    requires
        call_ensures(
            AgentSession::record_bash_result,
            (session, command, result, options, now),
            message,
        ),
        old(session)@.agent.is_streaming,
    ensures
        message is None,
        ({
            let waiting = final(session)@.pending_bash;
            &&& waiting.len() == old(session)@.pending_bash.len() + 1
            &&& waiting.drop_last() == old(session)@.pending_bash
            &&& waiting.last().command@ == command@
            &&& waiting.last().output == result.output
            &&& waiting.last().exit_code is Some <==> result.exit_code is Some
            &&& result.exit_code is Some ==> waiting.last().exit_code->0 == result.exit_code->0
            &&& waiting.last().cancelled == result.cancelled
            &&& waiting.last().truncated == result.truncated
            &&& waiting.last().full_output_path == result.full_output_path
            &&& waiting.last().timestamp == now
            &&& waiting.last().exclude_from_context == Some(true) <==> options.exclude_from_context
            &&& final(session)@ == (SessionModel { pending_bash: waiting, ..old(session)@ })
        }),
{
    let record = choose|record: BashExecutionMessage|
        #[trigger] is_record(record, command@, result, *options, now) && final(session)@ == (
        SessionModel { pending_bash: old(session)@.pending_bash.push(record), ..old(session)@ });
    assert(is_record(record, command@, result, *options, now));
    assert(final(session)@.pending_bash.drop_last() =~= old(session)@.pending_bash);
}

/// The record that is stored next is the one that waits longest, and its message tells what the
/// record holds.
pub proof fn law_the_longest_waiting_record_is_next(
    session: &AgentSession,
    next: Option<(BashExecutionMessage, AgentMessage)>,
)
    requires
        call_ensures(AgentSession::next_pending_bash, (session,), next),
    ensures
        next is None <==> session@.pending_bash.len() == 0,
        next matches Some((record, message)) ==> record == session@.pending_bash[0] && (message
            matches AgentMessage::Custom(m) && m.role@ == "bashExecution"@ && json::member(
            m.payload@,
            "command"@,
        ) == Some(Json::Text(record.command)) && json::member(m.payload@, "output"@) == Some(
            Json::Text(record.output),
        ) && json::member(m.payload@, "cancelled"@) == Some(Json::Bool(record.cancelled))
            && json::member(m.payload@, "truncated"@) == Some(Json::Bool(record.truncated))
            && json::member(m.payload@, "timestamp"@) == Some(
            Json::Integer(record.timestamp as i128),
        ) && json::member(m.payload@, "exitCode"@) == (match record.exit_code {
            Some(code) => Some(Json::Integer(code as i128)),
            None => None::<Json>,
        })),
{
    if let Some(p) = next {
        lemma_payload_reads_back(p.0, p.1->Custom_0.payload@);
    }
}

/// A record that was stored leaves the queue, its message joins the transcript at the end and its
/// entry is told; where it could not be stored it stays at the head of the queue.
pub proof fn law_a_stored_record_leaves_the_queue(
    before: &AgentSession,
    session: &mut AgentSession,
    record: &BashExecutionMessage,
    message: AgentMessage,
    stored: Result<Option<SessionEntry>, SessionError>,
    r: Result<(), BashExecError>,
)
    requires
        call_ensures(
            AgentSession::next_pending_bash,
            (before,),
            Some::<(BashExecutionMessage, AgentMessage)>((*record, message)),
        ),
        before@ == old(session)@,
        call_ensures(
            AgentSession::flush_pending_bash_messages,
            (session, record, message, stored),
            r,
        ),
    ensures
        stored matches Ok(entry) ==> {
            let s = old(session)@;
            let t = final(session)@;
            &&& r is Ok
            &&& t.pending_bash.len() == s.pending_bash.len() - 1
            &&& forall|k: int|
                0 <= k < t.pending_bash.len() ==> #[trigger] t.pending_bash[k] == s.pending_bash[k
                    + 1]
            &&& t.agent.transcript == s.agent.transcript.push(message)
            &&& t.outbox == match entry {
                Some(e) => s.outbox.push(
                    Effect::Emit(AgentSessionEvent::EntryAppended { entry: e }),
                ),
                None => s.outbox,
            }
        },
        stored matches Err(e) ==> r == Err::<(), BashExecError>(BashExecError::Session(e)) && final(session)@ == old(session)@,
{
}

/// A record that no longer stands at the head of the queue takes nothing off it.
pub proof fn law_another_record_leaves_the_queue_alone(
    session: &mut AgentSession,
    record: &BashExecutionMessage,
    message: AgentMessage,
    stored: Result<Option<SessionEntry>, SessionError>,
    r: Result<(), BashExecError>,
)
    requires
        call_ensures(
            AgentSession::flush_pending_bash_messages,
            (session, record, message, stored),
            r,
        ),
        old(session)@.pending_bash.len() > 0,
        ({
            let head = old(session)@.pending_bash[0];
            ||| head.command@ != record.command@
            ||| head.output@ != record.output@
            ||| head.exit_code != record.exit_code
            ||| head.cancelled != record.cancelled
            ||| head.truncated != record.truncated
            ||| head.timestamp != record.timestamp
            ||| head.exclude_from_context != record.exclude_from_context
            ||| head.full_output_path is Some != record.full_output_path is Some
            ||| head.full_output_path is Some && head.full_output_path->0@
                != record.full_output_path->0@
        }),
    ensures
        final(session)@.pending_bash == old(session)@.pending_bash,
{
}

/// A stored message of a shell command joins the transcript at its end and its entry is told; one
/// that could not be stored changes nothing.
pub proof fn law_a_stored_shell_message_joins_the_transcript(
    session: &mut AgentSession,
    message: AgentMessage,
    stored: Result<Option<SessionEntry>, SessionError>,
    r: Result<(), BashExecError>,
)
    requires
        call_ensures(AgentSession::bash_stored, (session, message, stored), r),
    ensures
        stored matches Ok(entry) ==> {
            let s = old(session)@;
            let t = final(session)@;
            &&& r is Ok
            &&& t.pending_bash == s.pending_bash
            &&& t.agent.transcript == s.agent.transcript.push(message)
            &&& t.outbox == match entry {
                Some(e) => s.outbox.push(
                    Effect::Emit(AgentSessionEvent::EntryAppended { entry: e }),
                ),
                None => s.outbox,
            }
        },
        stored matches Err(e) ==> r == Err::<(), BashExecError>(BashExecError::Session(e)) && final(session)@ == old(session)@,
{
}

/// The shell gets the command as it was given, behind the configured lines where there are any, in
/// the directory of the session. What ran before is cancelled, and the new command can be.
pub proof fn law_the_shell_gets_the_command(
    session: &mut AgentSession,
    command: &str,
    options: &ExecuteBashOptions,
    token: CancelToken,
    run: BashInvocation,
)
    requires
        call_ensures(AgentSession::execute_bash, (session, command, options, token), run),
    ensures
        run.cwd@ == old(session)@.cwd,
        run.operations == options.operations,
        old(session).settings.shell_command_prefix is None ==> run.command@ == command@,
        old(session).settings.shell_command_prefix matches Some(p) ==> run.command@ == if p@.len()
            == 0 {
            command@
        } else {
            p@ + seq!['\n'] + command@
        },
        old(session).settings.shell_path is None ==> run.shell_path is None,
        old(session).settings.shell_path matches Some(p) ==> (if p@.len() == 0 {
            run.shell_path is None
        } else {
            run.shell_path == Some(p)
        }),
        final(session)@.slots.bash == Some(token),
        old(session)@.slots.bash is None ==> final(session)@.outbox == old(session)@.outbox,
        old(session)@.slots.bash matches Some(before) ==> final(session)@.outbox == old(session)@.outbox.push(Effect::Cancel(before)),
        final(session)@.agent == old(session)@.agent,
{
    reveal_strlit("\n");
    assert("\n"@ =~= seq!['\n']);
    assert(old(session)@.outbox + Seq::<Effect>::empty() =~= old(session)@.outbox);
    if let Some(before) = old(session)@.slots.bash {
        assert(old(session)@.outbox + seq![Effect::Cancel(before)] =~= old(session)@.outbox.push(
            Effect::Cancel(before),
        ));
    }
}

/// A command that ended is no longer in progress. A result is handed on; the text of a failure is
/// handed on with what it says: `Command aborted` or the bare `aborted` an abort, `Command timed
/// out` or the bare `timeout:` with a number a timeout, and no file holds more of it.
pub proof fn law_an_ended_command_is_read(
    session: &mut AgentSession,
    resolved: &str,
    outcome: Result<BashResult, String>,
    r: Result<BashResult, BashExecError>,
)
    requires
        call_ensures(AgentSession::bash_finished, (session, resolved, outcome), r),
    ensures
        final(session)@.slots.bash is None,
        final(session)@.outbox == old(session)@.outbox,
        final(session)@.pending_bash == old(session)@.pending_bash,
        final(session)@.agent == old(session)@.agent,
        outcome matches Ok(result) ==> r == Ok::<BashResult, BashExecError>(result),
        outcome matches Err(text) ==> (r matches Err(BashExecError::Execution { message, result })
            && message == text && result.full_output_path is None && result.cancelled == (
        text::contains_seq(text@, "Command aborted"@) || text@ == "aborted"@) && (text::contains_seq(
            text@,
            "Command timed out"@,
        ) ==> result.truncated) && (text@.len() > 8 && text@.take(8) == "timeout:"@ && (forall|
            i: int,
        |
            8 <= i < text@.len() ==> '0' <= #[trigger] text@[i] <= '9') ==> result.truncated) && (
        result.truncated ==> text::contains_seq(text@, "Command timed out"@) || text@.len() > 8
            && text@.take(8) == "timeout:"@ && forall|i: int|
            8 <= i < text@.len() ==> '0' <= #[trigger] text@[i] <= '9')),
{
    reveal_strlit("timeout:");
    assert("timeout:"@.len() == 8);
    if let Err(text) = outcome {
        if text@.len() >= 8 {
            assert(text@.take(8) =~= text@.subrange(0, 8));
        }
    }
}

/// The output of a failed command is what stands before the line that says how it ended and the empty
/// line before that; a text that says nothing of the kind at its end is output as a whole.
pub proof fn law_a_failed_command_keeps_its_output(
    message: &str,
    command: &str,
    output: Seq<char>,
    line: Seq<char>,
    result: BashResult,
)
    requires
        call_ensures(parse_bash_result_from_error, (message, command), result),
        message@ == output + seq!['\n', '\n'] + line,
        !line.contains('\n'),
    ensures
        line.len() >= 25 && line.take(25) == "Command exited with code "@ ==> result.output@
            == output,
        line.len() >= 15 && line.take(15) == "Command aborted"@ ==> result.output@ == output
            && result.cancelled,
        line.len() >= 17 && line.take(17) == "Command timed out"@ ==> result.output@ == output
            && result.truncated,
        !text::begins_with(line, "Command exited with code "@) && !text::begins_with(
            line,
            "Command aborted"@,
        ) && !text::begins_with(line, "Command timed out"@) ==> result.output@ == message@,
{
    lemma_marks();
    reveal_strlit("\n\n");
    assert("\n\n"@ =~= seq!['\n', '\n']);
    lemma_last_line_appended(output, line);
    assert(last_line(message@) =~= line);
    if line.len() >= 25 {
        assert(line.take(25) =~= line.subrange(0, 25));
    }
    if line.len() >= 15 {
        assert(line.take(15) =~= line.subrange(0, 15));
    }
    if line.len() >= 17 {
        assert(line.take(17) =~= line.subrange(0, 17));
    }
    if is_status_line(line) {
        law_stripping_undoes_appending(output, line);
        if text::begins_with(line, "Command aborted"@) {
            assert(text::occurs_at(line, "Command aborted"@, 0));
        }
        if text::begins_with(line, "Command timed out"@) {
            assert(text::occurs_at(line, "Command timed out"@, 0));
        }
    }
}

/// A failure that names no exit code has none.
pub proof fn law_an_unnamed_exit_code_is_none(message: &str, command: &str, result: BashResult)
    requires
        call_ensures(parse_bash_result_from_error, (message, command), result),
        !text::contains_seq(message@, "Command exited with code "@),
    ensures
        result.exit_code is None,
{
}

/// The result of a command that succeeded: exit code 0, not aborted, and what it wrote is the first
/// text of the tool's result, or nothing where there is none.
pub proof fn law_a_succeeded_command_is_read(tool: AgentToolResult, i: int, result: BashResult)
    requires
        call_ensures(parse_bash_result_from_agent_result, (tool,), result),
    ensures
        result.exit_code == Some(0i32),
        !result.cancelled,
        (0 <= i < tool.content@.len() && (forall|k: int|
            0 <= k < i ==> #[trigger] tool.content@[k] is Image)) ==> (tool.content@[i]
            matches UserContent::Text(t) ==> result.output@ == t@),
        (forall|k: int| 0 <= k < tool.content@.len() ==> #[trigger] tool.content@[k] is Image)
            ==> result.output@.len() == 0,
        result.truncated <==> (json::field(tool.details, "truncation"@) matches Some(t)
            && json::field(t, "truncated"@) == Some(Json::Bool(true))),
        json::field(tool.details, "fullOutputPath"@) matches Some(Json::Text(path))
            ==> result.full_output_path == Some(path),
        !(json::field(tool.details, "fullOutputPath"@) matches Some(Json::Text(_)))
            ==> result.full_output_path is None,
{
    if 0 <= i < tool.content@.len() && (forall|k: int|
        0 <= k < i ==> #[trigger] tool.content@[k] is Image) && tool.content@[i] is Text {
        lemma_first_text_at(tool.content@, 0, i);
    }
    if forall|k: int| 0 <= k < tool.content@.len() ==> #[trigger] tool.content@[k] is Image {
        lemma_no_text(tool.content@, 0);
    }
}

proof fn lemma_first_text_at(blocks: Seq<UserContent>, from: int, i: int)
    requires
        0 <= from <= i < blocks.len(),
        blocks[i] is Text,
        forall|k: int| from <= k < i ==> #[trigger] blocks[k] is Image,
    ensures
        first_text(blocks, from) == blocks[i]->Text_0@,
    decreases i - from,
{
    if from < i {
        assert(blocks[from] is Image);
        lemma_first_text_at(blocks, from + 1, i);
    }
}

proof fn lemma_no_text(blocks: Seq<UserContent>, from: int)
    requires
        0 <= from <= blocks.len(),
        forall|k: int| from <= k < blocks.len() ==> #[trigger] blocks[k] is Image,
    ensures
        first_text(blocks, from).len() == 0,
    decreases blocks.len() - from,
{
    if from < blocks.len() {
        assert(blocks[from] is Image);
        lemma_no_text(blocks, from + 1);
    }
}

/// The shell gets the command behind the prefix and a newline; without a prefix, or with an empty one,
/// it gets the command alone.
pub proof fn law_a_prefix_stands_on_its_own_line(
    prefix: &Option<String>,
    command: &str,
    r: String,
)
    requires
        call_ensures(resolve_command, (prefix, command), r),
    ensures
        *prefix is None ==> r@ == command@,
        *prefix matches Some(p) ==> (p@.len() == 0 ==> r@ == command@) && (p@.len() > 0 ==> r@
            == p@.push('\n') + command@),
{
    reveal_strlit("\n");
    if let Some(p) = *prefix {
        assert(p@ + "\n"@ + command@ =~= p@.push('\n') + command@);
    }
}

/// The line that tells how a command ended is cut off together with the empty line before it, and
/// what the command wrote is left as it is. A text without such a line is left whole.
pub proof fn law_what_was_written_is_left(
    message: &str,
    output: Seq<char>,
    line: Seq<char>,
    rest: Seq<char>,
    r: String,
)
    requires
        call_ensures(strip_status_suffix, (message,), r),
        !line.contains('\n'),
        message@ == output + seq!['\n', '\n'] + line,
    ensures
        line == "Command exited with code "@ + rest || line == "Command aborted"@ + rest || line
            == "Command timed out"@ + rest ==> r@ == output,
        !text::begins_with(line, "Command exited with code "@) && !text::begins_with(
            line,
            "Command aborted"@,
        ) && !text::begins_with(line, "Command timed out"@) ==> r@ == message@,
{
    let s = message@;
    reveal_strlit("\n\n");
    assert("\n\n"@ =~= seq!['\n', '\n']);
    lemma_last_line_appended(output, line);
    let p = last_line_start(s);
    assert(s.skip(p) =~= line);
    assert(s[p - 2] == '\n');
    assert(s.take(p - 2) =~= output);
    if line == "Command exited with code "@ + rest {
        let w = "Command exited with code "@;
        assert(line.subrange(0, w.len() as int) =~= w);
    }
    if line == "Command aborted"@ + rest {
        let w = "Command aborted"@;
        assert(line.subrange(0, w.len() as int) =~= w);
    }
    if line == "Command timed out"@ + rest {
        let w = "Command timed out"@;
        assert(line.subrange(0, w.len() as int) =~= w);
    }
}

/// Records wait where one is next, and the options of a command ask for nothing unless told to.
pub proof fn law_records_wait_where_one_is_next(
    session: &AgentSession,
    waiting: bool,
    next: Option<(BashExecutionMessage, AgentMessage)>,
    options: ExecuteBashOptions,
)
    requires
        call_ensures(AgentSession::has_pending_bash_messages, (session,), waiting),
        call_ensures(AgentSession::next_pending_bash, (session,), next),
        call_ensures(ExecuteBashOptions::default, (), options),
    ensures
        waiting <==> next is Some,
        !options.exclude_from_context,
        options.operations is None,
{
}

} // verus!
