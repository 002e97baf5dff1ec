# agent_session

The session layer of a coding agent: what happens around a run of the agent, from the checks before a
prompt to retries, compaction, extensions and statistics.

The library holds the state of a session and decides; it does no I/O. A function that would have to
wait returns the step that is to be done next, and takes the outcome of that step later. What is to
happen besides, such as telling an event or cancelling a token, stands in the session's outbox in the
order in which it is to happen.

* `src/` is the library. Its functions have contracts that Verus proves; what is believed of `std` and
  of the `regex` crate instead is said where they are called. `SessionModel` in `session.rs` is the
  mathematical view of a session that the contracts speak of.
* The functions named `law_...` state what holds of several functions together.
* `app/` is the asynchronous shell: it performs the steps and the outbox with tokio.
* `tests/` runs the library on concrete values.

| module | what it holds |
| --- | --- |
| `session` | the state of a session, its slots, queues and listeners |
| `prompt` | the checks before a prompt, the queues, and the loop of a run |
| `retry`, `overflow` | which failures are tried again, and which mean a context that is too long |
| `compaction` | when the context is shortened, and the steps of it |
| `persistence` | what an event of the agent changes and stores |
| `model` | models and thinking levels |
| `bash` | shell commands and their records |
| `boundary` | the end of a turn, and the moment before the session settles |
| `extension`, `bind`, `reload` | extensions, their resources and commands, binds and reloads |
| `bridge`, `bridge_types`, `commands` | requests and commands of the extension host |
| `events`, `wire`, `wire_read` | events, and how they are written and read |
| `stats` | counts of messages and tokens |
| `json`, `messages`, `resources` | plain data |
| `text`, `number`, `pattern`, `timestamp` | texts, numbers, regular expressions and times |
