# codex_core

The decisions of a coding agent, verified with Verus: what is sent to the model and what its answers
mean, which commands are run and how, what the user is asked, and what a session keeps.

- `src/` is the library. Every function states what it returns or changes, and Verus proves it. The
  public proof functions whose names begin with `law_` state what holds across functions.
- `app/` connects the library with processes, files, the network and the user.
- `tests/` runs the library on concrete values.

Modules of the library:

- `client`: requests to a model's service, attempts and retries, rate limits, the stream of events.
- `codex`: sessions, submissions, turns, tasks and the record of a conversation.
- `command_safety`: which PowerShell commands change nothing.
- `config_loader`, `toml_text`, `exec_policy`: layers of configuration, and files of policies.
- `exec`, `unified_exec`, `shell`, `tasks`: commands, interactive sessions and the user's shell.
- `mcp_connection_manager`: servers of external tools, and the names of their tools.
- `tools`: handlers of tool calls, approval, sandbox and retry.
- `response_processing`, `truncate`: what is kept of an answer, and of a long text.
- `json`, `named`, `path`, `protocol`, `error`, `shell_words`, `text`: values that the others share.
  Paths are texts; what they mean depends on whether they are those of Windows.

What outside crates and the standard library compute is declared with `external_body` or
`assume_specification` next to where it is used; the comment above each says what is relied on.
