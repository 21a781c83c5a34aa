# npcterm

Terminals for programs that talk the Model Context Protocol: what the tools of the
server decide and answer, how keys become bytes, how a shell is started and a
terminal emulator launched. Everything under `src/` is verified with Verus.

- `src/input/` - key names and the bytes that keys send; `key_laws.rs` holds what is
  true of all keys.
- `src/terminal/` - sizes, starting a shell, output and input of a terminal, the name
  of the process in the foreground, launching another terminal emulator.
- `src/mcp/` - the tools: what they do with their arguments and what they answer and
  record, the batch of keys, the web viewer.
- `src/cli.rs` - the command line. `src/command.rs` – programs to run.
- `src/json.rs`, `src/text.rs` - JSON objects and text.
- `app/` - the MCP server, processes and terminal devices around the library. Screens
  and the registry of terminals are handed to `app::run` as `Parts`.
- `tests/` - the library on concrete values.

Proof functions whose names begin with `law_` state what holds of the library as a
whole.
