# crowley

An MCP server that fetches web pages as markdown by driving the `crwl` CLI,
written as a Verus-verified library with a thin executable around it.

Layout:

- `src/config.rs` — configuration types and their views; layering of the
  built-in defaults, a parsed TOML file and the command line
  (`with_file`, `with_cli`), with the laws of precedence, identity and
  idempotence proved.
- `src/crwl.rs` — the `crwl crawl` argument vector for a request and the
  messages for a failed run.
- `src/server.rs` — how a tool call becomes a request, what follows a
  finished run, and how results are rendered within the configured
  character cap, truncation note included.
- `src/text.rs` — decimal rendering, Unicode whitespace trimming and
  byte-capped truncation, specified over character sequences and their
  UTF-8 encodings.
- `app/` — the executable: command-line parsing, TOML reading and writing,
  process spawning with a timeout, and the MCP stdio/HTTP transports.
- `tests/` — tests of the library on concrete values.
