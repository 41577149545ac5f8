# mcp-server-agent-browser

An MCP server that exposes browser automation tools by running the
`agent-browser` command-line tool, speaking JSON-RPC 2.0 over stdio.

- `src/` is the verified library (Verus): the checks on session identifiers and
  file paths (`validate`), the argument list of every tool (`tools`, `args`),
  the parameters of the tools (`params`), what a finished command's output
  becomes (`output`), the protocol values the tools answer with (`protocol`,
  through `rmcp`), string helpers (`text`) and properties proved across them
  (`laws`).
- `app/` is the program around it: the MCP server with its tool handlers,
  process spawning with timeouts, and the serde/JSON-schema copies of the
  parameter types.
- `tests/` runs the library on concrete values.
