# mcp_probe

A toolkit for the Model Context Protocol (MCP): message types and their JSON
form, the client's protocol decisions, the stdio, Streamable HTTP / HTTP+SSE
and HTTP streaming transports, interceptors that inspect, rate-limit,
validate and rewrite messages on their way, a proxy that relays between a
client and a server, and a terminal monitor.

## Layout

- `src/` — the library, verified with Verus. Every public function states
  what it returns in `requires`/`ensures`; laws relating several functions
  are public proof functions (`lemma_*`).
  - `messages/` — JSON-RPC and MCP messages; `messages/codec.rs` reads and
    writes them as JSON values (`lemma_decode_encode`).
  - `transport/` — configuration, the factory, and each transport as a
    set of decision steps (what to send, how to read the reply, which
    error to give); the network and process I/O is left to the caller.
  - `interceptor.rs`, `interceptors/` — the interceptor chain, the built-in
    interceptors and the manager that runs a message through them.
  - `validation.rs` — tool-parameter checking against a JSON Schema.
  - `client.rs`, `context.rs`, `search.rs`, `tui.rs`, `proxy.rs`,
    `common.rs`, `llm.rs` — the remaining logic.
- `app/` — the program: command line, file and network I/O, the terminal
  screen, serde conversions, and the floating-point search ranking.
- `tests/` — tests of the library on concrete values.

Verification: `verus` on `src/lib.rs` with the outside crates listed in
`Cargo.toml`.
