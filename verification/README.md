# bioma_tool

Model Context Protocol building blocks and the pure parts of the Bioma
tools, with their behaviour stated as Verus contracts and proved.

- `src/` is the verified library: JSON-RPC framing for the stdio, SSE and
  WebSocket transports; the MCP server's request dispatcher and the
  client's request tracking; resource subscriptions and the filesystem
  resource's path and URI rules; the echo, memory and random tools, the
  greeting prompt and the README resource; connection health; the
  cognition server's conversations, uploads, health decisions and tool
  schema conversion; the RAG server's tools; the load test's ordering; the
  Discord bot's conversation building; sampling with a chat model.
- `app/` holds the I/O around it: reading JSON into the library's values,
  the stdio loop of the example MCP server, the disk side of the
  filesystem resource, and the HTTP health probes.
- `tests/` exercises the library on concrete values.

Calls into outside crates (`serde_json`, `uuid`, `url`, `base64`, `rand`,
`jsonrpc-core`) go through small trusted wrappers whose contracts say what
the crate's documentation promises.

Maps keyed by integers use `std::collections::HashMap` with vstd's
specifications (the client's pending requests, keyed by `u64`). vstd's
`HashMap` specifications hold only for keys that obey its key model, which
vstd grants to the integer types; for `String` and `ClientId` keys no
contract of `insert`, `get` or `remove` would hold, and subscriber lists
must also keep the order of subscription. Those maps are `Registry`
(`src/registry.rs`), an association list in insertion order whose
operations are proved against a `Map` view.
