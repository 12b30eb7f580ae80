# titanium

Discord data model, request builders and voice protocol logic, written in Verus.

- `src/` is the verified library: snowflakes, permission and intent flags, the
  borrowed/owned/shared string type, CDN and mention formatting, the model types,
  the builders for REST payloads, and the voice gateway (opcodes, payloads, RTP
  headers, the encryption framing and the connection state machine). Calls into
  the cipher crates and the clock stand behind small trusted wrappers whose
  contracts say what the library relies on.
- `tests/` runs the library on concrete values.
- `app/` holds what Verus does not see: the JSON forms of the model types, and the
  socket and WebSocket loop that drives the voice state machine.
