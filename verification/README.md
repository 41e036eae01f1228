# execsandbox

A verified guest-side core for ExecSandbox's WASM ABI (`send`, `recv`,
`conn_write`, `max_frame`), written in Verus.

- `src/` is the library, verified by Verus. It makes every guest-side
  decision without touching the host: the arguments of each host call
  (`calls`), the wire codes of message kinds (`kind`), the little-endian
  metadata block (`wire`), the timeout convention (`timeout`), the receive
  protocol as a state machine that sizes, grows and reuses the receive
  buffer (`recv`), the laws of a whole receive over a sequence of host
  replies and across receives that share a buffer (`run`), and the messages and errors it hands back (`message`).
- `app/` is the thin binding for wasm32 guests: it declares the host's
  import module, performs the host calls that the library describes, and
  runs the receive loop.
- `tests/` drives the library against a fake host and checks its laws on
  concrete values.
