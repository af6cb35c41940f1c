# ttd

Handling Microsoft Time Travel Debugging traces, verified with Verus.

`src/` is the library. The native replay engine is reached through its own bindings; what
the engine reports of a trace and of a cursor is held here as plain values
(`TraceData`, `CursorState`). The library states what each operation asks of the engine
(index checks, the rewind of a new cursor, replay and position requests, memory queries)
and what it makes of the engine's answers, as verified functions. Which native constant
stands for "the start" or "the end" of a trace, and the native calls themselves, are left to
`app/`:

- `replay::engine`: engine and cursor index checks, load and index-build outcomes, the
  module, thread and event lists (UTF-16 names decoded), and the base-address lookup of a
  loaded module by name suffix.
- `replay::cursor`: what a replay asks of the engine, its outcome, and the cursor's
  position, thread and register getters.
- `replay::sys`: replay flags and their native values, processor architectures, and the
  text of a register context.
- `text`: UTF-16 encoding and decoding, suffix tests.
- `unpack`: the unpacking walk as a step function from state and event to state and action.

`app/` holds the native layer (calls into the replay shim, conversion of its structures),
the public replay API that pairs it with the library, the recorder, and the unpacking
program. It needs the Windows-only native bindings.
