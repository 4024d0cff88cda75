# rsomeip

A SOME/IP library whose logic is verified with Verus.

## Layout

- `src/bytes`: the SOME/IP wire format. `Serialize` and `Deserialize` for integers, tuples,
  arrays, length-prefixed values and UTF-8 / UTF-16 strings, each stated over the bytes it writes
  or reads. `laws.rs` proves that values read back from the bytes they write (texts
  when they hold no NUL character, which the encodings use as a delimiter).
- `src/codec`: the runtime's own serialization traits, stated over what each call writes into
  the buffer. `laws.rs` proves that integers and booleans read back from where they were
  written, and that popping a read limit undoes pushing it.
- `src/proto`: SOME/IP primitives (identifiers, message types, return codes), headers and
  messages, interface checks, the endpoint that polls and processes messages, and SOME/IP-TP
  segmentation. `laws.rs` holds what spans functions: headers and messages read back, a split
  segment joins again, what one side sends the other side receives.
- `src/net`: shared byte buffers and their pool, and the network error type.
- `src/runtime.rs`, `src/socket.rs`, `src/endpoint.rs`: the plain values of the runtime
  (protocols, states, send and receive errors, interface identifiers), and the decisions of the
  connection loops: what to do after a read or a write on a stream, and with what a socket
  received.
- `app/`: the asynchronous runtime, sockets over TCP and UDP, channels and the error type with
  its `thiserror` derive: what runs on `tokio` and `std::net`, around the library.
- `tests/`: the library's tests, run against the compiled crate.
