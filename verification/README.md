# wasmrs

The wasmRS protocol — RSocket frames exchanged between a WebAssembly host
and guest — as a library verified with Verus.

## Layout

- `src/` — the verified library.
  - `kinds`, `header`, `payload`, `frame`: frame types, flags and error codes,
    the six-byte header, payload and request bodies, and the frames with
    their binary encoding. Decoding the encoding of a frame gives the frame
    back (`frame::law_frame_roundtrip`).
  - `socket`: the decisions of a socket — stream ids, pending requests,
    REQUEST_N credit, and what each received frame causes. What a
    request/channel sends over a whole sequence of items is
    `socket::law_channel_frames`.
  - `guest`: the guest side of a component — request metadata, the handler
    registry, fragment reassembly and the decision on each frame from the
    host.
  - `record`: records of sent and received frames as base64 text.
  - `msgpack`: reading MessagePack data as tokens.
  - `schema`, `actions`, `component`: types of an example interface schema,
    what the example test service computes, and the example component's
    export and import tables.
  - `error`, `text`, `util`: errors, text and big-endian helpers.
- `tests/` — tests run against the compiled library.
- `app/` — the runtime around the library: a socket on channels and tasks,
  the process-wide frame record, JSON forms of the library's types, and
  conversions to `bytes::Bytes`.
