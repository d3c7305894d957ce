# ttp_core

A verified implementation of the Tensamin Transport Protocol message format, with the
logic of its message tools and connections, checked by Verus.

A message (`CommunicationValue`) has a type, an optional id, sender and receiver, and a
container of data values keyed by `DataTypes`. Data values are booleans, numbers, texts,
arrays, containers and null, with a compact binary encoding.

## Layout

- `src/` — the verified library
  - `data_types.rs`, `communication_types.rs`: the key and message-type enums, their wire
    bytes and names; `data_type_names.rs`, `communication_type_names.rs` prove that every
    name parses back to its variant.
  - `data_value.rs`, `codec.rs`, `wire.rs`, `data_map.rs`: data values, their meaning,
    the binary codec with its round-trip laws, base64, and the key-ordered map a message
    holds its data in.
  - `communication_value.rs`: messages and their frames, with the round-trip law.
  - `logger.rs`: the readable rendering of messages.
  - `names.rs`, `text.rs`: name normalisation and the text parsing the tools use.
  - `inspect.rs`, `screens.rs`, `structure.rs`: the message builder and viewer: reading
    typed values and hex input, building messages from a form, the key handling of both
    screens, the byte layout and the tree of a message's data.
  - `transport.rs`: framing, close frames, retries and connection state of the
    WebTransport connection.
- `tests/` — tests of the library.
- `app/` — the terminal program (ratatui) and the WebTransport connection (wtransport,
  tokio), which drive the library.
