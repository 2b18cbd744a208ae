# attyd

The rules of a web client for the Agent Client Protocol: which content and
controls are accepted, how sessions live, what is published of them, and what
each reader of the event streams is sent. The library in `src/` is written in
Verus; every function states what it returns or changes, and the verifier proves
it.

## Layout

- `text`, `table`, `json`, `codec`: texts, ordered tables, JSON values, and what
  comes from other crates.
- `semantic`, `session_update`, `fold`: validation of content, controls and
  session updates, and how updates are folded into what is kept.
- `runtime_types`, `wire`, `session_live`, `journal`, `registry`: the state of all
  sessions, its JSON form, its transitions, and the journal of published changes.
- `projection`, `bootstrap`, `events`, `subscribers`, `hub`, `observation`: what
  the hub knows of the connection, and what it hands to its readers.
- `origin`, `api`, `requests`, `assets`: the HTTP interface.
- `laws`, `steps`, `independence`, `identity`, `places`, `settlement`, `series`,
  `catch_up`, `guarantees`, `conversation_laws`, `control_laws`, `hub_laws`: what
  holds of the library as a whole, as proof functions.

`tests/` holds the tests. `app/` is the server around the library: routes, event
streams, timeouts and signals. It takes the Agent connection and the embedded
client as arguments.

## What is not proved

Functions marked `external_body` call other crates: `serde_json` for JSON texts,
`base64`, `url`, `uuid`, `mime_guess`, and UTF-8 decoding of the standard
library. Their contracts are taken on trust. They stand in `json`, `codec` and
`assets`.

That the text of a JSON value reads back as the value is taken on trust for plain
values only: such without decimal numbers, nested no deeper than the parser goes,
and without the key that `serde_json` reserves for raw text,
`$serde_json::private::RawValue`. Of other values nothing is said.
