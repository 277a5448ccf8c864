# nano_recorder

Control logic of a small capture box: a client pairs with the box over
HTTPS, receives a random 30-character key, and uses that key to start and
stop a video recording and finally to unpair.

- `src/` is the verified library (Verus):
  - `models.rs` – the host state, client and response records, `index`.
  - `client_handlers.rs` – the pairing / start / stop / unpair rules, each
    specified by spec functions over the host's view, plus the stopwatch calls.
  - `utils.rs` – key generation (random positions in the alphabet) and
    `convert_time`.
  - `recorder.rs` – what the recorder's bus observer does with each pipeline
    message.
  - `laws.rs` – properties spanning several requests (invariant, pair/unpair
    round trip, refusals, start/stop round trip, idempotence).
- `app/` is the HTTP server (actix-web, OpenSSL) and the GStreamer pipeline.
- `tests/` exercises the library on concrete values.
