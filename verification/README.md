# claudiator_server

The event-ingestion rules of the Claudiator server, verified with Verus.

- `src/` — the library. Every function is proved against its contract by
  Verus except six small trusted wrappers around outside calls (chrono's
  clock and RFC 3339 parser, `HeaderMap::get`, `HeaderValue::to_str`, and
  uuid's `new_v4`), whose contracts are taken on trust and say in their doc
  comments what they claim:
  - `model.rs` — device, event and payload values; the ingestion error.
  - `text.rs` — string equality, Unicode trimming, byte-bounded truncation on
    character boundaries.
  - `validate.rs` — required fields and RFC 3339 timestamp check.
  - `headers.rs` — device identity from `X-Claudiator-*` (or legacy
    `X-Device-*`) request headers.
  - `session.rs` — session status and title derived from an event.
  - `notify.rs` — which events notify the user, with what title and body.
  - `ingest.rs` — what an accepted event records, HTTP-hook payloads,
    notification records and push collapse ids.
  - `state.rs` — shared counters and the retention-cleanup schedule.
  - `push.rs` — the walk over push tokens and what each APNs answer leads to.
- `app/` — axum handlers and router; storage, authentication, APNs and the
  notification cooldown are reached through the traits in `app/ports.rs`.
- `tests/` — tests of the library on concrete values.
