# vocechat_e2ee

The end-to-end encryption core of VoceChat, written in Verus: key agreement
(X3DH), the Double Ratchet for direct messages, channel sender keys,
deferred envelopes for messages sent before the recipient has a session,
MLS group messaging over OpenMLS, the E2EE v2 wire rules the server
enforces, the bot key vault, and password hashing.

## Layout

- `src/` — the verified library. `primitives.rs` and `mls/facade.rs` hold
  the trusted items: each wraps one call into an outside crate (RustCrypto,
  dalek, base64, argon2, p256, OpenMLS) and states what that crate's source
  shows. Everything else is proved against those statements.
- `src/x3dh.rs`, `ratchet.rs`, `dm_session.rs`, `sender_keys.rs`,
  `deferred.rs`, `envelope.rs`, `pad.rs` — the messaging protocols and their
  laws (agreement, decryption of what was sent, replay refusal, padding
  round trips).
- `src/e2ee_v2.rs`, `message.rs`, `send_rules.rs`, `e2e_api.rs`,
  `mls_delivery.rs` — the server's rules for E2EE traffic.
- `src/bot_e2ee.rs`, `bot_flow.rs` — the bot key vault and the decisions of
  its send, catch-up, channel and rebuild flows; the server performs the
  I/O and asks these functions what to do next.
- `tests/` — the test suite, run against the compiled library.
- `app/` — plain Rust around the library: the bot and MLS-sequencing flows
  over a storage interface, JSON and FFI dispatch, serde copies of the wire
  types, MLS snapshots and async wrappers.
