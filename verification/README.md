# vtnet

The verified core of a self-hosted real-time communication server (VTNet):
cryptographic identities, the challenge–response handshake, RAM voice-room
presence, and the routing of room text and WebRTC signaling between members.

Layout:

- `src/base64_text.rs` – padded standard Base64, its decoding and their round trip.
- `src/wire.rs` – protocol types, validated room text, the canonical signed payload.
- `src/auth.rs` – the per-connection handshake state machine.
- `src/registry.rs` – sessions, the per-sender text rate limit, voice-room membership,
  message routing.
- `src/server.rs` – what each authenticated request changes and who is told.
- `src/rooms.rs`, `src/database.rs` – persistent room definitions and the writes made
  to SQLite.
- `src/config.rs` – startup settings with local defaults.
- `src/identity.rs` – the client side: seed restore, identity, challenge signing.
- `src/transport.rs` – WebSocket frame limits.
- `src/trusted.rs` – the contracts assumed of `base64`, `ed25519-dalek`, `uuid`,
  `rusqlite`, `serde_json` and the std clock.
- `app/` – the server binary (environment, WebSocket runtime, JSON codec) and the
  client's keyring-backed identity commands.

Every function in `src/` is checked by Verus against its `requires`/`ensures`;
the `law_*` proof functions state properties that span several calls.
