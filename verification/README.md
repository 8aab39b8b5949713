# noctyrn-shared

Shared data model of the Noctyrn game client and server, written in Verus.

- `src/` — the verified library: game modes and their limits, lobby and party
  state, player records, weapon slots, map names, the `PlayerActions` bit
  flags, and the TCP framing (a 4-byte big-endian length header followed by
  the JSON payload), with the laws that tie them together.
- `app/` — plain Rust around it: the serde forms of the types and the JSON
  encode/decode helpers, the UDP packets and movement/spread maths that use
  floating point, and the embedded map assets.
- `tests/` — tests of the library.
