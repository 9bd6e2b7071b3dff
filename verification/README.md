# mir2

A game server for a Legend of Mir 2 style client, built around a library
whose rules are checked by Verus.

- `src/` is the library: the binary wire protocol (framing, every client
  and server packet, request parsing), the game rules (combat, skills,
  inventory, equipment, shops, maps and map files, monsters and their AI),
  the per-packet decisions of the network layer and the account rules.
  Every function carries a `requires`/`ensures` contract that Verus proves;
  the few calls into other crates and std (random numbers, the clock,
  Argon2, lossy UTF-8 decoding) sit behind small trusted wrappers whose
  contracts say what those crates guarantee.
- `app/` is the program around it: settings, the SQLite store, reading the
  data files, the WebSocket server, the session tasks and the world loop.
- `tests/` exercises the library from the outside.
