# srvpru

A ygopro duel server that stands between clients and the duel servers of
their rooms. The library under `src/` is verified with Verus; `app/` is the
program around it.

## Layout

- `src/ygopro/` — the ygopro protocol: wire constants, the little-endian
  layouts of every message body with a proof that reading what was written
  gives it back, message headers, UTF-16 text fields, decks, replays and
  ban lists.
- `src/srvpru/` — the server: handlers and their registry, processors that
  run handlers by priority, splitting a buffer into messages and assembling
  what is sent on, the room-name grammar that configures a duel, chat lines
  and their translations, and the plugins: what each registers and the
  decisions its handlers take.
- `src/srvpro.rs` — reading the configuration of srvpro into srvpru's.
- `src/text.rs` — characters, decimal numbers, splitting, trimming and
  replacing.
- `app/` — reading configuration files, sockets, duel server processes, and
  the handlers that the server runs with the library's decisions.
- `tests/` — tests of the library on concrete values.
