# rustui

A terminal chat with rooms, end-to-end encrypted messages and an
administration tool, whose core is a library verified with Verus.

- `src/` is the verified library:
  - `crypto`: passphrase-derived AES-256-GCM encryption of messages, as
    `base64(nonce || ciphertext)`; decrypting what was encrypted gives the
    message back.
  - `client`, `editor`, `login`, `layout`: the chat client's state (message
    list, input line, login form), how keys and server notices change it, and
    what its screens show.
  - `registry`, `server`, `relay`: the servers' tables of connected clients
    and the routing of each command (who receives what).
  - `admin`: naming rules, password hashing, the command line and the
    reports of the administration tool.
  - `contacts`, `monitor`: the direct-message client and the server
    dashboard.
  - `protocol`, `text`, `clock`: the messages, string helpers and timestamps.
- `app/` holds the programs (`rustui client|server|manage|chat|relay|monitor`):
  terminal drawing, WebSocket connections, JSON and the SQLite database.
- `tests/` runs the library on concrete values.
