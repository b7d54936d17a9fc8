# ppp_client

The verified core of PostgresPlaysPokemon: a client for the emulator's RPC
service and a Postgres foreign data wrapper that shows the game as the tables
`party`, `inventory` and `story`.

`src/` is the library, verified with Verus:

- `messages` — the RPC messages as plain values, and the update request built
  from an `UpdatePokemon`;
- `client` — the socket the emulator listens on and the message of each call;
- `row` — rows as Postgres hands them over, and reading their columns;
- `fdw` — the tables and the columns of their rows;
- `scan` — the state machine of a table scan (fetch once, then hand out rows);
- `modify` — updates and inserts turned into requests, or refused;
- `catalog` — the statements that create the tables, and their key columns;
- `report` — the lines the command-line tool prints;
- `text` — string comparison, number rendering and parsing.

`app/` is the command-line tool: argument handling and the RPC calls over the
Unix socket. It needs the modules generated from the emulator's
`server.proto` (`server.rs`, `server_grpc.rs`).

`tests/` runs the library on concrete values.
