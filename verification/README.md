# task-board

A collaborative drag-and-drop day-task tracker: boards hold phrase boxes, clients edit
them over REST and see every change in real time over a WebSocket.

- `src/` is the verified library (Verus):
  - `config.rs`: the settings, how they are built from the environment's values (defaults,
    port and number parsing, flags) and the PostgreSQL connection URL, with its redaction;
  - `text.rs`: decimal printing and parsing, the grammar of floating-point literals, and
    ASCII case-insensitive comparison, each against a specification;
  - `boards/`, `boxes/`: the records;
  - `api/`: what each endpoint answers and broadcasts, given what the database answered,
    and what the WebSocket loops do on each event.
- `app/` is the service around it: environment, PostgreSQL (sqlx), HTTP routing (axum),
  the broadcast channel, JSON and OpenAPI (serde, utoipa), logging, and the placement of
  new boxes, which is floating-point arithmetic.
- `tests/` runs the library on concrete values.
