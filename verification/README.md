# chatyk

The request-handling rules of a chat service, written as a verified library.

- `src/` is the library. Each public function states what it returns in its
  contract, and the proof functions state the laws that hold across calls:
  cache keys that never collide, the termination and lock discipline of the
  recent-messages cache refresh, duplicate-free message pages, error statuses
  that never reveal internal failures, and stored password hashes that the
  registered password matches. Calls into `bcrypt`, `uuid` and `std::path` go through a
  few small wrappers whose contracts are taken on trust.
- `app/` is the server around it: configuration, the database (diesel), the
  cache and message queue (redis), the HTTP and websocket routes (axum), JWT
  encoding and cookies. It performs the I/O and asks the library for every
  decision. `chatyk` runs the chat service, `chatyk auth` the authentication
  service and `chatyk notify` the notification service.
- `tests/` runs the library on concrete values.
