# chat_rooms

The verified core of a small chat-room web server.

- `src/` is the library, verified with Verus: validation of names,
  descriptions, passwords and messages (`validation`), rooms and their
  members (`room`, `member`), the registry of open rooms (`room_manager`),
  what every WebSocket frame leads to (`messages`, `session`), the claims of
  access tokens (`claims`), cookie settings (`cookie`) and the properties
  that hold across these operations (`laws`).
- `app/` is the server around it: HTTP routes, templates, JSON, JWT
  encoding, cookies and the WebSocket loops.
- `tests/` exercises the library on concrete values.
