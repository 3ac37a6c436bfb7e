# CollaBoard

A collaborative whiteboard service: users register and log in, create
boards, invite others to them by a one-time link with one of three roles
(a viewer looks, an editor also draws, an owner also deletes the board and
manages who may use it), and draw together in live rooms over websockets.

## Layout

- `src/` is the verified library (Verus). It holds the service's rules:
  validation of requests, password hashing, the request handlers written as
  state machines (`handlers`), invitations and their e-mail, the drawing
  rooms (`ws`), the document a board's file holds (`board_file`), and the
  rules of the browser client (`client`, `forms`, `endpoints`). `laws`
  proves properties that span several functions, such as "only the owner,
  or a holder of the Owner role, can delete a board", "a viewer cannot
  change a drawing", "a new board opens for its creator" or "an invitation
  link is used once".
- `app/` is the server around it: axum routes, the PostgreSQL queries
  (diesel), the files of the boards, SMTP (lettre), access tokens
  (jsonwebtoken) and the websocket loop. It performs the queries the
  handlers ask for and hands the replies back.
- `tests/` runs the library on concrete inputs.
