# blog_server

A small blog back end: users register and log in with an e-mail address or a
phone number, receive a signed token, and list, read, write and delete
markdown articles stored in PostgreSQL and on disk.

- `src/` is the verified library (Verus): form validation, the SQL text of
  every query, password hashing, token issuing and checking, and the JSON
  responses that each route answers with, each with its contract.
- `app/` is the Rocket server around it: routes, request guards, the token
  fairing, JWT encoding and decoding, database and file I/O, and the serde
  forms of the library's types.
- `tests/` runs the library on concrete values.
