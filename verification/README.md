# back

The verified core of a small blogging API (accounts, posts, comments,
one-time password codes), written in Verus.

- `src/` — the library. Its functions carry `requires`/`ensures`
  contracts proved by Verus; the few calls into other crates and into the
  standard library sit in small wrappers whose contracts are taken on trust
  and say what those crates document. It holds the data types, the text handling
  (word splitting for searches, comma-separated tags, decimal rendering),
  the connection strings, the code protocol and the decisions of every HTTP
  route, expressed as functions from a request and the outcomes of the
  store calls to the next step or the answer.
- `app/` — the server: actix-web routes, MongoDB, Redis and SMTP. It performs
  the calls the library asks for and sends the answers the library gives.
- `tests/` — tests of the library on concrete values.
