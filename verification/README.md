# hare

A smart shortcut engine: typing `g monkeys` in a browser redirects to
`https://www.google.com/search?q=monkeys`. Shortcuts (URL templates with a `{}`
placeholder) and their aliases live in a database; a control plane manages them, a web
server resolves queries to redirects, and every request is written to an audit log.

## Layout

- `src/` is the verified library (Verus):
  - `audit_log`, `audit_record`, `http_headers`, `connect_info`, `time`, `header`,
    `request_id`, `text`: request auditing, header filtering, request IDs and text helpers;
  - `data_plane`: the shortcut model, errors, URL validation, pagination and the rules the
    data plane applies around its database operations, with setting the default fallback
    and deleting aliases as step functions that the SQLite client drives;
  - `control_plane`: the control plane's messages, conversions and request checks;
  - `web`: queries, redirects (as a step function driven by the server), health checks;
  - `cli`: the command line client's bootstrap table and requests.
- `tests/` holds the tests.
- `app/` is the web server: axum handlers, tower middleware and the SQLite data plane
  client, which run the library's decisions around the I/O.
