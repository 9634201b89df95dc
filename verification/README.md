# url_normalizer

A URL normalizer served over a WebSocket RPC protocol. The user interface
sends a list of URLs; for each URL the server tries the `https` and `http`
forms, with and without a trailing slash, first with `HEAD` and then with
`GET`, and reports whether the URL is already in its normalized form, which
form to use instead, or why it could not be checked.

Layout:

- `src/` is the verified library (Verus):
  - `rpc/`: the message envelope and its JSON text, the requests in flight
    and the routing of client responses, task IDs, and the scheduler that
    decides how the two directions of a connection are polled;
  - `normalizer/`: the APIs of the server and of the user interface with
    their JSON text, the state machine that probes one URL, and the routing of
    HTTP requests;
  - `legacy/`: the same for a normalizer that speaks
    its own messages;
  - `url_parts.rs`, `probe.rs`, `text.rs`, `json.rs`: URL normalization,
    the URLs to try, text operations, and JSON numbers and strings.
- `app/` is the program: the HTTP server, the WebSocket connections, the
  HTTP requests of each check, and the JSON decoding of incoming messages.
- `tests/` runs the library on concrete values.
