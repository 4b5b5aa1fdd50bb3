# tokio-listener

A listener that abstracts over TCP sockets, UNIX path and abstract sockets,
sockets inherited from systemd, and an inetd-style stdin/stdout pseudo-socket.

* `src/` is the verified library: the address grammar (`listener_address`),
  the `--tcp-keepalive` and `--unix-listen-chmod` values, decimal numerals,
  the systemd environment checks (`sd_listen`), error messages, and the
  decisions of binding and of the accept loop (`listener`), and the steps of
  serving with graceful shutdown (`axum07`). Each function has a
  contract; read-back properties are proved as lemmas next to the specs.
* `app/` holds the I/O: binding and accepting with tokio, the `Connection`
  type and its `AsyncRead`/`AsyncWrite` impls, and the clap/serde/axum/tonic
  integrations, each calling into the library for its decisions.
* `tests/` exercises the library on concrete values.
