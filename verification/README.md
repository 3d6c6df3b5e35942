# sibyl

An interface between Rust applications and Oracle databases through the Oracle Call
Interface (OCI), with its logic verified by Verus.

## Layout

- `src/` is the verified library. It decides every OCI call that an operation makes and
  what OCI's answers mean. An operation hands back the call it needs as an `OciCall`
  value, or a flow (`EnvironmentFlow`, `SessionFlow`, `LobCreateFlow`, `ColumnsFlow`, ...)
  that hands out one call at a time and takes OCI's `Reply` to each (`Step::Call`), and
  ends with the operation's result (`Step::Done`) or with the diagnostics of a failed call
  (`Step::Fail`). Flows that allocate handles say what to free when they end with an error
  (`cleanup`), and values that own handles say what dropping them does (`release`).
  - `oci`: constants, handle and descriptor types, the call descriptions and OCI's answers,
    what an answer to a single call gives (`oci::answer`), and the polling of calls made in
    nonblocking mode (`oci::futures`).
  - `env`, `session`, `conn`, `pool`: environments, sessions, connections and pools.
  - `lob`: CLOB, BLOB and BFILE locators and their operations.
  - `column`, `cursor`, `rows`, `stmt`, `rowid`, `fromsql`: statements, the columns of
    their select lists and their output buffers, fetched rows.
  - `err`, `text`: errors and their messages.
- `app/` is the application layer: it declares the OCI client library functions, makes the
  calls that the library plans (`perform`), turns diagnostics into errors (`diagnose`), and
  runs flows to their end (`run`), with blocking functions such as `env`, `connect`,
  `create_session_pool`, `clob_write` and `blob_read` built on them.
- `tests/` drive the library with OCI's answers written by hand.
