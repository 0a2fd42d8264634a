# tmkms

The decision core of a validator key management server, verified with Verus, and the
program around it.

- `src/` decides. `http_server/` holds what a request to add a chain does: which file
  operations replace the configuration file (`config_update`), how a request is
  served up to its reply (`handlers`), the routes (`routes`), and the properties of
  whole runs (`atomicity`, `serving`). `commands/start` holds how the server starts
  and how it waits for its end. `config`, `error`, `paths` and `application` hold what
  these work on.
- `app/` performs: command line, framework, files, threads, JSON and TOML, the HTTP
  server. It carries out the actions that `src/` asks for and reports their outcomes.
- `tests/` runs the library on concrete values, with the files in memory.

What is trusted in `src/` are the calls into `std::path` (in `paths`) and the status
codes of `warp` (in `handlers`). Each states in its doc comment what it claims.
