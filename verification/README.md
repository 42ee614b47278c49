# nh-system

What `nh system` decides, with proofs: which system-manager configuration is
meant, in what order it is built and activated, and what the user is told.

- `src/` is the library. It touches nothing outside but to ask who runs it: a
  command is a record of what is known, says what it asks for next, and is told
  the reply.
  - `toplevel` searches for the configuration, `rebuild` is the course of `switch`
    and `build`, `repl` that of the interactive session; `session` begins them.
  - `toplevel_laws` and `rebuild_laws` hold what is true of every search and of
    every run.
  - `protocol` lists what can be asked for and what can be told; `args`,
    `installable`, `nix` and `error` hold the values that are passed around.
- `tests/` runs the library against a made-up outside.
- `app/` is the command line, and carries the requests out.
