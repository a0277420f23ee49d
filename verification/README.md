# veritas

A testing oracle for software that was written or changed by machines: it discovers what a
project has to test, generates tests, changes the source to see whether tests notice, replays
behavior against what was recorded, and says how much confidence a report gives.

- `src/` is the verified library. Every function states what it returns; Verus proves it.
  It reads no file and runs no command.
- `app/` is the command line around it: files, processes, git, threads and the clock.
- `tests/` runs the library from outside.

What the library takes from other crates stands behind declarations in three files:
`src/json.rs` (serde_json), `src/paths.rs` (camino) and `src/go_source.rs` (tree-sitter with
the Go grammar). Their doc comments say what is taken on trust.

Reports, baselines, caches, corpus entries, candidates, suites and generations are written as
JSON. `src/readback.rs` proves that each is read back as it was written.
