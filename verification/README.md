# etop

A deterministic inventory of a developer workstation's installed software
(Homebrew, Mise, Cargo, gems, npm, uv, Go, macOS apps, build caches, Docker
layers), with dependency resolution, classification, filtering, a dashboard and
reversible cleanup plans.

- `src/` is the library, written in Verus: the data model, the parsers of the
  package managers' outputs, the taxonomy, the dependency resolver, the cleanup
  and rollback scripts, the dashboard's state machine and what each of its lines
  shows. Every function carries a contract. Verus proves the contracts of the
  library's own functions; the few small wrappers that call chrono, serde_json
  or std (marked `#[verifier::external_body]`) have contracts that are trusted,
  not proved. The public proof functions state the laws that hold across calls.
- `app/` is the `etop` program: command-line parsing, running the package
  managers, reading the file system, the history files, and drawing the
  dashboard in the terminal.
- `tests/` runs the library on concrete inputs.
