# rulest

An architecture registry and MCP oracle for Rust (and TypeScript) workspaces:
it records the crates, modules and symbols of a workspace in SQLite, with
ownership rules per crate, and answers the questions an agent asks before it
writes code (does this symbol exist already, does this type exist, may this
crate own it, is someone else working here, what can be reused).

## Layout

- `src/` — the verified library (Verus). Its verified functions state their
  contracts; the calls into `rusqlite`, `syn`, `swc` and std that it makes go
  through small trusted wrappers, whose doc comments say what is claimed of
  them. The laws of the library are public proof functions.
  - `models`, `advisory`: the data model and the advice the registry gives.
  - `registry`, `db`, `seed`: the SQLite schema, its migrations, reads and
    writes, and the checks on seed files (through `rusqlite`).
  - `queries`: creation, dependency, boundary, work-in-progress and reuse
    checks, plan validation and registration, statistics.
  - `matching`, `plan`, `text`, `unicode`, `time`: name matching against
    ownership rules, plan parsing, text and calendar arithmetic.
  - `rust_syntax`, `ts_syntax`: reading Rust (with `syn`) and TypeScript (with
    swc) sources into item trees, and which parts of a tree are walked.
  - `extract`, `typescript`: symbols of Rust and TypeScript sources, from the
    items met walking them.
  - `workspace`, `sync`: the workspace structure and the incremental sync.
  - `mcp`, `check`, `query`, `cli`: the decisions of the MCP server, of the
    pre-commit check and of the command line.
- `app/` — the `rulest` program: argument parsing, files, `cargo metadata`,
  `git`, and the stdio loop of the MCP server.
- `tests/` — tests of the library.

The `scaffold` command reads its templates from the directory named by
`RULEST_TEMPLATES` (default: `templates`).
