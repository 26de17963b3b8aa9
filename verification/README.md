# fs_more

File and directory operations (copying and moving files and directory trees, with progress
reports; scanning directories; sizes and emptiness checks) with their decision logic verified
by Verus.

## Layout

- `src/` — the verified library. Every operation is a state machine: it is started with its
  arguments, hands out one filesystem request at a time (`requests::FsRequest`), and is resumed
  with the outcome (`requests::FsResponse`) until it finishes with its result. The contracts
  state each step exactly, over the spec functions next to each machine.
  - `path` — paths as strings, compared, prefixed, stripped and joined by components.
  - `file` — copying, moving and removing files, file sizes, progress counting.
  - `directory` — validation of source and destination directories, planning and preparing a
    directory copy, executing it, moving directories (by rename or by copy and delete),
    breadth-first and complete scans, sizes and emptiness checks.
  - `harness` — collision-free names, harness tree schemas and their text rendering.
  - `laws` — properties that span several steps or functions, proved over the machines' specs.
  - `plan_order` — a copy plan creates each directory before anything it places in it.
- `app/` — the same operations over the real filesystem: it performs the requests with
  `std::fs` (and `dunce` for canonical paths) and feeds the responses back.
- `tests/` — the machines run against an in-memory filesystem, and the pure functions on
  concrete values.
