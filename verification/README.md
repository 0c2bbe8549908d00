# duckfn

A framework for writing DuckDB extensions in plain Rust, with its decision-making core verified
by Verus.

## Layout

- `src/` — the verified library. Everything that decides something lives here, with contracts
  over mathematical models:
  - `type_id`, `type_desc`, `logical_type`, `dynamic_value`, `schema`, `row` — runtime column
    types, dynamic values and rows, how values match descriptions, and batch validation;
  - `column_writer`, `chunk_model` — the plan of vector operations that writes a batch of dynamic
    rows into a data chunk, and the model of what such a chunk reads back as (`write_batch` is
    proved to read back as its rows);
  - `value_read`, `row_read`, `copy_from`, `copy_options` — reading DuckDB values into dynamic
    values (through `quack-rs`'s value accessors), regrouping read cells into rows, the
    `COPY ... FROM` checks and the `COPY ... TO` option lookups;
  - `vfs` — the pure parts of the virtual file system helpers (write plans, UTF-8 decoding, line
    splitting);
  - `descriptions` — the CSV export of function descriptions;
  - `rust_type`, `signature`, `struct_derive`, `enum_labels`, `naming`, `entrypoint`, `batch`,
    `overloads` — the rules the procedural macros apply to Rust signatures, structs and enums;
  - `text`, `error`, `helpers` — strings, errors and small utilities.
- `app/` — ordinary Rust around the library: the calls that need `unsafe` or raw vector handles
  (performing a write plan on a data chunk, reading a chunk's vectors), the command-line tool,
  registration and panic handling.
- `tests/` — tests of the library on concrete values.
