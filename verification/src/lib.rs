//! Verified core of a framework for writing DuckDB extensions in plain Rust.
//!
//! The DuckDB C API calls that need `unsafe` or raw vector handles are made outside this crate
//! (DuckDB values are read here, through `quack-rs`'s safe accessors); what lives here is the logic
//! that decides things: the runtime type descriptions and values of dynamic columns and how they match,
//! the reconstruction of a description from a logical type, the checks a batch of rows goes
//! through before it is written, the plan of vector operations that writes it into a data chunk
//! (proved to read back as the batch), the `COPY ... TO` option lookups, the pure parts of the virtual
//! file system helpers, the CSV rows of the function-description export, and the naming rules the
//! procedural macros apply.

pub mod error;
pub mod text;
pub mod type_id;
pub mod type_desc;
pub mod logical_type;
pub mod dynamic_value;
pub mod schema;
pub mod row;
pub mod column_writer;
pub mod value_read;
pub mod copy_options;
pub mod vfs;
pub mod descriptions;
pub mod naming;
pub mod enum_labels;
pub mod entrypoint;
pub mod helpers;
pub mod batch;
pub mod overloads;
pub mod rust_type;
pub mod signature;
pub mod struct_derive;
pub mod copy_from;
pub mod row_read;
pub mod chunk_model;
