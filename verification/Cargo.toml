[package]
name = "duckfn"
version = "0.1.0"
edition = "2021"
publish = false

[dependencies]
quack-rs = { version = "=0.18.0", features = ["duckdb-1-5"] }
libduckdb-sys = { version = "=1.20000.1", features = ["loadable-extension"] }
csv = "=1.4.0"
clap = { version = "=4.6.7", features = ["derive"] }
itertools = "=0.15.0"
inventory = "=0.3.25"
syn = "=2.0.119"
