[package]
name = "quack_pprof"
version = "0.1.0"
edition = "2021"
publish = false

[dependencies]
duckdb = { version = "=1.1.1", features = ["vtab-loadable"] }
duckdb-loadable-macros = "=0.1.3"
lazy_static = "1.4"
libduckdb-sys = { version = "=1.1.1", features = ["loadable-extension"] }
pprof = { version = "0.14", features = ["prost-codec"] }
