[package]
name = "sql_peas"
version = "0.1.0"
edition = "2021"
publish = false

[dependencies]
sqlite3-sys = { version = "0.17", default-features = false }
