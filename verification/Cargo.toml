[package]
name = "typedb_go_ffi"
version = "0.1.0"
edition = "2021"
publish = false

[dependencies]
rmp-serde = "=1.3.1"
serde_json = { version = "=1.0.154", features = ["preserve_order"] }
tokio = { version = "=1.54.1", features = ["rt-multi-thread"] }
typedb-driver = { version = "=3.5.5", features = ["sync"] }
