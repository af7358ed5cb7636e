[package]
name = "rafx_renderer"
version = "0.1.0"
edition = "2021"
publish = false

[dependencies]
uuid = { version = "*", features = ["v4"] }
ash = "*"
bincode = "1"
serde = { version = "*", features = ["derive"] }
crossbeam-channel = "*"
log = "*"
type-uuid = "*"
distill = "*"
legion = "*"
profiling = "*"
