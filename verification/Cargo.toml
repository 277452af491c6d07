[package]
name = "batadase"
version = "0.1.0"
edition = "2021"
publish = false

[dependencies]
libc = "0.2"
lmdb-sys = "*"
rkyv = "0.8"
thiserror = "*"
tokio = { version = "1", features = ["rt", "rt-multi-thread", "sync"] }
tracing = "0.1"
