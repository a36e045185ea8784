[package]
name = "zerofs"
version = "0.1.0"
edition = "2021"
publish = false

[dependencies]
anyhow = "1"
async-trait = "0.1"
bincode = "=1.3.3"
bytes = "=1.12.1"
dashmap = "=6.2.1"
fail = "0.5"
futures = "0.3"
libc = "=0.2.191"
rustix = { version = "=1.1.6", features = ["fs", "process"] }
serde = { version = "1", features = ["derive"] }
sha2 = "=0.10.9"
slatedb = { version = "=0.18.0", default-features = false }
thiserror = "2"
tokio = { version = "1", features = ["rt", "macros", "sync", "time"] }
tracing = "0.1"
uuid = { version = "=1.29.0", features = ["v4"] }
zerofs_nfsserve = "=0.19.1"
