[package]
name = "caduceus"
version = "0.1.0"
edition = "2021"
publish = false

[dependencies]
chrono = { version = "=0.4.45", default-features = false, features = ["alloc", "clock", "serde", "std"] }
fs2 = "=0.4.3"
hex = "=0.4.3"
libc = "=0.2.191"
nix = { version = "=0.29.0", features = ["fs", "process", "signal", "time"] }
reqwest = { version = "=0.12.28", default-features = false, features = ["json"] }
rusqlite = { version = "=0.31.0", features = ["bundled"] }
serde = { version = "=1.0.229", features = ["derive"] }
serde_json = "=1.0.154"
serde_yaml = "=0.9.34"
sha2 = "=0.10.9"
tokio = { version = "=1.54.1", features = ["process", "rt", "sync", "time"] }
tracing = "=0.1.44"
url = "=2.5.8"
uuid = { version = "=1.29.0", features = ["v4"] }
which = "=6.0.3"
