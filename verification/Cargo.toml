[package]
name = "codex_core"
version = "0.1.0"
edition = "2021"
publish = false

[dependencies]
anyhow = "1"
async-channel = "2"
async-trait = "0.1"
bytes = "1"
chrono = "0.4"
eventsource-stream = "0.2"
futures = "0.3"
libc = "0.2"
rand = "0.9"
regex-lite = "0.1"
reqwest = { version = "0.12", default-features = false, features = ["json", "stream"] }
serde = { version = "1", features = ["derive"] }
serde_json = "1"
sha1 = "0.10"
shlex = "1"
thiserror = "2"
tokio = { version = "1", features = ["fs", "io-util", "macros", "process", "rt-multi-thread", "signal", "sync", "time"] }
tokio-util = "0.7"
toml = "0.9"
tracing = "0.1"
uuid = { version = "1", features = ["v4"] }
which = "6"
