[package]
name = "rusty_claw"
version = "0.1.0"
edition = "2021"
publish = false

[dependencies]
async-trait = "0.1"
nix = { version = "*", features = ["signal"] }
semver = "1"
serde = { version = "1", features = ["derive"] }
serde_json = "1"
thiserror = "1"
tokio = { version = "1", features = ["rt", "process", "io-util", "sync", "time"] }
tokio-stream = "0.1"
tracing = "0.1"
uuid = { version = "1", features = ["v4"] }
