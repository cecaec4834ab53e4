[package]
name = "galpi"
version = "0.1.0"
edition = "2021"
publish = false

[dependencies]
uuid = { version = "=1.29.0", features = ["v7"] }
serde = { version = "=1.0.229", features = ["derive"] }
serde_json = "=1.0.154"
hound = "=3.5.1"
nix = { version = "=0.30.1", features = ["signal"] }
tokio = { version = "=1.54.1", features = ["fs", "process", "sync", "io-util", "time", "rt", "macros"] }
async-trait = "=0.1.92"
thiserror = "=2.0.21"
cpal = "=0.18.2"
security-framework = "=3.7.0"
libc = "=0.2.191"
