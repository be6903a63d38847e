[package]
name = "salus"
version = "0.1.0"
edition = "2021"
publish = false

[dependencies]
anyhow = "=1.0.104"
aws-lc-rs = "=1.18.2"
clap = { version = "=4.6.7", features = ["derive"] }
config = { version = "=0.15.27", default-features = false, features = ["toml"] }
crossterm = "*"
dirs2 = "=3.0.1"
interprocess = { version = "=2.4.7", features = ["tokio"] }
redb = "=4.4.0"
scanpw = "*"
serde = { version = "=1.0.229", features = ["derive"] }
ssss = "=1.0.6"
thiserror = "=2.0.21"
tokio = { version = "=1.54.1", features = ["io-util", "macros", "rt-multi-thread", "sync", "time"] }
tracing = "=0.1.44"
tracing-subscriber = { version = "=0.3.23", features = ["env-filter", "time"] }
tracing-subscriber-init = { version = "=0.2.7", features = ["tstime"] }

[dev-dependencies]
bincode = "=2.0.1"
rand = "=0.10.3"
