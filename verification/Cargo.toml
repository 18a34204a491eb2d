[package]
name = "kucheat"
version = "0.1.0"
edition = "2021"
publish = false

[dependencies]
anyhow = "1"
auto-launch = "*"
chrono = { version = "0.4", features = ["serde"] }
clap = { version = "4", features = ["derive"] }
dirs = "*"
image = { version = "*", default-features = false, features = ["png"] }
ksni = "0.3"
notify-rust = "4"
open = "5"
reqwest = { version = "0.12", default-features = false, features = ["rustls-tls"] }
serde = { version = "1", features = ["derive"] }
serde_json = "1"
tokio = { version = "1", features = ["rt-multi-thread", "macros", "time", "sync"] }
toml = "*"
tracing = "0.1"
tracing-subscriber = { version = "0.3", features = ["env-filter"] }
