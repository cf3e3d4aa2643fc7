[package]
name = "karate_cli"
version = "0.1.0"
edition = "2021"
publish = false

[dependencies]
anyhow = "*"
cfg-if = "*"
clap = { version = "*", features = ["derive", "env"] }
console = "*"
dirs = "*"
flate2 = "*"
futures-util = "*"
hex = "*"
indicatif = "*"
reqwest = { version = "*", default-features = false, features = ["rustls-tls", "json", "stream"] }
serde = { version = "*", features = ["derive"] }
serde_json = "*"
sha2 = "*"
tar = "*"
thiserror = "*"
tokio = { version = "*", features = ["full"] }
tracing-subscriber = { version = "*", features = ["env-filter"] }
zip = "*"
