[package]
name = "sov-rollup-manager"
version = "0.1.0"
edition = "2021"
publish = false

[dependencies]
anyhow = "1"
clap = { version = "4", features = ["derive"] }
escargot = "0.5"
nix = { version = "0.30", features = ["signal"] }
rand = "0.9"
reqwest = { version = "0.12", default-features = false, features = ["json"] }
serde = { version = "1", features = ["derive"] }
serde_json = "1"
serde_yaml = "0.9"
signal-hook = "0.3"
thiserror = "2"
tokio = { version = "1", features = ["full"] }
toml = "0.8"
tracing = "0.1"
tracing-subscriber = "0.3"
tungstenite = "0.26"
ureq = { version = "3", default-features = false, features = ["json"] }

[dev-dependencies]
tempfile = "3"
