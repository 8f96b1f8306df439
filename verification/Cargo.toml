[package]
name = "vibe_extract_core"
version = "0.1.0"
edition = "2021"
publish = false

[dependencies]
anyhow = "1"
thiserror = "*"
goblin = "*"
serde = { version = "1", features = ["derive"] }
serde_json = "1"
base64 = "*"
plist = "*"
log = "0.4"
env_logger = { version = "*", default-features = false }
clap = { version = "4", features = ["derive"] }
image = { version = "*", default-features = false, features = ["png"] }
tokio = { version = "1", features = ["rt-multi-thread", "macros", "time"] }
futures-util = "0.3"
tokio-tungstenite = "*"
reqwest = { version = "*", default-features = false, features = ["json"] }
