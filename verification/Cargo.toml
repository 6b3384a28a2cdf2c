[package]
name = "synctui"
version = "0.1.0"
edition = "2021"
publish = false

[dependencies]
tokio = { version = "*", features = ["rt-multi-thread", "macros", "sync", "time"] }
reqwest = { version = "*", default-features = false, features = ["json"] }
serde = { version = "*", features = ["derive"] }
serde_json = "*"
ratatui = "*"
crossterm = { version = "*", features = ["event-stream"] }
clap = { version = "*", features = ["derive"] }
dirs = "*"
toml = "*"
log = "*"
env_logger = "*"
futures = "*"
qrcode = { version = "*", default-features = false }
tui-qrcode = "*"
