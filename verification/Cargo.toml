[package]
name = "vimium-linux"
version = "0.1.0"
edition = "2021"
publish = false

[dependencies]
anyhow = "1"
atspi = "0.19"
clap = { version = "4", features = ["derive"] }
dirs = "5"
serde = { version = "1", features = ["derive"] }
smithay-client-toolkit = "0.18"
tokio = { version = "1", features = ["full"] }
toml = "0.8"
tracing = "0.1"
tracing-subscriber = { version = "0.3", features = ["env-filter"] }
wayland-client = "0.31"
zbus = "3"
