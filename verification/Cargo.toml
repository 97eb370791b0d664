[package]
name = "bluetooth-switch"
version = "0.1.0"
edition = "2021"
publish = false

[dependencies]
serde = { version = "1", features = ["derive"] }
serde_json = "1"
clap = { version = "4", features = ["derive"] }
thiserror = "*"
tokio = { version = "1", features = ["rt-multi-thread", "net", "io-util"] }
tracing = "0.1"
tracing-subscriber = { version = "0.3", features = ["env-filter"] }
eframe = { version = "0.29", default-features = false, features = ["default_fonts", "glow", "x11"] }
