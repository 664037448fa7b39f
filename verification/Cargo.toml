[package]
name = "openhanse"
version = "0.1.0"
edition = "2021"
publish = false

[dependencies]
uuid = { version = "=1.29.0", features = ["v4", "serde"] }
serde = { version = "=1.0.229", features = ["derive"] }
serde_json = "=1.0.154"
tokio = { version = "=1.54.1", features = ["rt-multi-thread", "macros", "net", "sync", "time", "io-std", "io-util", "signal"] }
axum = "=0.8.9"
reqwest = { version = "=0.12.28", default-features = false, features = ["json"] }
tower-http = { version = "=0.6.11", features = ["trace", "cors"] }
tracing = "=0.1.44"
eframe = { version = "0.31", default-features = false, features = ["glow", "x11", "default_fonts"] }
portable-pty = "0.9"
