[package]
name = "stream_session"
version = "0.1.0"
edition = "2021"
publish = false

[dependencies]
roxmltree = "*"
lsl = "*"
tokio = { version = "*", features = ["rt", "rt-multi-thread", "macros", "sync"] }
serde = { version = "*", features = ["derive"] }
