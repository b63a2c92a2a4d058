[package]
name = "rift-wm"
version = "0.1.0"
edition = "2021"
publish = false

[dependencies]
clap = { version = "4", features = ["derive"] }
objc2-core-foundation = "*"
serde = { version = "1", features = ["derive"] }
serde_json = "1"
sigpipe = "*"
tokio = { version = "1", features = ["macros", "rt", "sync"] }
tracing = "0.1"
