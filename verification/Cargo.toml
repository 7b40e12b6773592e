[package]
name = "pori"
version = "0.1.0"
edition = "2021"
publish = false

[dependencies]
url = "=2.5.8"
tokio = { version = "=1.53.2", features = ["rt-multi-thread", "macros", "sync", "time", "signal"] }
anyhow = "=1.0.104"
tracing = "=0.1.44"
ureq = { version = "2", default-features = false }
