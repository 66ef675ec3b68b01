[package]
name = "fs_watch"
version = "0.1.0"
edition = "2021"
publish = false

[dependencies]
anyhow = "1.0"
futures = "0.3"
log = "0.4"
notify = "=5.0.0-pre.3"
tokio = { version = "0.2", features = ["fs", "rt-core", "stream", "sync", "time"] }
