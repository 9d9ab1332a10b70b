[package]
name = "pixxiden"
version = "0.1.0"
edition = "2021"
publish = false

[dependencies]
chrono = "*"
serde = { version = "*", features = ["derive"] }
serde_json = "*"
tokio = { version = "*", features = ["rt-multi-thread", "macros", "fs", "io-util", "sync"] }
reqwest = { version = "*", default-features = false, features = ["json"] }
anyhow = "*"
urlencoding = "*"
dirs = "*"
which = "*"
