[package]
name = "sactor"
version = "0.1.0"
edition = "2021"
publish = false

[dependencies]
anyhow = "1"
futures = "0.3"
proc-macro2 = "1"
quote = "1"
syn = { version = "2", features = ["full"] }
tokio = { version = "1", features = ["macros", "rt", "sync", "time"] }
