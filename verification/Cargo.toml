[package]
name = "atag_one"
version = "0.1.0"
edition = "2021"
publish = false

[dependencies]
serde_json = { version = "*", features = ["arbitrary_precision"] }
reqwest = { version = "*", default-features = false }
tokio = { version = "*", features = ["rt-multi-thread", "macros", "time"] }
