[package]
name = "approxy"
version = "0.1.0"
edition = "2021"
publish = false

[dependencies]
argh = "0.1"
reqwest = "0.11"
tokio = { version = "1", features = ["macros", "rt-multi-thread"] }
warp = "0.3"
