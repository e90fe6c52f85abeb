[package]
name = "async_mqueue"
version = "0.1.0"
edition = "2021"
publish = false

[dependencies]
nix = { version = "*", features = ["mqueue", "fs"] }
tokio = { version = "1", features = ["net", "rt", "macros", "time"] }
futures = "0.3"
