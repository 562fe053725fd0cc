[package]
name = "rust-web-test"
version = "0.1.0"
edition = "2021"
publish = false

[dependencies]
clap = { version = "=4.6.7", features = ["derive"] }
colored = "=2.2.0"
reqwest = "=0.12.28"
tokio = { version = "=1.54.1", features = ["io-util", "macros", "net", "rt-multi-thread", "time"] }

[dev-dependencies]
http = "=1.5.0"
