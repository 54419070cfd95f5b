[package]
name = "tcp_relay"
version = "0.1.0"
edition = "2021"
publish = false

[dependencies]
clap = { version = "3", features = ["derive"] }
futures = "0.3"
tokio = { version = "1", features = ["full"] }
warp = "0.3"
