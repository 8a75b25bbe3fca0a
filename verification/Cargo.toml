[package]
name = "matchmaker"
version = "0.1.0"
edition = "2021"
publish = false

[dependencies]
borsh = "0.9"
libc = "0.2"
libloading = "0.7"
tendermint-config = "*"
tokio = { version = "1", features = ["sync", "rt", "rt-multi-thread", "macros"] }
tracing = "0.1"
