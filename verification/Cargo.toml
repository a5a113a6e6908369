[package]
name = "miden_transfer"
version = "0.1.0"
edition = "2021"
publish = false

[dependencies]
miden-crypto = "=0.24.0"
rand = "=0.9.5"
tokio = { version = "=1.53.2", features = ["macros", "rt-multi-thread", "time"] }
