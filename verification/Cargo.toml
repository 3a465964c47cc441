[package]
name = "migration_bot"
version = "0.1.0"
edition = "2021"
publish = false

[dependencies]
hex = "=0.4.3"
blake2 = "=0.10.6"
subxt = "*"
subxt-signer = "*"
tokio = { version = "*", features = ["rt-multi-thread", "macros", "time"] }
tracing = "*"
