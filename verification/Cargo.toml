[package]
name = "ceresdb_client"
version = "0.1.0"
edition = "2021"
publish = false

[dependencies]
tonic = "=0.8.3"
ceresdbproto = "=1.0.23"
tokio = { version = "=1.53.2", features = ["rt", "sync", "macros", "rt-multi-thread"] }
async-trait = "=0.1.92"
