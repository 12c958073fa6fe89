[package]
name = "jormungandr"
version = "0.1.0"
edition = "2021"
publish = false

[dependencies]
tokio = { version = "1", features = ["rt-multi-thread", "sync", "time", "signal", "macros"] }
tokio-util = "0.6"
futures = "0.3"
tracing = "0.1"
structopt = "0.3"
async-graphql = "2"
