[package]
name = "crab_trap"
version = "0.1.0"
edition = "2021"
publish = false

[dependencies]
async-stream = "0.3"
dirs = "5"
futures-core = "0.3"
futures-util = "0.3"
rustyline = "12"
rustyline-derive = "0.9"
sha256 = "1"
termion = "2"
tokio = { version = "1", features = ["full"] }
tokio-util = "0.7"
