[package]
name = "smpsc"
version = "0.1.0"
edition = "2021"
publish = false

[dependencies]
async-sink = "=0.3.1"
tokio = { version = "=1.54.1", features = ["sync", "time"] }
tokio-stream = "=0.1.19"

[dev-dependencies]
futures-test = "=0.3.34"
futures-util = "=0.3.34"
tokio = { version = "=1.54.1", features = ["rt"] }
