[package]
name = "flags"
version = "0.1.0"
edition = "2021"
publish = false

[dependencies]
clap = { version = "4", features = ["derive"] }
console-subscriber = "0.4"
eyre = "0.6"
futures = "0.3"
local-ip-address = "0.6"
mdns-sd = "0.13"
reqwest = { version = "0.12", default-features = false, features = ["http2"] }
serde = { version = "1", features = ["derive"] }
tokio = { version = "1", features = ["full"] }
tokio-util = "0.7"
tracing = "0.1"
tracing-subscriber = { version = "0.3", features = ["env-filter"] }
uuid = { version = "1", features = ["v4"] }
