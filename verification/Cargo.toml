[package]
name = "igloo_kit"
version = "0.1.0"
edition = "2021"
publish = false

[dependencies]
log = "*"
serde = { version = "*", features = ["derive"] }
serde_json = "*"
toml = "*"
clap = { version = "*", features = ["derive"] }
console = "*"
fern = "*"
humantime = "*"
lazy_static = "*"
uuid = { version = "*", features = ["v4"] }
tokio = { version = "*", features = ["full"] }
hyper = { version = "*", features = ["full"] }
hyper-util = { version = "*", features = ["full"] }
http-body-util = "*"
rdkafka = "*"
