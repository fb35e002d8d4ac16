[package]
name = "hickory_dns"
version = "0.1.0"
edition = "2021"
publish = false

[dependencies]
clap = { version = "=4.6.7", features = ["derive"] }
hex = "=0.4.3"
hostname = "=0.4.2"
ipnet = { version = "=2.12.2", features = ["serde"] }
libc = "=0.2.191"
metrics-process = "*"
rustls = { version = "=0.23.46", default-features = false, features = ["std"] }
sd-notify = "=0.5.0"
serde = { version = "=1.0.229", features = ["derive"] }
socket2 = { version = "=0.6.5", features = ["all"] }
thiserror = "=2.0.21"
tokio = { version = "=1.54.1", features = ["net", "rt", "signal", "time"] }
toml = "=1.1.8"
tracing = "=0.1.44"
