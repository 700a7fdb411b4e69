[package]
name = "udp_relay"
version = "0.1.0"
edition = "2021"
publish = false

[dependencies]
bytes = "1"
chrono = "0.4"
concurrent-hash-map = "*"
hyper = { version = "0.14", features = ["full"] }
log = "0.4"
log-mdc = "*"
serde = { version = "1", features = ["derive"] }
serde_json = "1"
tokio = { version = "1", features = ["full"] }
ureq = { version = "2", features = ["json"] }
