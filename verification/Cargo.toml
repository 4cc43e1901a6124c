[package]
name = "rtr_unit"
version = "0.1.0"
edition = "2021"
publish = false

[dependencies]
rpki-rtr = "=0.2.1"
tokio = { version = "=0.2.25", features = ["tcp", "time", "dns"] }
futures = "=0.3.34"
serde = { version = "=1.0.229", features = ["derive"] }
log = "=0.4.34"
