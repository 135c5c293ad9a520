[package]
name = "ft_vr"
version = "0.1.0"
edition = "2021"
publish = false

[dependencies]
pub-sub = "=2.0.0"
serialport = { version = "*", default-features = false }
tokio = { version = "=1.53.2", features = ["rt-multi-thread", "time", "macros"] }
serde = { version = "=1.0.229", features = ["derive"] }
ron = "=0.12.2"
