[package]
name = "pjlink_rs232_bridge"
version = "0.1.0"
edition = "2021"
publish = false

[dependencies]
clap = { version = "*", features = ["derive"] }
log = "*"
serde = { version = "*", features = ["derive"] }
serialport = { version = "*", default-features = false }
simple_logger = "*"
toml = "*"
uuid = { version = "*", features = ["v4"] }
