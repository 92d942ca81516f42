[package]
name = "connie"
version = "0.1.0"
edition = "2021"
publish = false

[dependencies]
tokio = { version = "1", features = ["full"] }
tokio-rustls = "0.26"
rustls = "0.23"
webpki-roots = "0.26"
bincode = "1"
serde = { version = "1", features = ["derive"] }
ratatui = "0.29"
uuid = { version = "1", features = ["v4", "serde"] }
directories = "5"
once_cell = "1"
log = "0.4"
local-ip-address = "0.6"
rcgen = "0.13"
