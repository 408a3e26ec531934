[package]
name = "cmux_linux"
version = "0.1.0"
edition = "2021"
publish = false

[dependencies]
base64 = "0.22"
libc = "0.2"
parking_lot = "0.12"
serde = { version = "1", features = ["derive"] }
serde_json = "1"
toml = "0.8"
uuid = { version = "1", features = ["v4", "serde"] }
gtk4 = { version = "0.9", features = ["v4_10"] }
libadwaita = { version = "0.7", features = ["v1_4"] }
vte4 = "0.8"
