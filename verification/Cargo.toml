[package]
name = "entanglo"
version = "0.1.0"
edition = "2021"
publish = false

[dependencies]
anyhow = "1"
async-channel = "2"
base64 = "0.22"
bytes = "1"
evdev = { version = "0.12", features = ["tokio"] }
futures = "0.3"
glib = "0.20"
gtk4 = "0.9"
hex = "0.4"
libadwaita = "0.7"
mdns-sd = "0.11"
serde = { version = "1", features = ["derive"] }
serde_json = "1"
sha2 = "0.10"
thiserror = "1"
tokio = { version = "1", features = ["full"] }
tokio-util = { version = "0.7", features = ["codec"] }
tracing = "0.1"
tracing-subscriber = { version = "0.3", features = ["env-filter"] }
uuid = { version = "1", features = ["v4"] }
x11rb = "0.13"
