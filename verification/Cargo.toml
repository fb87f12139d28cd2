[package]
name = "poideck"
version = "0.1.0"
edition = "2021"
publish = false

[dependencies]
anyhow = "=1.0.104"
askama = "=0.12.1"
chrono = "=0.4.45"
configparser = { version = "=3.3.0", features = ["indexmap"] }
interfaces = "=0.0.9"
rusttype = "=0.9.3"
sqlite = "=0.37.4"
streamdeck = { version = "=0.8.0", default-features = false }
unbounded-gpsd = "=0.6.0"
