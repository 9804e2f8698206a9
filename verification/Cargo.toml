[package]
name = "utillib"
version = "0.1.0"
edition = "2021"
publish = false

[dependencies]
fast_log = { version = "=1.5.57", features = ["gzip"] }
iced = { version = "=0.8.0", default-features = false, features = ["glow"] }
log = "=0.4.34"
named-lock = "=0.3.0"
native-dialog = "=0.6.4"
serde = { version = "=1.0.229", features = ["derive"] }
serde_json = "=1.0.154"
thiserror = "=1.0.69"
wallpaper = "=3.2.0"
