[package]
name = "keeb_os_probe"
version = "0.1.0"
edition = "2021"
publish = false

[dependencies]
anyhow = "=1.0.104"
dirs = "=7.0.0"
hidapi = { version = "=2.6.7", default-features = false, features = ["linux-native-basic-udev"] }
rusb = "=0.9.4"
serde = { version = "=1.0.229", features = ["derive"] }
toml = "=1.1.8"
