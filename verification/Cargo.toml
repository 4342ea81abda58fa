[package]
name = "tistow"
version = "0.1.0"
edition = "2021"
publish = false

[dependencies]
anyhow = "=1.0.104"
arboard = { version = "=2.1.1", default-features = false }
device_query = "=1.0.0"
directories = "=4.0.1"
eframe = "=0.19.0"
egui = "=0.19.0"
figment = { version = "=0.10.19", features = ["toml"] }
fuzzy-matcher = "=0.3.7"
meval = "=0.2.0"
mlua = { version = "=0.8.10", features = ["lua54", "vendored"] }
open = "=3.2.0"
serde = { version = "=1.0.229", features = ["derive"] }
shellexpand = "=2.1.2"
toml = "=0.5.11"
walkdir = "=2.5.0"
