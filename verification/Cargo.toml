[package]
name = "dd2_height_alarm"
version = "0.1.0"
edition = "2021"
publish = false

[dependencies]
rand = "0.8"
serde = { version = "1", features = ["derive"] }
serde_json = "1"
egui = "0.27"
reqwest = { version = "0.12", default-features = false, features = ["blocking", "json"] }
simple-easing = "1"
lazy_static = "1"
log = "0.4"
env_logger = { version = "0.11", default-features = false }
