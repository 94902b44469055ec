[package]
name = "can_to_mqtt"
version = "0.1.0"
edition = "2021"
publish = false

[dependencies]
socketcan = { version = "3", features = ["tokio"] }
prettytable-rs = { version = "0.10", default-features = false }
tokio = { version = "1", features = ["macros", "rt-multi-thread", "time"] }
futures-util = "0.3"
gumdrop = "0.8"
paho-mqtt = { version = "0.12", default-features = false, features = ["bundled"] }
config = { version = "0.14", default-features = false, features = ["toml"] }
