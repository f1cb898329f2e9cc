[package]
name = "presence_poller"
version = "0.1.0"
edition = "2021"
publish = false

[dependencies]
serde_json = "1"
serde = { version = "1", features = ["derive"] }
tokio = { version = "1", features = ["macros", "rt-multi-thread", "signal", "time"] }
config = { version = "*", default-features = false, features = ["json"] }
paho-mqtt = "*"
