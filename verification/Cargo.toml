[package]
name = "upsync"
version = "0.1.0"
edition = "2021"
publish = false

[dependencies]
battery = "0.7"
env_logger = "0.11"
glib = "0.20"
gtk4 = "0.9"
log = "0.4"
serde = { version = "1", features = ["derive"] }
serde_json = "1"
ssh2 = "0.9"
tokio = { version = "1", features = ["macros", "net", "rt-multi-thread", "time"] }
