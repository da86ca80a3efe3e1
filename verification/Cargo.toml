[package]
name = "hub"
version = "0.1.0"
edition = "2021"
publish = false

[dependencies]
actix-web = { version = "4", default-features = false, features = ["macros"] }
bluer = { version = "*", features = ["bluetoothd"] }
clap = "4"
env_logger = "*"
fs2 = "0.4"
futures = "0.3"
log = "0.4"
reqwest = { version = "*", default-features = false }
serde = { version = "1", features = ["derive"] }
serde_json = "1"
tokio = { version = "1", features = ["full"] }
uuid = "1"
