[package]
name = "hedgehog"
version = "0.1.0"
edition = "2021"
publish = false

[dependencies]
dotenv = "0.15"
env_logger = { version = "0.11", default-features = false }
futures = "0.3"
iced = { version = "0.13", default-features = false, features = ["tiny-skia", "tokio"] }
log = "0.4"
reqwest = { version = "0.12", default-features = false, features = ["default-tls", "charset"] }
rusqlite = "0.32"
tokio = { version = "1", features = ["fs", "io-util", "time"] }
