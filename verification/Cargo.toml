[package]
name = "vote_handler"
version = "0.1.0"
edition = "2021"
publish = false

[dependencies]
serde_json = "1"
serde = { version = "1", features = ["derive"] }
tokio = { version = "1", features = ["macros", "rt-multi-thread", "sync", "time"] }
warp = { version = "0.3", default-features = false }
reqwest = { version = "0.11", default-features = false }
jwt = "0.16"
hmac = "0.12"
sha2 = "0.10"
log = "0.4"
env_logger = "0.10"
