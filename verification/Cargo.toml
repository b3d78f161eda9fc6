[package]
name = "npc_imager"
version = "0.1.0"
edition = "2021"
publish = false

[dependencies]
tl = "*"
reqwest = { version = "*", default-features = false }
tokio = { version = "*", features = ["macros", "rt-multi-thread", "fs", "io-util"] }
futures = "*"
serde = { version = "*", features = ["derive"] }
serde_json = "*"

[dev-dependencies]
urlencoding = "*"
