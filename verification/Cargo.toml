[package]
name = "rcon_client"
version = "0.1.0"
edition = "2021"
publish = false

[dependencies]
rand = "0.9"
tokio = { version = "1", features = ["net", "io-util", "sync"] }
serde = { version = "1", features = ["derive"] }
thiserror = "2"
rocket = { version = "0.5", features = ["json"] }
utoipa = { version = "5", features = ["rocket_extras"] }
dotenvy = "0.15"
