[package]
name = "geminipocket"
version = "0.1.0"
edition = "2021"
publish = false

[dependencies]
anyhow = "1"
base64 = "0.22"
bcrypt = "0.15"
chrono = "0.4"
clap = { version = "4", features = ["derive", "env"] }
colored = "2"
dirs = "5"
indicatif = "0.17"
reqwest = { version = "0.12", default-features = false, features = ["json"] }
serde = { version = "1", features = ["derive"] }
serde_json = "1"
tokio = { version = "1", features = ["macros", "rt-multi-thread", "time"] }
toml = "0.8"
uuid = { version = "1", features = ["v4"] }
