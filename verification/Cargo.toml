[package]
name = "discord_notify"
version = "0.1.0"
edition = "2021"
publish = false

[dependencies]
dotenv = "*"
prettytable-rs = "*"
reqwest = { version = "*", default-features = false, features = ["json"] }
serde_json = "*"
tokio = { version = "*", features = ["macros", "rt-multi-thread"] }
