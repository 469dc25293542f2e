[package]
name = "twitch_discord_bot"
version = "0.1.0"
edition = "2021"
publish = false

[dependencies]
rand = "0.8"
serde = { version = "1", features = ["derive"] }
serde_json = "1"
tungstenite = { version = "*", features = ["native-tls"] }
native-tls = "*"
notify-rust = "*"
config = "*"
log = "*"
simplelog = "*"
