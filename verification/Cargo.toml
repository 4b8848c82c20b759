[package]
name = "dgg_embeds"
version = "0.1.0"
edition = "2021"
publish = false

[dependencies]
dotenv = "0.15"
env_logger = "0.9"
futures-channel = "0.3"
futures-util = "0.3"
log = "0.4"
regex = "=1.13.1"
reqwest = { version = "0.11", default-features = false, features = ["json", "rustls-tls"] }
rusqlite = { version = "0.25", features = ["bundled"] }
serde = { version = "1", features = ["derive"] }
serde_json = "1"
tokio = { version = "1", features = ["macros", "rt-multi-thread", "time"] }
tokio-tungstenite = { version = "0.15", features = ["rustls-tls"] }
twitch_api2 = { version = "0.6", features = ["client", "helix", "reqwest", "twitch_oauth2"] }
twitch_oauth2 = "0.6"
url = "=2.5.8"
