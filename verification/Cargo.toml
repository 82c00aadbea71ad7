[package]
name = "lights"
version = "0.1.0"
edition = "2021"
publish = false

[dependencies]
chrono = "0.4"
hex = "0.4"
hmac = "0.12"
sha2 = "0.10"
palette = { version = "0.7", features = ["named_from_str"] }
serde = { version = "1", features = ["derive"] }
serde_json = "1"
toml = "0.8"
reqwest = { version = "0.12", default-features = false, features = ["json", "rustls-tls"] }
tokio = { version = "1", features = ["macros", "rt-multi-thread"] }
twitch_eventsub = "*"
phf = { version = "0.11", features = ["macros"] }
