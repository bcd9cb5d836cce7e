[package]
name = "binance_api"
version = "0.1.0"
edition = "2021"
publish = false

[dependencies]
chrono = "=0.4.45"
hex = "=0.4.3"
hmac = "=0.13.0"
reqwest = { version = "=0.13.5", default-features = false, features = ["query"] }
serde_json = "=1.0.151"
sha2 = "=0.11.0"
tokio = { version = "=1.53.2", features = ["macros", "rt-multi-thread"] }
tungstenite = "=0.30.0"
url = "=2.5.8"
