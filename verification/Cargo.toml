[package]
name = "google_tts_api"
version = "0.1.0"
edition = "2021"
publish = false

[dependencies]
async-trait = "0.1"
base64 = "0.21"
jsonwebtoken = "9"
reqwest = { version = "0.11", default-features = false, features = ["json", "rustls-tls"] }
serde = { version = "1", features = ["derive"] }
serde_json = "1"
songbird = { version = "0.4", default-features = false, features = ["driver", "rustls"] }
symphonia = { version = "0.5", default-features = false }
tokio = { version = "1", features = ["rt", "macros"] }
