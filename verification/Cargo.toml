[package]
name = "video_matrix"
version = "0.1.0"
edition = "2021"
publish = false

[dependencies]
anyhow = "=1.0.104"
chrono = "=0.4.45"
filetime = "=0.2.29"
rand = "=0.8.8"
rayon = "=1.12.0"
reqwest = { version = "0.12", default-features = false, features = ["json", "rustls-tls"] }
serde = { version = "=1.0.229", features = ["derive"] }
serde_json = "=1.0.154"
tokio = { version = "1", features = ["rt-multi-thread"] }
uuid = { version = "=1.29.0", features = ["v4"] }
