[package]
name = "datagen"
version = "0.1.0"
edition = "2021"
publish = false

[dependencies]
rand = "0.8"
rand_chacha = "0.3"
uuid = { version = "1", features = ["v5"] }
chrono = "0.4"
base64 = "0.22"
flate2 = "1"
serde_json = "1"
anyhow = "1"
clap = { version = "4", features = ["derive"] }
tokio = { version = "1", features = ["full"] }
reqwest = { version = "0.12", default-features = false, features = ["gzip"] }
