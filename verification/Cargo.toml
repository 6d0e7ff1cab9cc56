[package]
name = "jobworkerp_conductor"
version = "0.1.0"
edition = "2021"
publish = false

[dependencies]
regex = "=1.13.1"
url = "=2.5.8"
serde = { version = "=1.0.229", features = ["derive"] }
serde_json = "=1.0.154"
toml = "=0.8.23"
chrono-tz = "=0.10.4"
anyhow = "=1.0.104"
clap = { version = "=4.6.7", features = ["derive", "env"] }
