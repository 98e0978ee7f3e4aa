[package]
name = "birdie"
version = "0.1.0"
edition = "2021"
publish = false

[dependencies]
url = "=2.5.8"
serde = { version = "=1.0.229", features = ["derive"] }
chrono = "=0.4.45"
tokio = { version = "=1.54.1", features = ["full"] }
reqwest = { version = "=0.13.5", features = ["json"] }
arboard = "=3.7.0"
chromiumoxide = "=0.9.1"
zbus = "=6.1.0"
futures = "=0.3.34"
