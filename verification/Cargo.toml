[package]
name = "rustui"
version = "0.1.0"
edition = "2021"
publish = false

[dependencies]
aes-gcm = "0.10"
sha2 = "0.10"
base64 = "0.21"
rand = "0.8"
hex = "0.4"
serde = { version = "1", features = ["derive"] }
serde_json = "1"
tokio = { version = "1", features = ["full"] }
tokio-tungstenite = "0.21"
futures-util = "0.3"
crossterm = "0.25"
tui = { version = "0.19", default-features = false, features = ["crossterm"] }
rusqlite = { version = "0.29", features = ["bundled"] }
dirs = "5"
