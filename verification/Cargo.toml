[package]
name = "hint-control"
version = "0.1.0"
edition = "2021"
publish = false

[dependencies]
gtk4 = "*"
qrcode = { version = "0.14", default-features = false }
reqwest = { version = "0.12", default-features = false, features = ["cookies", "json"] }
serde = { version = "1", features = ["derive"] }
serde_json = "1"
tokio = { version = "1", features = ["rt-multi-thread", "sync", "time"] }
