[package]
name = "tessera"
version = "0.1.0"
edition = "2021"
publish = false

[dependencies]
actix-web = "4"
argon2 = "0.5"
chrono = "0.4"
config = "0.14"
rand = "0.8"
serde = { version = "1", features = ["derive"] }
unicode-segmentation = "1"
uuid = { version = "1", features = ["v4"] }
