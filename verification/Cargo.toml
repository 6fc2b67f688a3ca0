[package]
name = "password_manager"
version = "0.1.0"
edition = "2021"
publish = false

[dependencies]
iced = { version = "=0.14.0", default-features = false, features = ["tiny-skia", "x11", "smol"] }
rusqlite = { version = "=0.41.1", features = ["bundled"] }
totp-rs = "=5.7.2"
uuid = { version = "=1.29.1", features = ["v4"] }
