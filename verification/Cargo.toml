[package]
name = "package_room"
version = "0.1.0"
edition = "2021"
publish = false

[dependencies]
sha2 = "0.10"
chrono = "0.4"
pcsc = "2"
rusqlite = "*"
slint = { version = "1", default-features = false, features = ["std", "compat-1-2"] }
