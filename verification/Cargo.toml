[package]
name = "ptd_launcher"
version = "0.1.0"
edition = "2021"
publish = false

[dependencies]
chrono = "*"
dirs = "*"
flate2 = "*"
fs_extra = "*"
reqwest = { version = "*", default-features = false, features = ["blocking"] }
serde = { version = "*", features = ["derive"] }
serde_json = "*"
tar = "*"
zip = { version = "*", default-features = false, features = ["deflate"] }
