[package]
name = "game_night"
version = "0.1.0"
edition = "2021"
publish = false

[dependencies]
rand = "0.9"
itertools = "0.14"
url = "2"
time = { version = "0.3", features = ["macros", "formatting", "parsing"] }
time-tz = "2"
email_address = "0.2"
base64 = "0.22"
pem-rfc7468 = { version = "0.7", features = ["alloc"] }
serde = { version = "1", features = ["derive"] }
serde_json = "1"
