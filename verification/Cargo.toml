[package]
name = "keygen_rs"
version = "0.1.0"
edition = "2021"
publish = false

[dependencies]
aes-gcm = "0.10"
base64 = "0.22"
chrono = { version = "0.4", default-features = false, features = ["clock", "serde", "std"] }
ed25519-dalek = "2"
hex = "0.4"
sha2 = "0.10"
subtle = "2"
zeroize = { version = "1", features = ["derive"] }
serde = { version = "1", features = ["derive"] }
serde_json = "1"
serde_urlencoded = "0.7"
url = "2"
thiserror = "1"
lazy_static = "1"
reqwest = { version = "0.12", default-features = false, features = ["json"] }
hostname = "0.4"
num_cpus = "1"
futures = "0.3"
futures-timer = "3"
