[package]
name = "the_bridge"
version = "0.1.0"
edition = "2021"
publish = false

[dependencies]
ed25519-dalek = { version = "=2.2.0", features = ["rand_core"] }
rand_core = { version = "=0.6.4", features = ["getrandom"] }
rand = "=0.8.8"
sha2 = "=0.10.9"
hex = "=0.4.3"
bincode = "=1.3.3"
chrono = "=0.4.45"
serde = { version = "=1.0.229", features = ["derive"] }
serde_json = "=1.0.154"
thiserror = "=1.0.69"
parking_lot = "=0.12.5"
crossbeam = "=0.8.5"
uuid = { version = "=1.29.0", features = ["v4", "serde"] }
compact_str = { version = "=0.7.1", features = ["serde"] }
dashmap = "=5.5.3"
once_cell = "=1.21.4"
tracing = "=0.1.44"
md5 = "=0.7.0"
hmac = "=0.12.1"
aes-gcm = "=0.10.3"
x25519-dalek = { version = "=2.0.1", features = ["static_secrets"] }
libc = "=0.2.191"
tokio = { version = "=1.54.1", features = ["full"] }
futures = "=0.3.34"
anyhow = "=1.0.104"
reqwest = { version = "0.12", default-features = false, features = ["json"] }
