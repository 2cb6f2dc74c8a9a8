[package]
name = "ticket_actor"
version = "0.1.0"
edition = "2021"
publish = false

[dependencies]
async-channel = "=2.5.0"
oneshot = { version = "=0.2.1", features = ["std"] }
serde = { version = "=1.0.229", features = ["derive"] }
time = { version = "=0.3.55", features = ["parsing"] }
argon2 = "=0.6.0"
rand_chacha = "=0.10.0"
