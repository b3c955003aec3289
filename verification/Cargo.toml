[package]
name = "pdfsign"
version = "0.1.0"
edition = "2021"
publish = false

[dependencies]
anyhow = "*"
chrono = "*"
clap = { version = "*", features = ["derive"] }
lopdf = "*"
p256 = "*"
rand_core = { version = "0.6", features = ["getrandom"] }
sha2 = "*"
