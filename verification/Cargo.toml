[package]
name = "rnoteformat"
version = "0.1.0"
edition = "2021"
publish = false

[dependencies]
serde = { version = "*", features = ["derive"] }
serde_json = "*"
zstd = "*"
flate2 = "*"
rand = "*"
rand_pcg = "*"
