[package]
name = "riichi_dataset"
version = "0.1.0"
edition = "2021"
publish = false

[dependencies]
boomphf = "*"
flate2 = "*"
rayon = "*"
serde = { version = "*", features = ["derive"] }
serde_json = "*"
anyhow = "*"
