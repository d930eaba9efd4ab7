[package]
name = "penvman"
version = "0.1.0"
edition = "2021"
publish = false

[dependencies]
anyhow = "=1.0.104"
bpaf = { version = "=0.9.28", features = ["derive"] }
chrono = { version = "=0.4.45", default-features = false, features = ["std"] }
git2 = { version = "=0.21.0", features = ["https"] }
serde = { version = "=1.0.229", features = ["derive"] }
spinners = "=4.2.0"
toml = "=1.1.8"
