[package]
name = "tmkms"
version = "0.1.0"
edition = "2021"
publish = false

[dependencies]
abscissa_core = "0.8"
clap = { version = "4", features = ["derive"] }
serde = { version = "1", features = ["derive"] }
serde_json = "1"
tokio = { version = "1", features = ["macros", "net", "rt-multi-thread", "time"] }
toml = "0.8"
warp = "0.3"
