[package]
name = "warp_ships"
version = "0.1.0"
edition = "2021"
publish = false

[dependencies]
serde = { version = "=1.0.229", features = ["derive"] }
serde_json = "*"
bytes = "*"
tokio = { version = "=1.53.2", features = ["macros", "rt-multi-thread"] }
warp = { version = "=0.4.3", features = ["server"] }
log = "=0.4.34"
pretty_env_logger = "=0.5.0"
dotenv = "=0.15.0"
