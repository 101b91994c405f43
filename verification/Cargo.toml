[package]
name = "fact_core"
version = "0.1.0"
edition = "2021"
publish = false

[dependencies]
byteorder = "1"
libc = "0.2"
log = "0.4"
env_logger = "*"
anyhow = "1"
serde = { version = "1", features = ["derive"] }
tokio = { version = "1", features = ["macros", "rt-multi-thread"] }
mongodb = "*"

[dev-dependencies]
regex = "1"
