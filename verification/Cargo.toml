[package]
name = "chain_kv"
version = "0.1.0"
edition = "2021"
publish = false

[dependencies]
envy = "0.4"
pretty_env_logger = "0.5"
prost = "0.13"
serde = { version = "1", features = ["derive"] }
sled = "0.34"
tokio = { version = "1", features = ["macros", "rt-multi-thread"] }
tonic = "0.12"
