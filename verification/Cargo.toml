[package]
name = "dawfu"
version = "0.1.0"
edition = "2021"
publish = false

[dependencies]
btleplug = "*"
tokio = { version = "*", features = ["macros", "rt-multi-thread", "time"] }
tokio-stream = "*"
uuid = "*"
pretty_env_logger = "*"
