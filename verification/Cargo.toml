[package]
name = "cube_service"
version = "0.1.0"
edition = "2021"
publish = false

[dependencies]
log = "0.4"
pretty_env_logger = "0.5"
tokio = { version = "1", features = ["macros", "rt-multi-thread", "time"] }
warp = "0.3"
