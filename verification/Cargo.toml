[package]
name = "file_store"
version = "0.1.0"
edition = "2021"
publish = false

[dependencies]
uuid = { version = "=1.27.0", features = ["v4"] }
warp = { version = "=0.4.3", features = ["multipart", "server"] }
tokio = { version = "*", features = ["macros", "rt-multi-thread", "fs"] }
reqwest = { version = "*", default-features = false, features = ["blocking"] }
structopt = "*"
futures = "*"
bytes = "*"
tokio-stream = "*"
log = "*"
env_logger = "*"
