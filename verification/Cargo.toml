[package]
name = "web_pty"
version = "0.1.0"
edition = "2021"
publish = false

[dependencies]
actix = "=0.13.5"
actix-web = { version = "=4.18.1", default-features = false, features = ["macros", "ws"] }
actix-web-actors = "=4.3.1"
async-stream = "=0.3.6"
env_logger = "=0.10.2"
futures = "=0.3.34"
futures-util = "=0.3.34"
libc = "=0.2.191"
log = "=0.4.35"
mime_guess = "=2.0.5"
pty-process = { version = "=0.4.0", features = ["async"] }
regex = "=1.13.1"
rust-embed = { version = "=8.13.0", features = ["interpolate-folder-path"] }
serde_json = "=1.0.154"
tokio = { version = "=1.54.1", features = ["full"] }
tokio-stream = { version = "=0.1.19", features = ["io-util"] }
tokio-util = { version = "=0.7.20", features = ["io"] }
