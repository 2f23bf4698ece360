[package]
name = "teleprobe"
version = "1.0.0"
edition = "2021"
publish = false

[dependencies]
anyhow = "1"
backtrace = "0.3"
bytes = "1"
chrono = { version = "0.4", features = ["serde"] }
clap = { version = "4", features = ["derive", "env"] }
defmt-decoder = "*"
env_logger = "0.10"
futures = "0.3"
hex = "0.4"
jsonwebtoken = "9"
libc = "0.2"
log = "0.4"
nusb = "*"
object = "*"
orion = "*"
parking_lot = "0.12"
pin-project-lite = "0.2"
pretty_env_logger = "0.5"
probe-rs = "*"
probe-rs-debug = "*"
reqwest = { version = "0.12", default-features = false, features = ["json"] }
serde = { version = "1", features = ["derive"] }
serde_json = "1"
serde_yaml = "0.9"
tokio = { version = "1", features = ["rt", "macros", "sync", "time"] }
walkdir = "2"
warp = "0.3"
