[package]
name = "tcsp"
version = "0.1.0"
edition = "2021"
publish = false

[dependencies]
crc = "*"
socketcan = { version = "*", features = ["tokio"] }
serialport = { version = "*", default-features = false }
tokio = { version = "*", features = ["rt-multi-thread", "macros", "sync", "time", "fs", "io-util"] }
zeromq = "*"
async-trait = "*"
futures-util = "*"
log = "*"
env_logger = "*"
chrono = "*"
