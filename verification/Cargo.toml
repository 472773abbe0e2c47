[package]
name = "hald"
version = "0.1.0"
edition = "2021"
publish = false

[dependencies]
indexmap = "=2.14.2"
serde_json = "=1.0.151"
uuid = { version = "=1.27.0", features = ["v4"] }
tokio = { version = "=1.53.2", features = ["rt-multi-thread", "macros", "signal", "time", "net", "io-util", "sync", "process", "fs"] }
zeromq = "=0.6.0"
hyper = { version = "=1.12.0", features = ["server", "http1"] }
hyper-util = { version = "=0.1.21", features = ["server", "server-auto", "tokio"] }
log = "*"
env_logger = "*"
clap = { version = "*", features = ["derive"] }
serde = { version = "*", features = ["derive"] }
prost = "=0.14.4"
reqwest = { version = "=0.13.5", default-features = false }
ahrs = "=0.8.0"
nalgebra = "=0.34.2"
once_cell = "*"
chrono = "*"
