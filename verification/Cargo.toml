[package]
name = "openworkers_runtime"
version = "0.1.0"
edition = "2021"
publish = false

[dependencies]
actix-web = { version = "=4.18.1", default-features = false }
bytes = "=1.12.1"
encoding_rs = "=0.8.44"
flate2 = "=1.1.10"
futures = "=0.3.34"
libc = "=0.2.191"
log = "=0.4.35"
reqwest = { version = "=0.12.28", default-features = false, features = ["stream"] }
ring = "=0.17.14"
serde = { version = "=1.0.229", features = ["derive"] }
serde_json = "=1.0.154"
signal-hook = "=0.3.18"
signal-hook-tokio = { version = "=0.3.1", features = ["futures-v0_3"] }
tokio = { version = "=1.54.1", features = ["sync", "rt", "time", "macros"] }
tokio-stream = "=0.1.19"
tracing = "=0.1.44"
url = "=2.5.8"
urlpattern = "=0.6.0"
uuid = { version = "=1.29.0", features = ["v4"] }
v8 = "=150.4.0"
