[package]
name = "pixootop"
version = "0.1.0"
edition = "2021"
publish = false

[dependencies]
chrono = { version = "0.4", features = ["serde"] }
crossbeam = "0.8"
image = { version = "0.25", default-features = false }
pixoo = "*"
bluetooth-serial-port = "*"
actix-web = { version = "4", default-features = false, features = ["macros"] }
amdgpu-sysfs = "*"
anyhow = "1"
env_logger = "0.11"
graceful = "*"
libpulse-binding = "2"
log = "0.4"
pulsectl-rs = "*"
reqwest = { version = "0.12", default-features = false, features = ["blocking", "json"] }
serde = { version = "1", features = ["derive"] }
sysinfo = "*"
tokio = { version = "1", features = ["macros", "rt-multi-thread", "sync", "time", "signal"] }
tokio-util = "0.7"
