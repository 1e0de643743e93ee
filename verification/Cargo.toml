[package]
name = "face_tracker"
version = "0.1.0"
edition = "2021"
publish = false

[dependencies]
anyhow = "1"
chrono = "0.4"
image = "0.24"
log = "0.4"
nokhwa = "0.10"
once_cell = "1"
parking_lot = "0.12"
reqwest = { version = "0.11", default-features = false }
rustface = "0.1"
serialport = { version = "4", default-features = false }
tokio = { version = "1", features = ["macros", "rt-multi-thread"] }
