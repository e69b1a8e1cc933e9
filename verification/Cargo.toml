[package]
name = "indextts_installer"
version = "0.1.0"
edition = "2021"
publish = false

[dependencies]
once_cell = "1"
parking_lot = "0.12"
serde = { version = "1", features = ["derive"] }
sysinfo = "*"
tokio = { version = "1", features = ["process", "rt", "time"] }
