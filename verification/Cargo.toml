[package]
name = "client"
version = "0.1.0"
edition = "2021"
publish = false

[dependencies]
anyhow = "=1.0.104"
cocoa = "0.26"
futures = "=0.3.34"
log = "=0.4.35"
parking_lot = "=0.12.5"
regex = "=1.13.1"
serde = { version = "=1.0.229", features = ["derive"] }
serde_json = "=1.0.154"
sha2 = "=0.10.9"
windows = { version = "0.58", features = ["Wdk_System_SystemServices", "Win32_Foundation", "Win32_System_SystemInformation"] }
