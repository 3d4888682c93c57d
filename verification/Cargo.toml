[package]
name = "packet_sources"
version = "0.1.0"
edition = "2021"
publish = false

[dependencies]
anyhow = "=1.0.104"
log = "=0.4.35"
tempfile = "=3.27.0"
tokio = { version = "=1.54.1", features = ["io-util", "net", "process", "rt", "sync", "time"] }
windows = { version = "0.59", features = ["Win32_Foundation", "Win32_UI_Shell", "Win32_UI_WindowsAndMessaging"] }
