[package]
name = "ryder-bridge"
version = "0.1.0"
edition = "2021"
publish = false

[dependencies]
futures = "0.3"
futures-channel = "0.3"
serialport = { version = "4.2", default-features = false }
tokio = { version = "1", features = ["io-std", "io-util", "macros", "net", "rt-multi-thread", "signal", "sync", "time"] }
tokio-tungstenite = "0.17"
tungstenite = "0.17"
url = "2"
