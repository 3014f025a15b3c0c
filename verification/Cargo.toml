[package]
name = "cable"
version = "0.1.0"
edition = "2021"
publish = false

[dependencies]
tokio = { version = "1", features = ["sync", "rt-multi-thread", "time", "net", "io-util", "macros"] }
chrono = "0.4"
futures-util = "0.3"
native-tls = "0.2"
tokio-native-tls = "0.3"
tokio-tungstenite = "*"
