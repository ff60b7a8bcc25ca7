[package]
name = "tokio-multicast"
version = "0.7.2"
edition = "2021"
publish = false

[dependencies]
bytes = "1"
socket2 = { version = "0.5", features = ["all"] }
tokio = { version = "1", features = ["net", "rt", "time"] }
