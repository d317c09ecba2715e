[package]
name = "squealy"
version = "0.1.0"
edition = "2021"
publish = false

[dependencies]
bytes = { version = "1", default-features = false }
chrono = { version = "0.4", default-features = false }
futures-core = { version = "0.3", default-features = false }
time = { version = "0.3", default-features = false }
uuid = { version = "1", default-features = false }
