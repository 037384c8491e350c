[package]
name = "acktor"
version = "0.1.0"
edition = "2021"
publish = false

[dependencies]
tokio = { version = "1", default-features = false, features = ["sync", "time", "rt"] }
prost = { version = "0.13", default-features = false, features = ["std"] }
bytes = "1"
thiserror = "2"
tracing = "0.1"
futures-util = { version = "0.3", default-features = false, features = ["std"] }

[dev-dependencies]
anyhow = "1"
