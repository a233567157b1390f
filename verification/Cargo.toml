[package]
name = "brtri"
version = "0.1.0"
edition = "2021"
publish = false

[dependencies]
rayon = "1"
tokio = { version = "1", features = ["full"] }
zeromq = "*"
tracing = "0.1"
tracing-subscriber = "0.3"
parking_lot = "0.12"
serde = { version = "1", features = ["derive"] }
thiserror = "*"
config = "*"
pcl = "*"
