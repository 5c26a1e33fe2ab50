[package]
name = "bedrock_orm"
version = "0.1.0"
edition = "2021"
publish = false

[dependencies]
chrono = { version = "0.4", default-features = false, features = ["std"] }
sqlite = "0.30"
regex = "1"
lazy_static = "1"
thiserror = "1"
