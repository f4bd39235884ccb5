[package]
name = "dynamodb_mutex"
version = "0.1.0"
edition = "2021"
publish = false

[dependencies]
chrono = { version = "0.4", default-features = false, features = ["clock", "std"] }
rusoto_core = "0.48"
rusoto_dynamodb = "0.48"
thiserror = "1"
