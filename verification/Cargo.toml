[package]
name = "gamlastan"
version = "0.1.0"
edition = "2021"
publish = false

[dependencies]
base64 = "0.22"
uppsala = "*"
bergshamra-c14n = "*"
chrono = { version = "0.4", default-features = false, features = ["clock", "std"] }
thiserror = "2"
