[package]
name = "wechat-pay-rust-sdk"
version = "0.1.0"
edition = "2021"
publish = false

[dependencies]
aes-gcm = "0.10"
base64 = "0.21"
chrono = "0.4"
pem = "3"
rsa = { version = "0.9", features = ["sha2"] }
serde = { version = "1", features = ["derive"] }
serde_json = "1"
uuid = { version = "1", features = ["v4"] }
x509-parser = "0.16"
reqwest = { version = "0.11", default-features = false, features = ["json", "blocking"] }
thiserror = "1"
