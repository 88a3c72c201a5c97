[package]
name = "laplace_interfaces"
version = "0.1.0"
edition = "2021"
publish = false

[dependencies]
serde = { version = "1", features = ["derive"] }
serde_json = "1"
thiserror = "2"
async-trait = "0.1"
tokio = { version = "1", features = ["io-util", "rt", "macros"] }
quinn = "0.11"
rustls = { version = "0.23", default-features = false, features = ["ring", "std", "logging", "tls12"] }
rcgen = { version = "0.14", default-features = false, features = ["crypto", "pem", "ring"] }
