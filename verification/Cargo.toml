[package]
name = "storefront"
version = "0.1.0"
edition = "2021"
publish = false

[dependencies]
url = "=2.5.8"
serde_json = "=1.0.151"
serde = { version = "*", features = ["derive"] }
reqwest = { version = "=0.12.28", default-features = false, features = ["blocking", "cookies", "rustls-tls"] }
chrono = "*"
rpassword = "*"
open = "*"
sysinfo = "=0.39.6"
crypter = "=0.3.1"
hex = "*"
const-random = "*"
encoding_rs = "*"
