[package]
name = "inkwell"
version = "0.1.0"
edition = "2021"
publish = false

[dependencies]
base64 = "0.22"
getrandom = "0.3"
hmac = "0.12"
interprocess = "2"
postcard = { version = "1", features = ["alloc"] }
serde = { version = "1", features = ["derive"] }
serde_json = "1"
sha2 = "0.10"
thiserror = "2"
url = "2"
uuid = "1"
widestring = "1"
zeroize = "1"
