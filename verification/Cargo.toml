[package]
name = "moonlight-common"
version = "0.1.0"
edition = "2021"
publish = false

[dependencies]
bytes = "1"
hex = "0.4"
http = "1"
pem = "3"
percent-encoding = "2"
roxmltree = "*"
rustls = { version = "0.23", default-features = false, features = ["ring", "std", "tls12"] }
smallvec = "1"
thiserror = "2"
tracing = "0.1"
ureq = { version = "3", default-features = false, features = ["rustls"] }
uuid = { version = "1", features = ["v4"] }
