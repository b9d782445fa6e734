[package]
name = "mxdns"
version = "0.1.0"
edition = "2021"
publish = false

[dependencies]
dnssector = "*"
resolv-conf = "*"
base64 = "0.21"
async-net = "*"
smol = "*"
thiserror = "1"
log = "0.4"
rustls = { version = "0.23", default-features = false, features = ["std", "ring"] }
rustls-pemfile = "2"
