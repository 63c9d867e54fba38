[package]
name = "memcache"
version = "0.1.0"
edition = "2021"
publish = false

[dependencies]
url = "2"
r2d2 = "0.8"
rustls = { version = "0.23", default-features = false, features = ["ring", "std", "tls12", "logging"] }
rustls-pemfile = "2"
rustls-native-certs = "0.8"
webpki-roots = "0.26"
