[package]
name = "h12tiny"
version = "0.1.0"
edition = "2021"
publish = false

[dependencies]
async-io = "2"
async-net = "2"
bytes = "1"
futures-io = "0.3"
futures-rustls = { version = "0.26", default-features = false, features = ["tls12"] }
futures-util = "0.3"
http = "1"
http-body = "1"
http-body-util = "0.1"
hyper = { version = "1", features = ["client", "http1", "http2"] }
miniserde = "0.1"
pin-project-lite = "0.2"
rustls = { version = "0.23", default-features = false, features = ["std", "tls12"] }
rustls-graviola = "*"
webpki-roots = "1"

[dev-dependencies]
futures-lite = "2"
