[package]
name = "typed_http"
version = "0.1.0"
edition = "2021"
publish = false

[dependencies]
bytes = "1"
futures = "0.3"
headers = "0.3"
http = "0.2"
http-body = "0.4"
hyper = { version = "0.14", features = ["client", "http1", "http2", "tcp"] }
hyper-rustls = { version = "0.24", features = ["webpki-roots", "http1", "http2"] }
serde = { version = "1", features = ["derive"] }
serde_json = "1"
thiserror = "1"
tower = { version = "0.4", features = ["util"] }
