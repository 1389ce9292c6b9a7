[package]
name = "xds-channel"
version = "0.1.0"
edition = "2021"
publish = false

[dependencies]
http = "1"
opentelemetry = { version = "*", default-features = false, features = ["metrics"] }
shared_http_body = "*"
thiserror = "2"
tonic = { version = "0.14", default-features = false, features = ["channel"] }
tower = { version = "0.5", features = ["util"] }
