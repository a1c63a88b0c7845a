[package]
name = "phototime"
version = "0.1.0"
edition = "2021"
publish = false

[dependencies]
chrono = "0.4"
chrono-tz = "0.8"
google-photoslibrary1 = "5"
hyper = "0.14"
hyper-rustls = "0.24"
yup-oauth2 = "8"
tokio = { version = "1", features = ["macros", "rt-multi-thread"] }
async-stream = "0.3"
futures-core = "0.3"
futures-util = "0.3"
