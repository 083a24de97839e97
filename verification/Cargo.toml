[package]
name = "kc_overlay"
version = "0.1.0"
edition = "2021"
publish = false

[dependencies]
serde_json = "=1.0.154"
chrono = { version = "=0.4.45", default-features = false, features = ["alloc"] }
iced = { version = "=0.13.1", default-features = false, features = ["tiny-skia", "tokio"] }
tokio = { version = "=1.54.1", features = ["time"] }
reqwest = { version = "=0.12.28", default-features = false, features = ["rustls-tls"] }
rfd = { version = "0.15", default-features = false, features = ["xdg-portal", "tokio"] }
open = "=5.4.5"
url = "=2.5.2"
