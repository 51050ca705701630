[package]
name = "pubky_ffi"
version = "0.1.0"
edition = "2021"
publish = false

[dependencies]
hex = "=0.4.3"
libc = "=0.2.191"
once_cell = "=1.21.4"
pkarr = { version = "=8.1.0", default-features = false, features = ["relays", "reqwest-builder"] }
pubky-common = "=0.16.2"
reqwest = { version = "=0.13.5", default-features = false, features = ["rustls", "cookies"] }
serde_json = "=1.0.154"
tokio = { version = "=1.54.1", features = ["rt-multi-thread"] }
url = "=2.5.8"
