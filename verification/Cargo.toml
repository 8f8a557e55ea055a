[package]
name = "clippy_land"
version = "0.1.0"
edition = "2021"
publish = false

[dependencies]
wl-clipboard-rs = "0.9"
image = { version = "0.25", default-features = false, features = ["png", "jpeg", "webp"] }
tokio = { version = "1", features = ["time", "rt"] }
futures-util = "0.3"
i18n-embed = { version = "0.15", features = ["fluent-system", "desktop-requester"] }
