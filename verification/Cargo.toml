[package]
name = "clipwatch"
version = "0.1.0"
edition = "2021"
publish = false

[dependencies]
percent-encoding = "2"
futures = "0.3"
x11rb = { version = "0.13", features = ["xfixes"] }
serde = { version = "1", features = ["derive"] }
thiserror = "1"
log = "0.4"
