[package]
name = "trafdat"
version = "0.1.0"
edition = "2021"
publish = false

[dependencies]
actix-web = "*"
env_logger = "*"
flate2 = "*"
libxml = "*"
log = "*"
serde = { version = "*", features = ["derive"] }
serde_json = "*"
serde-xml-rs = "*"
unicode-segmentation = "*"
zip = { version = "*", default-features = false, features = ["deflate"] }
