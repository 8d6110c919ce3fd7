[package]
name = "pixiv_spider"
version = "0.1.0"
edition = "2021"
publish = false

[dependencies]
async-std = "1"
chrono = "0.4"
fern = "0.6"
futures = "0.3"
isahc = "1"
log = "0.4"
mongodb = { version = "2", default-features = false, features = ["async-std-runtime"] }
serde = { version = "1", features = ["derive"] }
serde_json = "1"
thiserror = "1"
urlencoding = "2"
