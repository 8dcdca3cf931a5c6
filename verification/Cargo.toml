[package]
name = "musync"
version = "0.1.0"
edition = "2021"
publish = false

[dependencies]
url = "2"
md5 = "0.7"
base16 = "0.2"
clap = "2"
scan_dir = "0.3"
tokio = { version = "1", features = ["macros", "rt-multi-thread", "fs", "io-util"] }
rusoto_core = { version = "0.48", default-features = false, features = ["rustls"] }
rusoto_s3 = { version = "0.48", default-features = false, features = ["rustls"] }
