[package]
name = "cpub"
version = "0.1.0"
edition = "2021"
publish = false

[dependencies]
anyhow = "1"
atoi = "2"
chrono = { version = "0.4", default-features = false, features = ["clock", "std"] }
clap = { version = "3", features = ["cargo"] }
image = { version = "0.24", default-features = false, features = ["gif", "jpeg", "png"] }
num-runtime-fmt = "*"
thiserror = "1"
uuid = { version = "0.8", features = ["v4"] }
xml-rs = "0.8"
zip = { version = "0.6", default-features = false, features = ["deflate"] }
