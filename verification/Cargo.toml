[package]
name = "jar"
version = "0.1.0"
edition = "2021"
publish = false

[dependencies]
zip = { version = "=8.5.1", default-features = false, features = ["deflate"] }

[dev-dependencies]
md5 = "=0.8.1"
