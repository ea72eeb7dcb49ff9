[package]
name = "ffmpeg_provision"
version = "0.1.0"
edition = "2021"
publish = false

[dependencies]
zip = { version = "*", default-features = false, features = ["deflate"] }
flate2 = "*"
tar = "*"
lzma-rs = "*"
reqwest = { version = "*", default-features = false, features = ["blocking"] }
