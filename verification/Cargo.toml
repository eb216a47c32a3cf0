[package]
name = "hotedit"
version = "0.1.0"
edition = "2021"
publish = false

[dependencies]
shlex = "1"
tempfile = "3"
git2 = { version = "*", default-features = false }
