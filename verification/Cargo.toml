[package]
name = "luau"
version = "0.1.0"
edition = "2021"
publish = false

[dependencies]
bstr = { version = "*", default-features = false, features = ["std"] }
thiserror = "*"
