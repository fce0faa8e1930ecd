[package]
name = "vplugin"
version = "0.3.0"
edition = "2021"
publish = false

[dependencies]
libloading = "*"
log = "*"
serde = { version = "*", features = ["derive"] }
thiserror = "*"
toml = "*"
zip = { version = "*", default-features = false, features = ["deflate"] }
