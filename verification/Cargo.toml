[package]
name = "mini_lan_bridge"
version = "0.1.0"
edition = "2021"
publish = false

[dependencies]
rand = "*"
anyhow = "*"
tokio = { version = "*", features = ["full"] }
tun = { version = "*", features = ["async"] }
