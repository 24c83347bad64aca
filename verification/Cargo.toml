[package]
name = "vpnctl"
version = "1.0.1"
edition = "2021"
publish = false

[dependencies]
anyhow = "1"
clap = { version = "4", features = ["derive", "env"] }
fastrand = "2"
