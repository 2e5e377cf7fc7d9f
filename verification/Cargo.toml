[package]
name = "munin_plugin"
version = "0.1.0"
edition = "2021"
publish = false

[dependencies]
anyhow = "*"
daemonize = "*"
fastrand = "*"
fs2 = "*"
spin_sleep = "*"
tempfile = "*"

[dev-dependencies]
