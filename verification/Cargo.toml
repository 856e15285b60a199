[package]
name = "rustlf"
version = "0.1.0"
edition = "2021"
publish = false

[dependencies]
flume = "=0.12.0"
oneshot = { version = "=0.2.1", features = ["std"] }
rand = "=0.8.8"
rayon = "=1.12.0"
