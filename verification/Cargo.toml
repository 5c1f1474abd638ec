[package]
name = "crossfs"
version = "0.1.0"
edition = "2021"
publish = false

[dependencies]
serde = { version = "1", features = ["derive"] }
postcard = { version = "1", features = ["use-std"] }
thiserror = "2"
clap = { version = "4", features = ["derive"] }
rand = "*"
ipc-channel = "*"
simconnect = "*"
xplm = "*"
xplm-sys = "*"
