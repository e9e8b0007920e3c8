[package]
name = "blipper"
version = "0.1.0"
edition = "2021"
publish = false

[dependencies]
infrared = "*"
serde = { version = "*", features = ["derive"] }
postcard = { version = "*", features = ["use-std"] }
vcd = "*"
serialport = { version = "*", default-features = false }
